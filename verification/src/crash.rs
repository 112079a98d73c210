//! Crash recovery: the start times kept in the crash history, and when
//! repeated starts put the compositor in safe mode.
use vstd::prelude::*;

verus! {

/// How long a start stays in the history, in seconds.
pub const CRASH_WINDOW_S: u64 = 30;

/// Starts at or after which the compositor enters safe mode.
pub const SAFE_MODE_STARTS: usize = 3;

/// `now - ts`, or 0 when `ts` lies in the future.
pub open spec fn age(now: u64, ts: u64) -> int {
    if ts >= now {
        0
    } else {
        now - ts
    }
}

/// The start times of `stamps` at most `CRASH_WINDOW_S` seconds before
/// `now`, in their order.
pub open spec fn recent(stamps: Seq<u64>, now: u64) -> Seq<u64>
    decreases stamps.len(),
{
    if stamps.len() == 0 {
        Seq::empty()
    } else {
        let rest = recent(stamps.drop_last(), now);
        if age(now, stamps.last()) <= CRASH_WINDOW_S {
            rest.push(stamps.last())
        } else {
            rest
        }
    }
}

proof fn lemma_recent_len(stamps: Seq<u64>, now: u64)
    ensures
        recent(stamps, now).len() <= stamps.len(),
    decreases stamps.len(),
{
    if stamps.len() > 0 {
        lemma_recent_len(stamps.drop_last(), now);
    }
}

/// Record a start at `now`: the history to keep (the recent starts, then
/// `now`) and whether to enter safe mode (at least three starts in it).
pub fn record_start(stamps: &Vec<u64>, now: u64) -> (r: (Vec<u64>, bool))
    requires
        stamps@.len() < usize::MAX,
    ensures
        r.0@ == recent(stamps@, now).push(now),
        r.1 == (r.0@.len() >= SAFE_MODE_STARTS),
{
    let mut kept: Vec<u64> = Vec::new();
    let mut i: usize = 0;
    while i < stamps.len()
        invariant
            i <= stamps@.len(),
            kept@ == recent(stamps@.take(i as int), now),
        decreases stamps.len() - i,
    {
        assert(stamps@.take(i + 1).drop_last() =~= stamps@.take(i as int));
        let ts = stamps[i];
        let a: u64 = if ts >= now { 0 } else { now - ts };
        if a <= CRASH_WINDOW_S {
            kept.push(ts);
        }
        i += 1;
    }
    assert(stamps@.take(i as int) =~= stamps@);
    proof {
        lemma_recent_len(stamps@, now);
    }
    kept.push(now);
    let safe = kept.len() >= SAFE_MODE_STARTS;
    (kept, safe)
}

} // verus!
