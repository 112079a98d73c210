//! The keyboard filter: what a key press or release does before it reaches
//! a client. It may be swallowed, become an action, run an action and still
//! reach the client, or pass through.
use vstd::prelude::*;

use super::action::{view_of, Action, ActionV};
use super::table::{key_entry_view, mask_of, mods_to_mask, named_at, BindEntry, BindTable, KeyEntryV, Mods, SubBindTable};
use crate::dispatch::DispatchState;
use crate::text::str_eq;

verus! {

/// Keysyms the overview reads.
pub const KEY_LEFT: u32 = 0xff51;
pub const KEY_UP: u32 = 0xff52;
pub const KEY_RIGHT: u32 = 0xff53;
pub const KEY_DOWN: u32 = 0xff54;
pub const KEY_RETURN: u32 = 0xff0d;
pub const KEY_KP_ENTER: u32 = 0xff8d;
pub const KEY_ESCAPE: u32 = 0xff1b;
pub const KEY_TAB: u32 = 0xff09;
pub const KEY_SPACE: u32 = 0x20;

/// What becomes of a key event.
pub enum KeyOutcome {
    /// The client gets the key.
    Forward,
    /// The compositor keeps the key, and runs the action if there is one.
    Intercept(Option<Action>),
    /// The compositor runs the action, and the client gets the key too.
    RunThenForward(Action),
}

pub enum KeyOutcomeV {
    Forward,
    Intercept(Option<ActionV>),
    RunThenForward(ActionV),
}

pub open spec fn outcome_view(o: KeyOutcome) -> KeyOutcomeV {
    match o {
        KeyOutcome::Forward => KeyOutcomeV::Forward,
        KeyOutcome::Intercept(None) => KeyOutcomeV::Intercept(None),
        KeyOutcome::Intercept(Some(a)) => KeyOutcomeV::Intercept(Some(view_of(a))),
        KeyOutcome::RunThenForward(a) => KeyOutcomeV::RunThenForward(view_of(a)),
    }
}

/// The first entry for `sym` under modifier mask `mask`.
pub open spec fn first_key(es: Seq<KeyEntryV>, sym: u32, mask: u32) -> Option<KeyEntryV>
    decreases es.len(),
{
    if es.len() == 0 {
        None
    } else if es[0].sym == sym && es[0].mods_mask == mask {
        Some(es[0])
    } else {
        first_key(es.drop_first(), sym, mask)
    }
}

proof fn lemma_first_key_at(es: Seq<KeyEntryV>, sym: u32, mask: u32, i: int)
    requires
        0 <= i < es.len(),
        es[i].sym == sym && es[i].mods_mask == mask,
        forall|j: int| 0 <= j < i ==> !(#[trigger] es[j].sym == sym && es[j].mods_mask == mask),
    ensures
        first_key(es, sym, mask) == Some(es[i]),
    decreases i,
{
    if i > 0 {
        let t = es.drop_first();
        assert(!(es[0].sym == sym && es[0].mods_mask == mask));
        assert forall|j: int| 0 <= j < i - 1 implies !(#[trigger] t[j].sym == sym && t[j].mods_mask == mask) by {
            assert(t[j] == es[j + 1]);
        }
        lemma_first_key_at(t, sym, mask, i - 1);
    }
}

proof fn lemma_first_key_none(es: Seq<KeyEntryV>, sym: u32, mask: u32)
    requires
        forall|j: int| 0 <= j < es.len() ==> !(#[trigger] es[j].sym == sym && es[j].mods_mask == mask),
    ensures
        first_key(es, sym, mask) is None,
    decreases es.len(),
{
    if es.len() > 0 {
        let t = es.drop_first();
        assert(!(es[0].sym == sym && es[0].mods_mask == mask));
        assert forall|j: int| 0 <= j < t.len() implies !(#[trigger] t[j].sym == sym && t[j].mods_mask == mask) by {
            assert(t[j] == es[j + 1]);
        }
        lemma_first_key_none(t, sym, mask);
    }
}

/// The first bind of `t` for `sym` under `mods`.
fn first_bind(t: &BindTable, sym: u32, mods: &Mods) -> (r: Option<(Action, bool, bool, bool, bool)>)
    ensures
        match first_key(t.key_view(), sym, mask_of(*mods)) {
            Some(e) => r matches Some(x) && view_of(x.0) == e.action && x.1 == e.locked && x.2 == e.global && x.3
                == e.passthrough && x.4 == e.repeat,
            None => r is None,
        },
{
    let r = t.lookup_flags(sym, mods);
    proof {
        let es = t.key_view();
        let mask = mask_of(*mods);
        match r {
            Some(ref x) => {
                let i = choose|i: int| {
                    &&& 0 <= i < t.entries@.len()
                    &&& t.entries@[i].sym == sym
                    &&& t.entries@[i].mods_mask == mask
                    &&& forall|j: int| 0 <= j < i ==> !(#[trigger] t.entries@[j].sym == sym
                        && t.entries@[j].mods_mask == mask)
                    &&& view_of(x.0) == view_of(t.entries@[i].action)
                    &&& x.1 == t.entries@[i].locked
                    &&& x.2 == t.entries@[i].global
                    &&& x.3 == t.entries@[i].passthrough
                    &&& x.4 == t.entries@[i].repeat
                };
                assert forall|j: int| 0 <= j < i implies !(#[trigger] es[j].sym == sym && es[j].mods_mask == mask) by {
                    assert(es[j] == key_entry_view(t.entries@[j]));
                    assert(!(t.entries@[j].sym == sym && t.entries@[j].mods_mask == mask));
                }
                assert(es[i] == key_entry_view(t.entries@[i]));
                lemma_first_key_at(es, sym, mask, i);
            },
            None => {
                assert forall|j: int| 0 <= j < es.len() implies !(#[trigger] es[j].sym == sym && es[j].mods_mask
                    == mask) by {
                    assert(es[j] == key_entry_view(t.entries@[j]));
                }
                lemma_first_key_none(es, sym, mask);
            },
        }
    }
    r
}

/// A submap as the filter reads it: its binds, exit keys, and whether it
/// is left on an unknown key and after an action.
pub struct SubmapV {
    pub binds: Seq<KeyEntryV>,
    pub exit_syms: Seq<u32>,
    pub exit_on_unhandled: bool,
    pub exit_after_action: bool,
}

pub open spec fn submap_view(t: SubBindTable) -> SubmapV {
    SubmapV {
        binds: t.table.key_view(),
        exit_syms: t.exit_syms@,
        exit_on_unhandled: t.exit_on_unhandled,
        exit_after_action: t.exit_after_action,
    }
}

/// The table of the active submap, if one is active and known.
pub open spec fn active_table(st: DispatchState, submaps: Seq<(String, SubBindTable)>) -> Option<SubmapV> {
    match st.active_submap {
        Some(n) => match named_at(submaps, n@, 0) {
            Some(k) => Some(submap_view(submaps[k].1)),
            None => None,
        },
        None => None,
    }
}

/// The action the overview gives a key, if it reads that key.
pub open spec fn overview_key(sym: u32, shift: bool, grabbed: bool) -> Option<ActionV> {
    if sym == KEY_LEFT {
        Some(ActionV::OverviewFocusLeft)
    } else if sym == KEY_RIGHT {
        Some(ActionV::OverviewFocusRight)
    } else if sym == KEY_UP {
        Some(ActionV::OverviewFocusUp)
    } else if sym == KEY_DOWN {
        Some(ActionV::OverviewFocusDown)
    } else if sym == KEY_RETURN || sym == KEY_KP_ENTER {
        Some(ActionV::OverviewActivate)
    } else if sym == KEY_ESCAPE {
        Some(if grabbed { ActionV::OverviewCancelGrab } else { ActionV::OverviewToggle })
    } else if sym == KEY_TAB {
        Some(if shift { ActionV::OverviewWindowPrev } else { ActionV::OverviewWindowNext })
    } else if sym == KEY_SPACE {
        Some(if grabbed { ActionV::OverviewDropWindow } else { ActionV::OverviewGrabWindow })
    } else {
        None
    }
}

/// What a pressed key does inside the active submap.
pub open spec fn submap_outcome(sub: SubmapV, sym: u32, mask: u32) -> KeyOutcomeV {
    if sub.exit_syms.contains(sym) {
        KeyOutcomeV::Intercept(Some(ActionV::SubmapReset))
    } else {
        match first_key(sub.binds, sym, mask) {
            Some(e) => KeyOutcomeV::Intercept(
                Some(
                    if sub.exit_after_action {
                        ActionV::SubmapActionThenReset(Box::new(e.action))
                    } else {
                        e.action
                    },
                ),
            ),
            None => KeyOutcomeV::Intercept(if sub.exit_on_unhandled { Some(ActionV::SubmapReset) } else { None }),
        }
    }
}

/// What a pressed key does through the normal binds.
pub open spec fn bind_outcome(binds: Seq<KeyEntryV>, sym: u32, mask: u32, locked: bool, inhibited: bool) -> KeyOutcomeV {
    if inhibited {
        KeyOutcomeV::Forward
    } else {
        match first_key(binds, sym, mask) {
            Some(e) => if locked && !e.locked {
                KeyOutcomeV::Forward
            } else if e.passthrough {
                KeyOutcomeV::RunThenForward(e.action)
            } else {
                KeyOutcomeV::Intercept(Some(e.action))
            },
            None => KeyOutcomeV::Forward,
        }
    }
}

/// The key is the pointer-constraint break key, pressed.
pub open spec fn is_break_key(pressed: bool, sym: u32, mask: u32, break_key: Option<(u32, u32)>) -> bool {
    pressed && (break_key matches Some(b) && sym == b.0 && mask == b.1)
}

/// The key is a held key pressed again that its bind does not let repeat.
pub open spec fn repeat_dropped(binds: Seq<KeyEntryV>, held: bool, sym: u32, mask: u32) -> bool {
    held && !(first_key(binds, sym, mask) matches Some(e) && e.repeat)
}

/// The outcome of a key event (see `key_filter`), given whether the key was
/// already held.
pub open spec fn key_outcome(
    st: DispatchState,
    submaps: Seq<(String, SubBindTable)>,
    binds: Seq<KeyEntryV>,
    releases: Seq<KeyEntryV>,
    held: bool,
    sym: u32,
    mask: u32,
    shift: bool,
    pressed: bool,
    break_key: Option<(u32, u32)>,
    locked: bool,
    inhibited: bool,
) -> KeyOutcomeV {
    if is_break_key(pressed, sym, mask, break_key) {
        KeyOutcomeV::Intercept(None)
    } else if !pressed {
        if st.is_stack_peeking {
            KeyOutcomeV::Intercept(None)
        } else {
            match first_key(releases, sym, mask) {
                Some(e) => KeyOutcomeV::Intercept(Some(e.action)),
                None => KeyOutcomeV::Forward,
            }
        }
    } else if repeat_dropped(binds, held, sym, mask) {
        KeyOutcomeV::Forward
    } else if st.is_overview && st.active_submap is None && overview_key(sym, shift, st.overview_grabbed_window is Some)
        is Some {
        KeyOutcomeV::Intercept(overview_key(sym, shift, st.overview_grabbed_window is Some))
    } else {
        match active_table(st, submaps) {
            Some(sub) => submap_outcome(sub, sym, mask),
            None => bind_outcome(binds, sym, mask, locked, inhibited),
        }
    }
}

/// Whether the key is held after the event.
pub open spec fn held_after(
    binds: Seq<KeyEntryV>,
    held: bool,
    sym: u32,
    mask: u32,
    pressed: bool,
    break_key: Option<(u32, u32)>,
) -> bool {
    if is_break_key(pressed, sym, mask, break_key) {
        held
    } else if !pressed {
        false
    } else if repeat_dropped(binds, held, sym, mask) {
        true
    } else {
        true
    }
}

fn overview_action(sym: u32, shift: bool, grabbed: bool) -> (r: Option<Action>)
    ensures
        match r {
            Some(a) => overview_key(sym, shift, grabbed) == Some(view_of(a)),
            None => overview_key(sym, shift, grabbed) is None,
        },
{
    if sym == KEY_LEFT {
        Some(Action::OverviewFocusLeft)
    } else if sym == KEY_RIGHT {
        Some(Action::OverviewFocusRight)
    } else if sym == KEY_UP {
        Some(Action::OverviewFocusUp)
    } else if sym == KEY_DOWN {
        Some(Action::OverviewFocusDown)
    } else if sym == KEY_RETURN || sym == KEY_KP_ENTER {
        Some(Action::OverviewActivate)
    } else if sym == KEY_ESCAPE {
        Some(if grabbed { Action::OverviewCancelGrab } else { Action::OverviewToggle })
    } else if sym == KEY_TAB {
        Some(if shift { Action::OverviewWindowPrev } else { Action::OverviewWindowNext })
    } else if sym == KEY_SPACE {
        Some(if grabbed { Action::OverviewDropWindow } else { Action::OverviewGrabWindow })
    } else {
        None
    }
}

fn find_submap(submaps: &Vec<(String, SubBindTable)>, name: &str) -> (r: Option<usize>)
    ensures
        match r {
            Some(k) => named_at(submaps@, name@, 0) == Some(k as int) && k < submaps@.len(),
            None => named_at(submaps@, name@, 0) is None,
        },
{
    let mut i: usize = 0;
    while i < submaps.len()
        invariant
            i <= submaps@.len(),
            named_at(submaps@, name@, 0) == named_at(submaps@, name@, i as int),
        decreases submaps.len() - i,
    {
        if str_eq(submaps[i].0.as_str(), name) {
            return Some(i);
        }
        i += 1;
    }
    None
}

fn submap_key(sub: &SubBindTable, sym: u32, mods: &Mods) -> (r: KeyOutcome)
    ensures
        outcome_view(r) == submap_outcome(submap_view(*sub), sym, mask_of(*mods)),
{
    if sub.is_exit_key(sym) {
        return KeyOutcome::Intercept(Some(Action::SubmapReset));
    }
    match first_bind(&sub.table, sym, mods) {
        Some(x) => {
            if sub.exit_after_action {
                KeyOutcome::Intercept(Some(Action::SubmapActionThenReset(Box::new(x.0))))
            } else {
                KeyOutcome::Intercept(Some(x.0))
            }
        },
        None => {
            if sub.exit_on_unhandled {
                KeyOutcome::Intercept(Some(Action::SubmapReset))
            } else {
                KeyOutcome::Intercept(None)
            }
        },
    }
}

fn normal_key(binds: &BindTable, sym: u32, mods: &Mods, locked: bool, inhibited: bool) -> (r: KeyOutcome)
    ensures
        outcome_view(r) == bind_outcome(binds.key_view(), sym, mask_of(*mods), locked, inhibited),
{
    if inhibited {
        return KeyOutcome::Forward;
    }
    match first_bind(binds, sym, mods) {
        Some(x) => {
            if locked && !x.1 {
                KeyOutcome::Forward
            } else if x.3 {
                KeyOutcome::RunThenForward(x.0)
            } else {
                KeyOutcome::Intercept(Some(x.0))
            }
        },
        None => KeyOutcome::Forward,
    }
}

fn remove_key(held: &mut Vec<u32>, sym: u32)
    ensures
        forall|k: u32| final(held)@.contains(k) == (old(held)@.contains(k) && k != sym),
{
    let mut out: Vec<u32> = Vec::new();
    let mut i: usize = 0;
    while i < held.len()
        invariant
            i <= held@.len(),
            forall|k: u32| out@.contains(k) == (held@.take(i as int).contains(k) && k != sym),
        decreases held.len() - i,
    {
        let x = held[i];
        let ghost before = out@;
        if x != sym {
            out.push(x);
        }
        proof {
            assert(held@.take(i + 1) =~= held@.take(i as int).push(x));
            assert forall|k: u32| out@.contains(k) == (held@.take(i + 1).contains(k) && k != sym) by {
                let t0 = held@.take(i as int);
                let t1 = held@.take(i + 1);
                if out@.contains(k) {
                    let m = choose|m: int| 0 <= m < out@.len() && #[trigger] out@[m] == k;
                    if m < before.len() {
                        assert(before[m] == k);
                        assert(before.contains(k));
                        let m0 = choose|m0: int| 0 <= m0 < t0.len() && #[trigger] t0[m0] == k;
                        assert(t1[m0] == k);
                    } else {
                        assert(t1[i as int] == k);
                    }
                }
                if t1.contains(k) && k != sym {
                    let m = choose|m: int| 0 <= m < t1.len() && #[trigger] t1[m] == k;
                    if m < i {
                        assert(t0[m] == k);
                        assert(t0.contains(k));
                        assert(before.contains(k));
                        let m2 = choose|m2: int| 0 <= m2 < before.len() && #[trigger] before[m2] == k;
                        assert(out@[m2] == k);
                    } else {
                        assert(out@[out@.len() - 1] == k);
                    }
                }
            }
        }
        i += 1;
    }
    assert(held@.take(i as int) =~= held@);
    *held = out;
}

fn contains_key(held: &Vec<u32>, sym: u32) -> (r: bool)
    ensures
        r == held@.contains(sym),
{
    let mut i: usize = 0;
    while i < held.len()
        invariant
            i <= held@.len(),
            forall|j: int| 0 <= j < i ==> held@[j] != sym,
        decreases held.len() - i,
    {
        if held[i] == sym {
            return true;
        }
        i += 1;
    }
    false
}

/// Filter one key event: `sym` with modifiers `mods`, pressed or released.
/// `held` holds the keys seen pressed and not yet released; `binds` and
/// `releases` are the key binds and release binds, `submaps` the submap
/// tables; `break_key` is the pointer-constraint break key (keysym and
/// modifier mask); `locked` says the session is locked, and `inhibited` that
/// the focused client inhibits shortcuts. A release also ends stack peeking.
pub fn key_filter(
    st: &mut DispatchState,
    held: &mut Vec<u32>,
    binds: &BindTable,
    releases: &BindTable,
    submaps: &Vec<(String, SubBindTable)>,
    sym: u32,
    mods: &Mods,
    pressed: bool,
    break_key: Option<(u32, u32)>,
    locked: bool,
    inhibited: bool,
) -> (r: KeyOutcome)
    ensures
        outcome_view(r) == key_outcome(*old(st), submaps@, binds.key_view(), releases.key_view(), old(held)@.contains(sym),
            sym, mask_of(*mods), mods.shift, pressed, break_key, locked, inhibited),
        forall|k: u32| k != sym ==> final(held)@.contains(k) == old(held)@.contains(k),
        final(held)@.contains(sym) == held_after(binds.key_view(), old(held)@.contains(sym), sym, mask_of(*mods), pressed,
            break_key),
        *final(st) == (DispatchState {
            is_stack_peeking: old(st).is_stack_peeking && !(!pressed && !is_break_key(pressed, sym, mask_of(*mods), break_key)),
            ..*old(st)
        }),
{
    let mask = mods_to_mask(mods);
    let ghost want = key_outcome(*st, submaps@, binds.key_view(), releases.key_view(), held@.contains(sym), sym,
        mask_of(*mods), mods.shift, pressed, break_key, locked, inhibited);
    let ghost st0 = *st;
    if pressed {
        if let Some((bs, bm)) = break_key {
            if sym == bs && mask == bm {
                return KeyOutcome::Intercept(None);
            }
        }
    }
    assert(!is_break_key(pressed, sym, mask_of(*mods), break_key));
    if !pressed {
        remove_key(held, sym);
        if st.is_stack_peeking {
            st.is_stack_peeking = false;
            return KeyOutcome::Intercept(None);
        }
        let r = match first_bind(releases, sym, mods) {
            Some(x) => KeyOutcome::Intercept(Some(x.0)),
            None => KeyOutcome::Forward,
        };
        assert(outcome_view(r) == want);
        return r;
    }
    let is_repeat = contains_key(held, sym);
    if is_repeat {
        let allow = match first_bind(binds, sym, mods) {
            Some(x) => x.4,
            None => false,
        };
        if !allow {
            return KeyOutcome::Forward;
        }
    } else {
        held.push(sym);
        assert(held@[held@.len() - 1] == sym);
        assert(held@.contains(sym));
        assert forall|k: u32| k != sym implies held@.contains(k) == old(held)@.contains(k) by {
            if held@.contains(k) {
                let m = choose|m: int| 0 <= m < held@.len() && held@[m] == k;
                assert(old(held)@[m] == k);
            }
            if old(held)@.contains(k) {
                let m = choose|m: int| 0 <= m < old(held)@.len() && old(held)@[m] == k;
                assert(held@[m] == k);
            }
        }
    }
    assert(!repeat_dropped(binds.key_view(), is_repeat, sym, mask_of(*mods)));
    if st.is_overview && st.active_submap.is_none() {
        if let Some(a) = overview_action(sym, mods.shift, st.overview_grabbed_window.is_some()) {
            let r = KeyOutcome::Intercept(Some(a));
            assert(outcome_view(r) == want);
            return r;
        }
    }
    let k = match &st.active_submap {
        Some(name) => {
            let k = find_submap(submaps, name.as_str());
            proof {
                assert(st0.active_submap == Some(*name));
                if let Some(k) = k {
                    assert(named_at(submaps@, name@, 0) == Some(k as int));
                }
            }
            k
        },
        None => None,
    };
    assert(k is Some == active_table(st0, submaps@) is Some);
    let ghost ov = st0.is_overview && st0.active_submap is None && overview_key(sym, mods.shift,
        st0.overview_grabbed_window is Some) is Some;
    assert(!ov);
    match k {
        Some(k) => {
            let r = submap_key(&submaps[k].1, sym, mods);
            assert(active_table(st0, submaps@) == Some(submap_view(submaps@[k as int].1)));
            assert(outcome_view(r) == want);
            r
        },
        None => {
            let r = normal_key(binds, sym, mods, locked, inhibited);
            assert(active_table(st0, submaps@) is None);
            assert(outcome_view(r) == bind_outcome(binds.key_view(), sym, mask_of(*mods), locked, inhibited));
            assert(outcome_view(r) == want);
            r
        },
    }
}

} // verus!
