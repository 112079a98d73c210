//! Focus after close and spatial focus navigation.
use vstd::prelude::*;

use super::window::{all_slots, Slot, WindowId};
use super::workspace::Workspace;
use crate::config::types::FocusOnClosePolicy;
use crate::seqs::{find_other, first_other};

verus! {

#[derive(Debug, Clone, Copy, PartialEq, Eq, Structural)]
pub enum FocusDirection {
    Left,
    Right,
    Up,
    Down,
}

/// Squared distance between slot centers on the 4x4 lattice (16 times the
/// squared distance of the normalized centers).
pub open spec fn dist2(a: Slot, b: Slot) -> int {
    let (ax, ay) = a.center4();
    let (bx, by) = b.center4();
    (ax - bx) * (ax - bx) + (ay - by) * (ay - by)
}

/// Whether slot `s`'s center lies in `dir` from slot `from`'s center;
/// `None` means any direction.
pub open spec fn lies_toward(from: Slot, s: Slot, dir: Option<FocusDirection>) -> bool {
    let (fx, fy) = from.center4();
    let (cx, cy) = s.center4();
    match dir {
        None => true,
        Some(FocusDirection::Left) => cx < fx,
        Some(FocusDirection::Right) => cx > fx,
        Some(FocusDirection::Up) => cy < fy,
        Some(FocusDirection::Down) => cy > fy,
    }
}

/// An occupied slot other than `from` lying toward `dir`.
pub open spec fn is_candidate(ws: &Workspace, from: Slot, dir: Option<FocusDirection>, s: Slot) -> bool {
    ws.occupied(s) && s != from && lies_toward(from, s, dir)
}

/// Among the candidates of index below `k`, the first one nearest to `from`.
pub open spec fn nearest_upto(ws: &Workspace, from: Slot, dir: Option<FocusDirection>, k: int) -> Option<Slot>
    decreases k,
{
    if k <= 0 {
        None
    } else {
        let prev = nearest_upto(ws, from, dir, k - 1);
        let s = all_slots()[k - 1];
        if !is_candidate(ws, from, dir, s) {
            prev
        } else {
            match prev {
                None => Some(s),
                Some(b) => if dist2(s, from) < dist2(b, from) {
                    Some(s)
                } else {
                    prev
                },
            }
        }
    }
}

/// The first (in reading order) candidate nearest to `from`.
pub open spec fn nearest(ws: &Workspace, from: Slot, dir: Option<FocusDirection>) -> Option<Slot> {
    nearest_upto(ws, from, dir, 6)
}

/// The nearest candidate is a candidate at least as near as every other
/// candidate, and none exists exactly when there is no candidate.
pub proof fn lemma_nearest_upto(ws: &Workspace, from: Slot, dir: Option<FocusDirection>, k: int)
    requires
        0 <= k <= 6,
    ensures
        match nearest_upto(ws, from, dir, k) {
            Some(b) => {
                &&& is_candidate(ws, from, dir, b)
                &&& b.idx() < k
                &&& forall|s: Slot| s.idx() < k && #[trigger] is_candidate(ws, from, dir, s)
                    ==> dist2(b, from) <= dist2(s, from)
                &&& forall|s: Slot| s.idx() < b.idx() && #[trigger] is_candidate(ws, from, dir, s)
                    ==> dist2(b, from) < dist2(s, from)
            },
            None => forall|s: Slot| s.idx() < k ==> !#[trigger] is_candidate(ws, from, dir, s),
        },
    decreases k,
{
    if k > 0 {
        lemma_nearest_upto(ws, from, dir, k - 1);
        let t = all_slots()[k - 1];
        assert(t.idx() == k - 1);
        assert forall|s: Slot| s.idx() < k implies (s.idx() < k - 1 || s == t) by {
            if s.idx() == k - 1 {
                assert(all_slots()[s.idx()] == s);
            }
        }
    }
}

/// The nearest candidate slot to `from` toward `dir`.
pub fn nearest_slot(ws: &Workspace, from: Slot, dir: Option<FocusDirection>) -> (r: Option<Slot>)
    requires
        ws.wf(),
    ensures
        r == nearest(ws, from, dir),
{
    let (fx, fy) = from.center_quarters();
    assert(1 <= fx <= 3 && 1 <= fy <= 3);
    let mut best: Option<Slot> = None;
    let mut best_d: i32 = 0;
    let mut i: usize = 0;
    while i < 6
        invariant
            i <= 6,
            ws.wf(),
            fx == from.center4().0,
            fy == from.center4().1,
            1 <= fx <= 3,
            1 <= fy <= 3,
            best == nearest_upto(ws, from, dir, i as int),
            best is Some ==> best_d == dist2(best->0, from),
        decreases 6 - i,
    {
        let s = Slot::from_index(i);
        let (cx, cy) = s.center_quarters();
        let toward = match dir {
            None => true,
            Some(FocusDirection::Left) => cx < fx,
            Some(FocusDirection::Right) => cx > fx,
            Some(FocusDirection::Up) => cy < fy,
            Some(FocusDirection::Down) => cy > fy,
        };
        if ws.slots[i].len() > 0 && s != from && toward {
            let dx = cx as i32 - fx as i32;
            let dy = cy as i32 - fy as i32;
            assert(1 <= cx <= 3 && 1 <= cy <= 3);
            assert(0 <= dx * dx <= 4 && 0 <= dy * dy <= 4) by (nonlinear_arith)
                requires
                    -2 <= dx <= 2,
                    -2 <= dy <= 2;
            let d = dx * dx + dy * dy;
            match best {
                None => {
                    best = Some(s);
                    best_d = d;
                },
                Some(_) => {
                    if d < best_d {
                        best = Some(s);
                        best_d = d;
                    }
                },
            }
        }
        i += 1;
    }
    best
}

// ─── Focus after close ───────────────────────────────────────────────────────

/// The window focused after `closed_id` goes away, under `policy`.
pub open spec fn focus_after_close_spec(
    ws: &Workspace,
    closed_id: WindowId,
    closed_slot: Option<Slot>,
    policy: FocusOnClosePolicy,
) -> Option<WindowId> {
    let last = first_other(ws.focus_history@, closed_id);
    match policy {
        FocusOnClosePolicy::LastFocused => last,
        FocusOnClosePolicy::StackNext => match closed_slot {
            Some(slot) => match first_other(ws.stack(slot), closed_id) {
                Some(x) => Some(x),
                None => last,
            },
            None => last,
        },
        FocusOnClosePolicy::SlotNeighbor => match closed_slot {
            Some(slot) => match nearest(ws, slot, None) {
                Some(s) => match ws.top(s) {
                    Some(x) => Some(x),
                    None => last,
                },
                None => last,
            },
            None => last,
        },
        FocusOnClosePolicy::NoFocus => None,
    }
}

/// Which window to focus after `closed_id` is removed; None if no window
/// remains to focus on this workspace.
pub fn focus_after_close(
    ws: &Workspace,
    closed_id: WindowId,
    closed_slot: Option<Slot>,
    policy: &FocusOnClosePolicy,
) -> (r: Option<WindowId>)
    requires
        ws.wf(),
    ensures
        r == focus_after_close_spec(ws, closed_id, closed_slot, *policy),
{
    match policy {
        FocusOnClosePolicy::LastFocused => find_other(&ws.focus_history, closed_id),
        FocusOnClosePolicy::StackNext => {
            if let Some(slot) = closed_slot {
                let stack = &ws.slots[slot.index()];
                match find_other(stack, closed_id) {
                    Some(x) => Some(x),
                    None => find_other(&ws.focus_history, closed_id),
                }
            } else {
                find_other(&ws.focus_history, closed_id)
            }
        },
        FocusOnClosePolicy::SlotNeighbor => {
            if let Some(slot) = closed_slot {
                match nearest_slot(ws, slot, None) {
                    Some(s) => match ws.slot_top(s) {
                        Some(x) => Some(x),
                        None => find_other(&ws.focus_history, closed_id),
                    },
                    None => find_other(&ws.focus_history, closed_id),
                }
            } else {
                find_other(&ws.focus_history, closed_id)
            }
        },
        FocusOnClosePolicy::NoFocus => None,
    }
}

// ─── Spatial focus navigation ────────────────────────────────────────────────

/// The window reached from `focused_slot` toward `direction`: the top of the
/// nearest occupied slot lying that way.
pub open spec fn spatial_focus_spec(ws: &Workspace, focused_slot: Slot, direction: FocusDirection) -> Option<WindowId> {
    match nearest(ws, focused_slot, Some(direction)) {
        Some(s) => ws.top(s),
        None => None,
    }
}

/// The best window to focus toward `direction` from `focused_slot`; None
/// when focus should cross into the adjacent workspace.
pub fn spatial_focus(ws: &Workspace, focused_slot: Slot, direction: FocusDirection) -> (r: Option<WindowId>)
    requires
        ws.wf(),
    ensures
        r == spatial_focus_spec(ws, focused_slot, direction),
{
    match nearest_slot(ws, focused_slot, Some(direction)) {
        Some(s) => ws.slot_top(s),
        None => None,
    }
}

} // verus!
