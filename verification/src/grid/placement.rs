//! New-window placement policy.
use vstd::prelude::*;

use super::conflict::{conflicts, slots_conflict};
use super::window::{Slot, WindowId, WindowState};
use super::workspace::{lemma_slots_where, slots_where, Workspace};

verus! {

/// Initial state/slot assignment for a new window.
#[derive(Debug, Clone, Copy, PartialEq, Eq, Structural)]
pub struct InitialPlacement {
    pub state: WindowState,
    /// Some only when state == Tiled.
    pub slot: Option<Slot>,
}

/// A window that must be demoted (the lone Fullscreen window that splits
/// the screen when a second window arrives).
#[derive(Debug, Clone, Copy, PartialEq, Eq, Structural)]
pub struct DemoteAction {
    pub window_id: WindowId,
    pub to_slot: Slot,
    pub new_state: WindowState,
}

/// A free slot that overlaps no occupied slot.
pub open spec fn free_and_clear(ws: &Workspace, c: Slot) -> bool {
    !ws.occupied(c) && forall|occ: Slot| #[trigger] ws.occupied(occ) && occ != c ==> !conflicts(c, occ)
}

/// The first slot in scan order satisfying `p`.
pub open spec fn first_where(p: spec_fn(Slot) -> bool) -> Option<Slot> {
    if slots_where(p).len() > 0 {
        Some(slots_where(p)[0])
    } else {
        None
    }
}

/// The placement policy: an empty workspace gets Fullscreen; a lone
/// Fullscreen window is demoted to HalfLeft and the new one goes HalfRight;
/// otherwise the first free non-conflicting slot in scan order; otherwise the
/// first occupied slot (stacking onto it), HalfLeft if none.
pub open spec fn placement_spec(ws: &Workspace) -> (InitialPlacement, Seq<DemoteAction>) {
    if ws.total_len() == 0 {
        (InitialPlacement { state: WindowState::Fullscreen, slot: None }, Seq::empty())
    } else if ws.fullscreen_stack@.len() == 1 && ws.total_fullscreen_stack@.len() == 0
        && (forall|s: Slot| #[trigger] ws.stack(s).len() == 0) && ws.floating@.len() == 0 {
        (
            InitialPlacement { state: WindowState::Tiled, slot: Some(Slot::HalfRight) },
            seq![DemoteAction {
                window_id: ws.fullscreen_stack@[0],
                to_slot: Slot::HalfLeft,
                new_state: WindowState::Tiled,
            }],
        )
    } else {
        match first_where(|c: Slot| free_and_clear(ws, c)) {
            Some(c) => (InitialPlacement { state: WindowState::Tiled, slot: Some(c) }, Seq::empty()),
            None => (
                InitialPlacement {
                    state: WindowState::Tiled,
                    slot: Some(
                        match first_where(|s: Slot| ws.occupied(s)) {
                            Some(s) => s,
                            None => Slot::HalfLeft,
                        },
                    ),
                },
                Seq::empty(),
            ),
        }
    }
}

/// Whether slot `c` overlaps none of the occupied slots `occupied` other than itself.
fn blocked_by(occupied: &Vec<Slot>, c: Slot) -> (r: bool)
    ensures
        r == exists|k: int| 0 <= k < occupied@.len() && occupied@[k] != c && conflicts(c, #[trigger] occupied@[k]),
{
    let mut i: usize = 0;
    while i < occupied.len()
        invariant
            i <= occupied@.len(),
            forall|k: int| 0 <= k < i ==> !(occupied@[k] != c && conflicts(c, #[trigger] occupied@[k])),
        decreases occupied.len() - i,
    {
        let occ = occupied[i];
        if occ != c && slots_conflict(c, occ) {
            return true;
        }
        i += 1;
    }
    false
}

/// Initial placement for a newly mapped window plus any demotions of
/// existing windows.
pub fn place_new_window(ws: &Workspace) -> (r: (InitialPlacement, Vec<DemoteAction>))
    requires
        ws.wf(),
    ensures
        (r.0, r.1@) == placement_spec(ws),
{
    // Rule 1: empty workspace: the first window gets Fullscreen.
    if ws.is_empty() {
        return (InitialPlacement { state: WindowState::Fullscreen, slot: None }, Vec::new());
    }
    // Rule 2: a lone Fullscreen window is demoted to HalfLeft and the new
    // window goes to HalfRight.
    if ws.has_only_fullscreen() {
        let demoted_id = ws.fullscreen_stack[0];
        let mut demotions: Vec<DemoteAction> = Vec::new();
        demotions.push(DemoteAction {
            window_id: demoted_id,
            to_slot: Slot::HalfLeft,
            new_state: WindowState::Tiled,
        });
        assert(demotions@ =~= seq![DemoteAction {
            window_id: ws.fullscreen_stack@[0],
            to_slot: Slot::HalfLeft,
            new_state: WindowState::Tiled,
        }]);
        return (InitialPlacement { state: WindowState::Tiled, slot: Some(Slot::HalfRight) }, demotions);
    }
    // Rule 3: next empty slot in scan order that no occupied slot overlaps.
    let occupied = ws.occupied_slots();
    let ghost occ_p = |s: Slot| ws.occupied(s);
    let ghost cand = |c: Slot| free_and_clear(ws, c);
    proof {
        lemma_slots_where(occ_p);
        lemma_slots_where(cand);
    }
    let mut i: usize = 0;
    while i < 6
        invariant
            i <= 6,
            ws.wf(),
            occupied@ == slots_where(occ_p),
            occ_p == (|s: Slot| ws.occupied(s)),
            cand == (|c: Slot| free_and_clear(ws, c)),
            forall|s: Slot| #[trigger] slots_where(occ_p).contains(s) <==> occ_p(s),
            forall|s: Slot| #[trigger] slots_where(cand).contains(s) <==> cand(s),
            forall|ii: int, j: int| 0 <= ii < j < slots_where(cand).len()
                ==> slots_where(cand)[ii].idx() < slots_where(cand)[j].idx(),
            forall|s: Slot| s.idx() < i ==> !#[trigger] cand(s),
            ws.total_len() != 0,
            !(ws.fullscreen_stack@.len() == 1 && ws.total_fullscreen_stack@.len() == 0
                && (forall|s: Slot| #[trigger] ws.stack(s).len() == 0) && ws.floating@.len() == 0),
        decreases 6 - i,
    {
        let candidate = Slot::from_index(i);
        if ws.slot_top(candidate).is_none() {
            let blocked = blocked_by(&occupied, candidate);
            proof {
                if !blocked {
                    assert forall|occ: Slot| #[trigger] ws.occupied(occ) && occ != candidate implies !conflicts(candidate, occ) by {
                        assert(occ_p(occ));
                        assert(slots_where(occ_p).contains(occ));
                        let k = choose|k: int| 0 <= k < occupied@.len() && occupied@[k] == occ;
                    }
                } else {
                    let k = choose|k: int| 0 <= k < occupied@.len() && occupied@[k] != candidate
                        && conflicts(candidate, #[trigger] occupied@[k]);
                    assert(slots_where(occ_p).contains(occupied@[k]));
                    assert(ws.occupied(occupied@[k]));
                }
            }
            if !blocked {
                proof {
                    assert(cand(candidate));
                    assert(slots_where(cand).contains(candidate));
                    let first = slots_where(cand)[0];
                    assert(slots_where(cand).contains(first));
                    assert(cand(first));
                    if first != candidate {
                        let k = choose|k: int| 0 <= k < slots_where(cand).len() && slots_where(cand)[k] == candidate;
                        assert(k > 0);
                        assert(first.idx() < candidate.idx());
                        assert(false);
                    }
                    assert(first_where(cand) == Some(candidate));
                    assert((|c: Slot| free_and_clear(ws, c)) =~= cand);
                }
                return (InitialPlacement { state: WindowState::Tiled, slot: Some(candidate) }, Vec::new());
            }
        }
        i += 1;
    }
    proof {
        if slots_where(cand).len() > 0 {
            assert(slots_where(cand).contains(slots_where(cand)[0]));
        }
        assert((|c: Slot| free_and_clear(ws, c)) =~= cand);
        assert((|s: Slot| ws.occupied(s)) =~= occ_p);
    }
    // Rule 4: everything free is blocked: stack onto the first occupied slot.
    let target = if occupied.len() > 0 {
        occupied[0]
    } else {
        Slot::HalfLeft
    };
    (InitialPlacement { state: WindowState::Tiled, slot: Some(target) }, Vec::new())
}

} // verus!
