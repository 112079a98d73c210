//! Slot adaptation and conflict resolution.
use vstd::prelude::*;

use super::window::{Slot, WindowId, WindowState};
use super::workspace::{lemma_slots_upto, lemma_slots_where, slots_upto, slots_where, Workspace};
use crate::config::types::ConflictPolicy;

verus! {

/// Two slots conflict when they overlap on screen: a slot with itself, and a
/// half with the two quarters on its side.
pub open spec fn conflicts(a: Slot, b: Slot) -> bool {
    a == b || match (a, b) {
        (Slot::HalfLeft, Slot::QuarterTL) | (Slot::QuarterTL, Slot::HalfLeft)
        | (Slot::HalfLeft, Slot::QuarterBL) | (Slot::QuarterBL, Slot::HalfLeft)
        | (Slot::HalfRight, Slot::QuarterTR) | (Slot::QuarterTR, Slot::HalfRight)
        | (Slot::HalfRight, Slot::QuarterBR) | (Slot::QuarterBR, Slot::HalfRight) => true,
        _ => false,
    }
}

/// Occupied slots of `ws` that conflict with `target`, in reading order.
pub open spec fn conflicting_seq(ws: &Workspace, target: Slot) -> Seq<Slot> {
    slots_where(|s: Slot| ws.occupied(s) && conflicts(s, target))
}

/// Returns true if slots `a` and `b` geometrically conflict.
pub fn slots_conflict(a: Slot, b: Slot) -> (r: bool)
    ensures
        r == conflicts(a, b),
{
    if a == b {
        return true;
    }
    matches!(
        (a, b),
        (Slot::HalfLeft, Slot::QuarterTL) | (Slot::QuarterTL, Slot::HalfLeft)
        | (Slot::HalfLeft, Slot::QuarterBL) | (Slot::QuarterBL, Slot::HalfLeft)
        | (Slot::HalfRight, Slot::QuarterTR) | (Slot::QuarterTR, Slot::HalfRight)
        | (Slot::HalfRight, Slot::QuarterBR) | (Slot::QuarterBR, Slot::HalfRight)
    )
}

/// Occupied slots that geometrically conflict with `target`.
pub fn conflicting_occupants(ws: &Workspace, target: Slot) -> (r: Vec<Slot>)
    requires
        ws.wf(),
    ensures
        r@ == conflicting_seq(ws, target),
{
    let ghost p = |s: Slot| ws.occupied(s) && conflicts(s, target);
    let mut r: Vec<Slot> = Vec::new();
    let mut i: usize = 0;
    while i < 6
        invariant
            i <= 6,
            ws.wf(),
            p == (|s: Slot| ws.occupied(s) && conflicts(s, target)),
            r@ == slots_upto(p, i as int),
        decreases 6 - i,
    {
        let slot = Slot::from_index(i);
        if ws.slots[i].len() > 0 && slots_conflict(slot, target) {
            r.push(slot);
        }
        assert(r@ =~= slots_upto(p, i as int + 1));
        i += 1;
    }
    r
}

// ─── Slot adaptation ─────────────────────────────────────────────────────────

/// Half into the complementary free quarter when exactly one quarter of
/// that side is taken; quarters never adapt.
pub open spec fn half_to_quarter(ws: &Workspace, incoming: Slot) -> Option<Slot> {
    match incoming {
        Slot::HalfLeft => {
            let tl = ws.occupied(Slot::QuarterTL);
            let bl = ws.occupied(Slot::QuarterBL);
            if tl && !bl {
                Some(Slot::QuarterBL)
            } else if !tl && bl {
                Some(Slot::QuarterTL)
            } else {
                None
            }
        },
        Slot::HalfRight => {
            let tr = ws.occupied(Slot::QuarterTR);
            let br = ws.occupied(Slot::QuarterBR);
            if tr && !br {
                Some(Slot::QuarterBR)
            } else if !tr && br {
                Some(Slot::QuarterTR)
            } else {
                None
            }
        },
        _ => None,
    }
}

/// Half to complementary quarter adaptation; None if it does not apply.
pub fn adapt_half_to_quarter(ws: &Workspace, incoming: Slot) -> (r: Option<Slot>)
    requires
        ws.wf(),
    ensures
        r == half_to_quarter(ws, incoming),
{
    match incoming {
        Slot::HalfLeft => {
            let tl = ws.slot_top(Slot::QuarterTL).is_some();
            let bl = ws.slot_top(Slot::QuarterBL).is_some();
            if tl && !bl {
                Some(Slot::QuarterBL)
            } else if !tl && bl {
                Some(Slot::QuarterTL)
            } else {
                None
            }
        },
        Slot::HalfRight => {
            let tr = ws.slot_top(Slot::QuarterTR).is_some();
            let br = ws.slot_top(Slot::QuarterBR).is_some();
            if tr && !br {
                Some(Slot::QuarterBR)
            } else if !tr && br {
                Some(Slot::QuarterTR)
            } else {
                None
            }
        },
        _ => None,
    }
}

pub open spec fn left_free(ws: &Workspace) -> bool {
    !ws.occupied(Slot::HalfLeft) && !ws.occupied(Slot::QuarterTL) && !ws.occupied(Slot::QuarterBL)
}

pub open spec fn right_free(ws: &Workspace) -> bool {
    !ws.occupied(Slot::HalfRight) && !ws.occupied(Slot::QuarterTR) && !ws.occupied(Slot::QuarterBR)
}

/// A quarter that is free and overlaps no occupied slot.
pub open spec fn quarter_open(ws: &Workspace, q: Slot) -> bool {
    !ws.occupied(q) && conflicting_seq(ws, q).len() == 0
}

/// Fullscreen adaptation cascade: None means Fullscreen promotion, Some(slot)
/// means the window is tiled into that slot instead.
pub open spec fn fullscreen_adaptation(ws: &Workspace, drag_target: Option<Slot>) -> Option<Slot> {
    if ws.occupied_seq().len() == 0 {
        None
    } else if left_free(ws) && !right_free(ws) {
        Some(Slot::HalfLeft)
    } else if right_free(ws) && !left_free(ws) {
        Some(Slot::HalfRight)
    } else if quarter_open(ws, Slot::QuarterTL) {
        Some(Slot::QuarterTL)
    } else if quarter_open(ws, Slot::QuarterTR) {
        Some(Slot::QuarterTR)
    } else if quarter_open(ws, Slot::QuarterBL) {
        Some(Slot::QuarterBL)
    } else if quarter_open(ws, Slot::QuarterBR) {
        Some(Slot::QuarterBR)
    } else {
        match drag_target {
            Some(s) => Some(s),
            None => Some(Slot::QuarterTL),
        }
    }
}

fn left_side_free(ws: &Workspace) -> (r: bool)
    requires
        ws.wf(),
    ensures
        r == left_free(ws),
{
    ws.slot_top(Slot::HalfLeft).is_none() && ws.slot_top(Slot::QuarterTL).is_none()
        && ws.slot_top(Slot::QuarterBL).is_none()
}

fn right_side_free(ws: &Workspace) -> (r: bool)
    requires
        ws.wf(),
    ensures
        r == right_free(ws),
{
    ws.slot_top(Slot::HalfRight).is_none() && ws.slot_top(Slot::QuarterTR).is_none()
        && ws.slot_top(Slot::QuarterBR).is_none()
}

/// The workspace has no tiled window exactly when it has no occupied slot.
pub proof fn lemma_no_occupied(ws: &Workspace)
    requires
        ws.wf(),
    ensures
        ws.occupied_seq().len() == 0 <==> ws.tiled_len() == 0,
{
    let p = |s: Slot| ws.occupied(s);
    lemma_slots_where(p);
    assert(ws.occupied_seq() == slots_where(p));
    if ws.tiled_len() != 0 {
        let s = if ws.slots@[0]@.len() > 0 { Slot::HalfLeft }
            else if ws.slots@[1]@.len() > 0 { Slot::HalfRight }
            else if ws.slots@[2]@.len() > 0 { Slot::QuarterTL }
            else if ws.slots@[3]@.len() > 0 { Slot::QuarterTR }
            else if ws.slots@[4]@.len() > 0 { Slot::QuarterBL }
            else { Slot::QuarterBR };
        assert(ws.occupied(s));
        assert(p(s));
        assert(slots_where(p).contains(s));
    } else {
        assert forall|s: Slot| !#[trigger] p(s) by {
            assert(0 <= s.idx() < 6);
        }
    }
}

/// Fullscreen adaptation cascade (steps 1 to 5).
pub fn adapt_fullscreen(ws: &Workspace, drag_target: Option<Slot>) -> (r: Option<Slot>)
    requires
        ws.wf(),
    ensures
        r == fullscreen_adaptation(ws, drag_target),
{
    // Step 1: no tiled occupants: Fullscreen promotion.
    if ws.occupied_slots().len() == 0 {
        return None;
    }
    // Step 2: left side fully free, right side holds a window.
    if left_side_free(ws) && !right_side_free(ws) {
        return Some(Slot::HalfLeft);
    }
    // Step 3: right side fully free, left side holds a window.
    if right_side_free(ws) && !left_side_free(ws) {
        return Some(Slot::HalfRight);
    }
    // Step 4: first free quarter in reading order.
    if ws.slot_top(Slot::QuarterTL).is_none() && conflicting_occupants(ws, Slot::QuarterTL).len() == 0 {
        return Some(Slot::QuarterTL);
    }
    if ws.slot_top(Slot::QuarterTR).is_none() && conflicting_occupants(ws, Slot::QuarterTR).len() == 0 {
        return Some(Slot::QuarterTR);
    }
    if ws.slot_top(Slot::QuarterBL).is_none() && conflicting_occupants(ws, Slot::QuarterBL).len() == 0 {
        return Some(Slot::QuarterBL);
    }
    if ws.slot_top(Slot::QuarterBR).is_none() && conflicting_occupants(ws, Slot::QuarterBR).len() == 0 {
        return Some(Slot::QuarterBR);
    }
    // Step 5: all quarters blocked: drag target or QuarterTL.
    match drag_target {
        Some(s) => Some(s),
        None => Some(Slot::QuarterTL),
    }
}

// ─── Two-pass resolution ─────────────────────────────────────────────────────

/// A window moved to Floating by a Swap.
#[derive(Debug, Clone, Copy, PartialEq, Eq, Structural)]
pub struct DisplacedWindow {
    pub id: WindowId,
    pub from_slot: Slot,
}

#[derive(Debug, Clone, Copy, PartialEq, Eq, Structural)]
pub enum Placement {
    /// Place in a tiled slot; `adapted` is true if the slot was adapted
    /// from the original request.
    Tiled { slot: Slot, adapted: bool },
    /// Place in the Fullscreen promotion stack.
    FullscreenPromotion,
    /// Place as Floating.
    Floating,
}

pub struct ResolveResult {
    pub placement: Placement,
    /// Windows moved to Floating because they were swapped out.
    pub displaced: Vec<DisplacedWindow>,
}

/// The top windows of the conflicting slots, as displacements.
pub open spec fn displaced_tops(ws: &Workspace, slots: Seq<Slot>) -> Seq<DisplacedWindow> {
    slots.map_values(|s: Slot| DisplacedWindow { id: ws.stack(s)[0], from_slot: s })
}

/// Conflict resolution for a concrete slot.
pub open spec fn resolve_slot_spec(ws: &Workspace, slot: Slot, adapted: bool, policy: ConflictPolicy)
    -> (Placement, Seq<DisplacedWindow>)
{
    let c = conflicting_seq(ws, slot);
    if c.len() == 0 {
        (Placement::Tiled { slot, adapted }, Seq::empty())
    } else {
        match policy {
            ConflictPolicy::Stack => (Placement::Tiled { slot, adapted }, Seq::empty()),
            ConflictPolicy::Swap => (Placement::Tiled { slot, adapted }, displaced_tops(ws, c)),
            ConflictPolicy::KickToFloating => (Placement::Floating, Seq::empty()),
        }
    }
}

/// Adaptation followed by conflict resolution.
#[verifier::opaque]
pub open spec fn resolve_spec(
    ws: &Workspace,
    incoming_state: WindowState,
    requested_slot: Option<Slot>,
    drag_target: Option<Slot>,
    policy: ConflictPolicy,
    slot_adaptation: bool,
    fullscreen_adaptation_on: bool,
) -> (Placement, Seq<DisplacedWindow>) {
    match incoming_state {
        WindowState::TotalFullscreen => (Placement::FullscreenPromotion, Seq::empty()),
        WindowState::Fullscreen => {
            if fullscreen_adaptation_on {
                match fullscreen_adaptation(ws, drag_target) {
                    None => (Placement::FullscreenPromotion, Seq::empty()),
                    Some(slot) => resolve_slot_spec(ws, slot, true, policy),
                }
            } else {
                (Placement::FullscreenPromotion, Seq::empty())
            }
        },
        WindowState::Floating => (Placement::Floating, Seq::empty()),
        WindowState::Tiled => match requested_slot {
            None => (Placement::Floating, Seq::empty()),
            Some(slot) => {
                if slot_adaptation && slot.spec_is_half() && half_to_quarter(ws, slot) is Some {
                    (Placement::Tiled { slot: half_to_quarter(ws, slot)->0, adapted: true }, Seq::empty())
                } else {
                    resolve_slot_spec(ws, slot, false, policy)
                }
            },
        },
    }
}

/// Full two-pass resolution: adaptation, then conflict resolution.
pub fn resolve(
    ws: &Workspace,
    incoming_state: WindowState,
    requested_slot: Option<Slot>,
    drag_target: Option<Slot>,
    policy: &ConflictPolicy,
    slot_adaptation: bool,
    fullscreen_adaptation: bool,
) -> (r: ResolveResult)
    requires
        ws.wf(),
    ensures
        (r.placement, r.displaced@) == resolve_spec(
            ws,
            incoming_state,
            requested_slot,
            drag_target,
            *policy,
            slot_adaptation,
            fullscreen_adaptation,
        ),
{
    reveal(resolve_spec);
    match incoming_state {
        WindowState::TotalFullscreen => ResolveResult {
            placement: Placement::FullscreenPromotion,
            displaced: Vec::new(),
        },
        WindowState::Fullscreen => {
            if fullscreen_adaptation {
                match adapt_fullscreen(ws, drag_target) {
                    None => ResolveResult {
                        placement: Placement::FullscreenPromotion,
                        displaced: Vec::new(),
                    },
                    Some(slot) => resolve_slot(ws, slot, true, policy),
                }
            } else {
                ResolveResult { placement: Placement::FullscreenPromotion, displaced: Vec::new() }
            }
        },
        WindowState::Floating => ResolveResult { placement: Placement::Floating, displaced: Vec::new() },
        WindowState::Tiled => {
            let slot = match requested_slot {
                Some(s) => s,
                None => {
                    return ResolveResult { placement: Placement::Floating, displaced: Vec::new() };
                },
            };
            // Pass 1: Half to Quarter adaptation.
            if slot_adaptation && slot.is_half() {
                if let Some(adapted) = adapt_half_to_quarter(ws, slot) {
                    return ResolveResult {
                        placement: Placement::Tiled { slot: adapted, adapted: true },
                        displaced: Vec::new(),
                    };
                }
            }
            // Pass 2: conflict resolution.
            resolve_slot(ws, slot, false, policy)
        },
    }
}

fn resolve_slot(ws: &Workspace, slot: Slot, adapted: bool, policy: &ConflictPolicy) -> (r: ResolveResult)
    requires
        ws.wf(),
    ensures
        (r.placement, r.displaced@) == resolve_slot_spec(ws, slot, adapted, *policy),
{
    let found = conflicting_occupants(ws, slot);
    if found.len() == 0 {
        return ResolveResult { placement: Placement::Tiled { slot, adapted }, displaced: Vec::new() };
    }
    match policy {
        ConflictPolicy::Stack => ResolveResult {
            // The incoming window joins the top of the existing stack.
            placement: Placement::Tiled { slot, adapted },
            displaced: Vec::new(),
        },
        ConflictPolicy::Swap => {
            let ghost p = |s: Slot| ws.occupied(s) && conflicts(s, slot);
            proof {
                lemma_slots_where(p);
            }
            let mut displaced: Vec<DisplacedWindow> = Vec::new();
            let mut i: usize = 0;
            while i < found.len()
                invariant
                    ws.wf(),
                    i <= found@.len(),
                    found@ == slots_where(p),
                    forall|k: int| 0 <= k < found@.len() ==> ws.occupied(#[trigger] found@[k]),
                    displaced@ == displaced_tops(ws, found@.take(i as int)),
                decreases found.len() - i,
            {
                let s = found[i];
                if let Some(id) = ws.slot_top(s) {
                    displaced.push(DisplacedWindow { id, from_slot: s });
                }
                assert(displaced@ =~= displaced_tops(ws, found@.take(i as int + 1)));
                i += 1;
            }
            assert(found@.take(found@.len() as int) =~= found@);
            ResolveResult { placement: Placement::Tiled { slot, adapted }, displaced }
        },
        ConflictPolicy::KickToFloating => ResolveResult { placement: Placement::Floating, displaced: Vec::new() },
    }
}

} // verus!
