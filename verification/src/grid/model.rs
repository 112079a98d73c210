//! The lists of a cell as plain sequences, and the list edits that window
//! moves are made of.
use vstd::prelude::*;

use super::conflict::{DisplacedWindow, Placement};
use super::placement::DemoteAction;
use super::window::{all_slots, lemma_idx_slot, Slot, WindowId, WindowState};
use super::workspace::Workspace;
use super::Window;
use crate::seqs::{remove_id, retain_not};

verus! {

/// The lists of one cell: six slot stacks (by slot index), the floating
/// layer, the two promotion stacks and the focus history.
#[verifier::ext_equal]
pub struct CellModel {
    pub stacks: Seq<Seq<WindowId>>,
    pub floating: Seq<WindowId>,
    pub fullscreen: Seq<WindowId>,
    pub total: Seq<WindowId>,
    pub history: Seq<WindowId>,
}

impl Workspace {
    pub open spec fn model(&self) -> CellModel {
        CellModel {
            stacks: Seq::new(6, |i: int| self.slots@[i]@),
            floating: self.floating@,
            fullscreen: self.fullscreen_stack@,
            total: self.total_fullscreen_stack@,
            history: self.focus_history@,
        }
    }
}

/// `id` on top of the stack of `slot`.
pub open spec fn push_top(m: CellModel, slot: Slot, id: WindowId) -> CellModel {
    CellModel { stacks: m.stacks.update(slot.idx(), seq![id] + m.stacks[slot.idx()]), ..m }
}

/// `id` taken off every list but the focus history.
pub open spec fn detach_model(m: CellModel, id: WindowId) -> CellModel {
    CellModel {
        stacks: Seq::new(6, |i: int| remove_id(m.stacks[i], id)),
        floating: remove_id(m.floating, id),
        fullscreen: remove_id(m.fullscreen, id),
        total: remove_id(m.total, id),
        history: m.history,
    }
}

/// `id` taken off every list, the focus history included.
pub open spec fn remove_model(m: CellModel, id: WindowId) -> CellModel {
    CellModel { history: remove_id(m.history, id), ..detach_model(m, id) }
}

/// A demotion: the window leaves both promotion stacks for the top of its
/// target slot.
pub open spec fn demote_one(m: CellModel, a: DemoteAction) -> CellModel {
    push_top(
        CellModel { fullscreen: remove_id(m.fullscreen, a.window_id), total: remove_id(m.total, a.window_id), ..m },
        a.to_slot,
        a.window_id,
    )
}

/// The demotions applied in order.
pub open spec fn demote_model(m: CellModel, d: Seq<DemoteAction>) -> CellModel
    decreases d.len(),
{
    if d.len() == 0 {
        m
    } else {
        demote_one(demote_model(m, d.drop_last()), d.last())
    }
}

/// A swapped-out window leaves its slot's stack for the top of the floating layer.
pub open spec fn swap_one(m: CellModel, a: DisplacedWindow) -> CellModel {
    CellModel {
        stacks: m.stacks.update(a.from_slot.idx(), remove_id(m.stacks[a.from_slot.idx()], a.id)),
        floating: m.floating.push(a.id),
        ..m
    }
}

/// The displacements applied in order.
pub open spec fn swap_model(m: CellModel, d: Seq<DisplacedWindow>) -> CellModel
    decreases d.len(),
{
    if d.len() == 0 {
        m
    } else {
        swap_one(swap_model(m, d.drop_last()), d.last())
    }
}

/// `id` put where `state` keeps it: on top of `slot`'s stack when Tiled
/// (nowhere if no slot), on top of a promotion stack, or at the top of the
/// floating layer.
pub open spec fn place_model(m: CellModel, state: WindowState, slot: Option<Slot>, id: WindowId) -> CellModel {
    match state {
        WindowState::Tiled => match slot {
            Some(s) => push_top(m, s, id),
            None => m,
        },
        WindowState::Fullscreen => CellModel { fullscreen: seq![id] + m.fullscreen, ..m },
        WindowState::TotalFullscreen => CellModel { total: seq![id] + m.total, ..m },
        WindowState::Floating => CellModel { floating: m.floating.push(id), ..m },
    }
}

/// `id` moved to the front of the focus history.
pub open spec fn record_model(m: CellModel, id: WindowId) -> CellModel {
    CellModel { history: seq![id] + remove_id(m.history, id), ..m }
}

/// The state and slot a resolved placement gives.
pub open spec fn placed_as(p: Placement) -> (WindowState, Option<Slot>) {
    match p {
        Placement::Tiled { slot, .. } => (WindowState::Tiled, Some(slot)),
        Placement::FullscreenPromotion => (WindowState::Fullscreen, None),
        Placement::Floating => (WindowState::Floating, None),
    }
}

/// Window `id` given a new current state and slot.
pub open spec fn restate(ws: Seq<Window>, id: WindowId, state: WindowState, slot: Option<Slot>) -> Seq<Window> {
    ws.map_values(|w: Window| if w.id == id { Window { current_state: state, current_slot: slot, ..w } } else { w })
}

/// The demoted windows given their new state and slot.
pub open spec fn restate_demoted(ws: Seq<Window>, d: Seq<DemoteAction>) -> Seq<Window>
    decreases d.len(),
{
    if d.len() == 0 {
        ws
    } else {
        restate(restate_demoted(ws, d.drop_last()), d.last().window_id, d.last().new_state, Some(d.last().to_slot))
    }
}

/// The swapped-out windows made Floating with no slot.
pub open spec fn restate_swapped(ws: Seq<Window>, d: Seq<DisplacedWindow>) -> Seq<Window>
    decreases d.len(),
{
    if d.len() == 0 {
        ws
    } else {
        restate(restate_swapped(ws, d.drop_last()), d.last().id, WindowState::Floating, None)
    }
}

/// Number of tiled windows of a cell model.
pub open spec fn model_tiled(m: CellModel) -> int {
    (m.stacks[0].len() + m.stacks[1].len() + m.stacks[2].len() + m.stacks[3].len() + m.stacks[4].len()
        + m.stacks[5].len()) as int
}

/// The slot a window is checked against for auto-restore: its own, or HalfLeft.
pub open spec fn slot_or_half_left(w: Window) -> Slot {
    match w.current_slot {
        Some(s) => s,
        None => Slot::HalfLeft,
    }
}

/// A window of cell `coords` that asked for Fullscreen but was adapted to Tiled.
pub open spec fn restore_candidate(w: Window, coords: (u8, u8)) -> bool {
    w.workspace == coords && w.requested_state == WindowState::Fullscreen && w.current_state == WindowState::Tiled
}

/// The window is the only tiled window left: one tiled window in the cell,
/// and nothing but it in its slot's stack.
pub open spec fn can_restore(m: CellModel, w: Window) -> bool {
    let st = m.stacks[slot_or_half_left(w).idx()];
    model_tiled(m) == 1 && forall|k: int| 0 <= k < st.len() ==> st[k] == w.id
}

/// The window leaves its slot's stack (if it has a slot) for the top of the
/// fullscreen stack.
pub open spec fn restore_one(m: CellModel, slot: Option<Slot>, id: WindowId) -> CellModel {
    CellModel {
        stacks: match slot {
            Some(s) => m.stacks.update(s.idx(), remove_id(m.stacks[s.idx()], id)),
            None => m.stacks,
        },
        fullscreen: seq![id] + m.fullscreen,
        ..m
    }
}

/// Auto-restore over the first `k` windows of the list, in order: each
/// candidate that is then the only tiled window goes back to Fullscreen.
/// Gives the cell model, the window list and the restored ids.
pub open spec fn restore_upto(m: CellModel, ws: Seq<Window>, coords: (u8, u8), k: int) -> (CellModel, Seq<Window>, Seq<WindowId>)
    decreases k,
{
    if k <= 0 {
        (m, ws, Seq::empty())
    } else {
        let (m1, w1, q1) = restore_upto(m, ws, coords, k - 1);
        let w = w1[k - 1];
        if restore_candidate(w, coords) && can_restore(m1, w) {
            (
                restore_one(m1, w.current_slot, w.id),
                w1.update(k - 1, Window { current_state: WindowState::Fullscreen, current_slot: None, ..w }),
                q1.push(w.id),
            )
        } else {
            (m1, w1, q1)
        }
    }
}

/// Auto-restore keeps the length of the list and every id and workspace.
pub proof fn lemma_restore_keys(m: CellModel, ws: Seq<Window>, coords: (u8, u8), k: int)
    requires
        k <= ws.len(),
    ensures
        restore_upto(m, ws, coords, k).1.len() == ws.len(),
        forall|j: int| 0 <= j < ws.len() ==> #[trigger] restore_upto(m, ws, coords, k).1[j].id == ws[j].id
            && restore_upto(m, ws, coords, k).1[j].workspace == ws[j].workspace,
    decreases k,
{
    if k > 0 {
        lemma_restore_keys(m, ws, coords, k - 1);
        let (m1, w1, q1) = restore_upto(m, ws, coords, k - 1);
        assert(w1.len() == ws.len());
    }
}

/// Restating windows keeps the length of the list and every id and workspace.
pub proof fn lemma_restate_demoted_keys(ws: Seq<Window>, d: Seq<DemoteAction>)
    ensures
        restate_demoted(ws, d).len() == ws.len(),
        forall|k: int| 0 <= k < ws.len() ==> #[trigger] restate_demoted(ws, d)[k].id == ws[k].id
            && restate_demoted(ws, d)[k].workspace == ws[k].workspace,
    decreases d.len(),
{
    if d.len() > 0 {
        lemma_restate_demoted_keys(ws, d.drop_last());
    }
}

/// Restating windows keeps the length of the list and every id and workspace.
pub proof fn lemma_restate_swapped_keys(ws: Seq<Window>, d: Seq<DisplacedWindow>)
    ensures
        restate_swapped(ws, d).len() == ws.len(),
        forall|k: int| 0 <= k < ws.len() ==> #[trigger] restate_swapped(ws, d)[k].id == ws[k].id
            && restate_swapped(ws, d)[k].workspace == ws[k].workspace,
    decreases d.len(),
{
    if d.len() > 0 {
        lemma_restate_swapped_keys(ws, d.drop_last());
    }
}

impl Workspace {
    /// A well-formed cell's stack of `slot` is the model's.
    pub proof fn lemma_model_stack(&self, slot: Slot)
        requires
            self.wf(),
        ensures
            self.model().stacks.len() == 6,
            self.model().stacks[slot.idx()] == self.stack(slot),
    {
    }

    /// Demote `a.window_id`: off both promotion stacks, onto the top of `a.to_slot`.
    pub fn apply_demotion(&mut self, a: DemoteAction)
        requires
            old(self).wf(),
        ensures
            final(self).wf(),
            final(self).model() == demote_one(old(self).model(), a),
            final(self).col == old(self).col && final(self).row == old(self).row && final(self).name == old(self).name,
    {
        retain_not(&mut self.fullscreen_stack, a.window_id);
        retain_not(&mut self.total_fullscreen_stack, a.window_id);
        let ghost mid = self.model();
        self.push_to_slot_top(a.to_slot, a.window_id);
        proof {
            let m = final(self).model();
            let e = demote_one(old(self).model(), a);
            assert forall|i: int| 0 <= i < 6 implies #[trigger] m.stacks[i] == e.stacks[i] by {
                let s = all_slots()[i];
                lemma_idx_slot(i);
                if s != a.to_slot {
                    assert(self.stack(s) == mid.stacks[i]);
                }
            }
            assert(m.stacks =~= e.stacks);
            assert(m =~= e);
        }
    }

    /// Swap `a.id` out of `a.from_slot` onto the top of the floating layer.
    pub fn apply_swap(&mut self, a: DisplacedWindow)
        requires
            old(self).wf(),
        ensures
            final(self).wf(),
            final(self).model() == swap_one(old(self).model(), a),
            final(self).col == old(self).col && final(self).row == old(self).row && final(self).name == old(self).name,
    {
        let i = a.from_slot.index();
        retain_not(&mut self.slots[i], a.id);
        self.floating.push(a.id);
        proof {
            let m = final(self).model();
            let e = swap_one(old(self).model(), a);
            assert(m.stacks =~= e.stacks);
            assert(m =~= e);
        }
    }

    /// Put `id` where `state` keeps it (see `place_model`).
    pub fn place(&mut self, state: WindowState, slot: Option<Slot>, id: WindowId)
        requires
            old(self).wf(),
        ensures
            final(self).wf(),
            final(self).model() == place_model(old(self).model(), state, slot, id),
            final(self).col == old(self).col && final(self).row == old(self).row && final(self).name == old(self).name,
    {
        match state {
            WindowState::Tiled => {
                if let Some(s) = slot {
                    self.push_to_slot_top(s, id);
                    proof {
                        let m = final(self).model();
                        let e = place_model(old(self).model(), state, slot, id);
                        assert forall|i: int| 0 <= i < 6 implies #[trigger] m.stacks[i] == e.stacks[i] by {
                            let t = all_slots()[i];
                            lemma_idx_slot(i);
                            if t != s {
                                assert(self.stack(t) == old(self).stack(t));
                            }
                        }
                        assert(m.stacks =~= e.stacks);
                        assert(m =~= e);
                    }
                } else {
                    assert(self.model() =~= place_model(old(self).model(), state, slot, id));
                }
            },
            _ => {
                if state == WindowState::Floating {
                    self.add_floating(id);
                } else {
                    self.push_to_promotion_top(state, id);
                }
                proof {
                    let m = final(self).model();
                    let e = place_model(old(self).model(), state, slot, id);
                    assert(m.stacks =~= e.stacks);
                    assert(m =~= e);
                }
            },
        }
    }

    /// Move `id` to the front of the focus history.
    pub fn record(&mut self, id: WindowId)
        requires
            old(self).wf(),
        ensures
            final(self).wf(),
            final(self).model() == record_model(old(self).model(), id),
            final(self).col == old(self).col && final(self).row == old(self).row && final(self).name == old(self).name,
    {
        self.record_focus(id);
        proof {
            let m = final(self).model();
            let e = record_model(old(self).model(), id);
            assert(m.stacks =~= e.stacks);
            assert(m =~= e);
        }
    }

    /// Whether every window of `slot`'s stack is `id`.
    pub fn stack_only(&self, slot: Slot, id: WindowId) -> (b: bool)
        requires
            self.wf(),
        ensures
            b == forall|k: int| 0 <= k < self.stack(slot).len() ==> self.stack(slot)[k] == id,
    {
        let st = &self.slots[slot.index()];
        assert(st@ == self.stack(slot));
        let mut i: usize = 0;
        while i < st.len()
            invariant
                i <= st@.len(),
                st@ == self.stack(slot),
                forall|k: int| 0 <= k < i ==> st@[k] == id,
            decreases st.len() - i,
        {
            if st[i] != id {
                assert(self.stack(slot)[i as int] != id);
                return false;
            }
            i += 1;
        }
        true
    }

    /// Move `id` off `slot`'s stack (if any) onto the top of the fullscreen stack.
    pub fn restore_fullscreen(&mut self, slot: Option<Slot>, id: WindowId)
        requires
            old(self).wf(),
        ensures
            final(self).wf(),
            final(self).model() == restore_one(old(self).model(), slot, id),
            final(self).col == old(self).col && final(self).row == old(self).row && final(self).name == old(self).name,
    {
        if let Some(s) = slot {
            let i = s.index();
            retain_not(&mut self.slots[i], id);
        }
        self.fullscreen_stack.insert(0, id);
        proof {
            let m = final(self).model();
            let e = restore_one(old(self).model(), slot, id);
            assert(m.stacks =~= e.stacks);
            assert(m.fullscreen =~= e.fullscreen);
            assert(m =~= e);
        }
    }

    /// Take `id` off every list but the focus history.
    pub fn detach_all(&mut self, id: WindowId)
        requires
            old(self).wf(),
        ensures
            final(self).wf(),
            final(self).model() == detach_model(old(self).model(), id),
            final(self).col == old(self).col && final(self).row == old(self).row && final(self).name == old(self).name,
    {
        self.detach(id);
        proof {
            let m = final(self).model();
            let e = detach_model(old(self).model(), id);
            assert forall|i: int| 0 <= i < 6 implies #[trigger] m.stacks[i] == e.stacks[i] by {
                let t = all_slots()[i];
                lemma_idx_slot(i);
                assert(self.stack(t) == remove_id(old(self).stack(t), id));
            }
            assert(m.stacks =~= e.stacks);
            assert(m =~= e);
        }
    }

    /// Take `id` off every list, the focus history included.
    pub fn remove_all(&mut self, id: WindowId)
        requires
            old(self).wf(),
        ensures
            final(self).wf(),
            final(self).model() == remove_model(old(self).model(), id),
            final(self).col == old(self).col && final(self).row == old(self).row && final(self).name == old(self).name,
    {
        self.remove_window(id);
        proof {
            let m = final(self).model();
            let e = remove_model(old(self).model(), id);
            assert forall|i: int| 0 <= i < 6 implies #[trigger] m.stacks[i] == e.stacks[i] by {
                let t = all_slots()[i];
                lemma_idx_slot(i);
                assert(self.stack(t) == remove_id(old(self).stack(t), id));
            }
            assert(m.stacks =~= e.stacks);
            assert(m =~= e);
        }
    }
}

} // verus!
