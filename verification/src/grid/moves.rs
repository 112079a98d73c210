//! Adding, removing and moving windows.
use vstd::prelude::*;

use super::conflict::{resolve, resolve_spec, DisplacedWindow, Placement};
use super::focus::{focus_after_close, focus_after_close_spec};
use super::model::{restore_upto, restore_one, can_restore, restore_candidate, slot_or_half_left, model_tiled, lemma_restore_keys, lemma_restate_demoted_keys, lemma_restate_swapped_keys, demote_one, demote_model, detach_model, place_model, placed_as, record_model, remove_model, restate, restate_demoted, restate_swapped, swap_model, swap_one};
use super::placement::{place_new_window, placement_spec, DemoteAction, InitialPlacement};
use super::window::{Rect, Slot, WindowId, WindowState};
use super::workspace::Workspace;
use super::{special, AddWindowResult, Grid, MoveDirectionResult, PlacementHints, Window};
use super::focus::FocusDirection;

verus! {

/// `w` with `is_swallowed` set when `swallows` names it.
pub open spec fn mark_swallowed(w: Window, swallows: Option<WindowId>) -> Window {
    if swallows == Some(w.id) {
        Window { is_swallowed: true, ..w }
    } else {
        w
    }
}

/// Floating geometry of a new window without a rule: 800x600 (at most the
/// output size), centered on the output.
pub open spec fn default_float_geom(ow: i32, oh: i32) -> Rect {
    let fw: int = if 800 < ow { 800 } else { ow as int };
    let fh: int = if 600 < oh { 600 } else { oh as int };
    Rect { x: ((ow - fw) / 2) as i32, y: ((oh - fh) / 2) as i32, w: fw as i32, h: fh as i32 }
}

/// The placement asked for a new window: the policy's, overridden by the
/// rule hints' state and slot.
pub open spec fn requested_placement(ws: &Workspace, hints: PlacementHints) -> InitialPlacement {
    let p = placement_spec(ws).0;
    InitialPlacement {
        state: match hints.state {
            Some(s) => s,
            None => p.state,
        },
        slot: if hints.slot is Some {
            hints.slot
        } else {
            p.slot
        },
    }
}

/// The (requested, actual) slot pair reported when a half adapted into a quarter.
pub open spec fn slot_adaptation_of(init: InitialPlacement, p: Placement) -> Option<(Slot, Slot)> {
    match p {
        Placement::Tiled { slot, adapted } => if adapted && init.state == WindowState::Tiled {
            match init.slot {
                Some(req) => if req != slot {
                    Some((req, slot))
                } else {
                    None
                },
                None => None,
            }
        } else {
            None
        },
        _ => None,
    }
}

/// The (requested, actual, slot) triple reported when Fullscreen adapted to Tiled.
pub open spec fn state_adaptation_of(init: InitialPlacement, p: Placement) -> Option<(WindowState, WindowState, Option<Slot>)> {
    match p {
        Placement::Tiled { slot, adapted } => if adapted && init.state != WindowState::Tiled {
            Some((init.state, WindowState::Tiled, Some(slot)))
        } else {
            None
        },
        _ => None,
    }
}

impl Grid {
    /// Only cell (c, r) changed, keeping its coordinates and name; the rest
    /// of the grid is as in `old`.
    pub open spec fn cell_changed(&self, old: &Grid, c: int, r: int) -> bool {
        &&& self.cells_same_except(old, c, r)
        &&& self.ws_at(c, r).col == old.ws_at(c, r).col
        &&& self.ws_at(c, r).row == old.ws_at(c, r).row
        &&& self.ws_at(c, r).name == old.ws_at(c, r).name
        &&& self.windows@ == old.windows@
        &&& self.focused == old.focused
        &&& self.focused_window == old.focused_window
        &&& self.history@ == old.history@
        &&& self.forward_history@ == old.forward_history@
        &&& self.pending_configures@ == old.pending_configures@
        &&& self.settings_same(old)
    }

    /// Only the window list changed, keeping ids and workspaces.
    pub open spec fn windows_changed(&self, old: &Grid) -> bool {
        &&& self.workspaces@ == old.workspaces@
        &&& self.focused == old.focused
        &&& self.focused_window == old.focused_window
        &&& self.history@ == old.history@
        &&& self.forward_history@ == old.forward_history@
        &&& self.pending_configures@ == old.pending_configures@
        &&& self.settings_same(old)
    }

    /// Two cell changes on the same cell make one.
    pub proof fn lemma_cell_changed_trans(a: &Grid, b: &Grid, d: &Grid, c: int, r: int)
        requires
            b.cell_changed(a, c, r),
            d.cell_changed(b, c, r),
        ensures
            d.cell_changed(a, c, r),
    {
        assert forall|c2: int, r2: int| d.allocated(c2, r2) && !(c2 == c && r2 == r)
            implies #[trigger] d.ws_at(c2, r2) == a.ws_at(c2, r2) by {
            assert(b.workspaces@[r2]@.len() == d.workspaces@[r2]@.len());
            assert(d.ws_at(c2, r2) == b.ws_at(c2, r2));
        }
        assert forall|r2: int| 0 <= r2 < d.workspaces@.len()
            implies #[trigger] d.workspaces@[r2]@.len() == a.workspaces@[r2]@.len() by {
            assert(d.workspaces@[r2]@.len() == b.workspaces@[r2]@.len());
        }
    }

    /// A cell change then a window-list change: the cells are as after the
    /// cell change.
    pub proof fn lemma_cells_then_windows(a: &Grid, b: &Grid, d: &Grid, c: int, r: int)
        requires
            b.cells_same_except(a, c, r),
            d.workspaces@ == b.workspaces@,
        ensures
            d.cells_same_except(a, c, r),
            d.ws_at(c, r) == b.ws_at(c, r),
    {
        Grid::lemma_cells_chain(a, b, d, c, r);
    }

    /// A cell change after a change that kept the cells is a cell change of the start.
    pub proof fn lemma_cells_pre(a: &Grid, b: &Grid, d: &Grid, c: int, r: int)
        requires
            b.workspaces@ == a.workspaces@,
            d.cells_same_except(b, c, r),
        ensures
            d.cells_same_except(a, c, r),
            d.ws_at(c, r) == d.ws_at(c, r),
    {
        assert forall|c2: int, r2: int| d.allocated(c2, r2) && !(c2 == c && r2 == r)
            implies #[trigger] d.ws_at(c2, r2) == a.ws_at(c2, r2) by {
            assert(d.ws_at(c2, r2) == b.ws_at(c2, r2));
        }
    }

    pub(crate) fn cell_demote(&mut self, c: u8, r: u8, a: DemoteAction)
        requires
            old(self).wf(),
            old(self).allocated(c as int, r as int),
        ensures
            final(self).wf(),
            final(self).cell_changed(old(self), c as int, r as int),
            final(self).ws_at(c as int, r as int).model() == demote_one(old(self).ws_at(c as int, r as int).model(), a),
    {
        proof {
            assert(old(self).ws_at(c as int, r as int).wf());
        }
        self.cell_mut(c, r).apply_demotion(a);
        proof {
            Grid::lemma_cells_after_change(old(self), self, c as int, r as int);
            assert(self.win_keys() =~= old(self).win_keys());
            Grid::lemma_wf_transfer(old(self), self);
        }
    }

    pub(crate) fn cell_swap(&mut self, c: u8, r: u8, a: DisplacedWindow)
        requires
            old(self).wf(),
            old(self).allocated(c as int, r as int),
        ensures
            final(self).wf(),
            final(self).cell_changed(old(self), c as int, r as int),
            final(self).ws_at(c as int, r as int).model() == swap_one(old(self).ws_at(c as int, r as int).model(), a),
    {
        proof {
            assert(old(self).ws_at(c as int, r as int).wf());
        }
        self.cell_mut(c, r).apply_swap(a);
        proof {
            Grid::lemma_cells_after_change(old(self), self, c as int, r as int);
            assert(self.win_keys() =~= old(self).win_keys());
            Grid::lemma_wf_transfer(old(self), self);
        }
    }

    pub(crate) fn cell_place(&mut self, c: u8, r: u8, state: WindowState, slot: Option<Slot>, id: WindowId)
        requires
            old(self).wf(),
            old(self).allocated(c as int, r as int),
        ensures
            final(self).wf(),
            final(self).cell_changed(old(self), c as int, r as int),
            final(self).ws_at(c as int, r as int).model() == place_model(old(self).ws_at(c as int, r as int).model(), state, slot, id),
    {
        proof {
            assert(old(self).ws_at(c as int, r as int).wf());
        }
        self.cell_mut(c, r).place(state, slot, id);
        proof {
            Grid::lemma_cells_after_change(old(self), self, c as int, r as int);
            assert(self.win_keys() =~= old(self).win_keys());
            Grid::lemma_wf_transfer(old(self), self);
        }
    }

    pub(crate) fn cell_record(&mut self, c: u8, r: u8, id: WindowId)
        requires
            old(self).wf(),
            old(self).allocated(c as int, r as int),
        ensures
            final(self).wf(),
            final(self).cell_changed(old(self), c as int, r as int),
            final(self).ws_at(c as int, r as int).model() == record_model(old(self).ws_at(c as int, r as int).model(), id),
    {
        proof {
            assert(old(self).ws_at(c as int, r as int).wf());
        }
        self.cell_mut(c, r).record(id);
        proof {
            Grid::lemma_cells_after_change(old(self), self, c as int, r as int);
            assert(self.win_keys() =~= old(self).win_keys());
            Grid::lemma_wf_transfer(old(self), self);
        }
    }

    pub(crate) fn cell_detach(&mut self, c: u8, r: u8, id: WindowId)
        requires
            old(self).wf(),
            old(self).allocated(c as int, r as int),
        ensures
            final(self).wf(),
            final(self).cell_changed(old(self), c as int, r as int),
            final(self).ws_at(c as int, r as int).model() == detach_model(old(self).ws_at(c as int, r as int).model(), id),
    {
        proof {
            assert(old(self).ws_at(c as int, r as int).wf());
        }
        self.cell_mut(c, r).detach_all(id);
        proof {
            Grid::lemma_cells_after_change(old(self), self, c as int, r as int);
            assert(self.win_keys() =~= old(self).win_keys());
            Grid::lemma_wf_transfer(old(self), self);
        }
    }

    pub(crate) fn cell_remove(&mut self, c: u8, r: u8, id: WindowId)
        requires
            old(self).wf(),
            old(self).allocated(c as int, r as int),
        ensures
            final(self).wf(),
            final(self).cell_changed(old(self), c as int, r as int),
            final(self).ws_at(c as int, r as int).model() == remove_model(old(self).ws_at(c as int, r as int).model(), id),
    {
        proof {
            assert(old(self).ws_at(c as int, r as int).wf());
        }
        self.cell_mut(c, r).remove_all(id);
        proof {
            Grid::lemma_cells_after_change(old(self), self, c as int, r as int);
            assert(self.win_keys() =~= old(self).win_keys());
            Grid::lemma_wf_transfer(old(self), self);
        }
    }

    /// Give window `id` a new current state and slot, if it is registered.
    pub(crate) fn restate_window(&mut self, id: WindowId, state: WindowState, slot: Option<Slot>)
        requires
            old(self).wf(),
        ensures
            final(self).wf(),
            final(self).windows_changed(old(self)),
            final(self).windows@ == restate(old(self).windows@, id, state, slot),
    {
        match self.find_window(id) {
            Some(i) => {
                let w = self.window_mut(i);
                w.current_state = state;
                w.current_slot = slot;
                proof {
                    assert forall|k: int| 0 <= k < self.windows@.len() && k != i implies old(self).windows@[k].id != id by {
                        if k < i {
                            assert(old(self).windows@[k].id < old(self).windows@[i as int].id);
                        } else {
                            assert(old(self).windows@[i as int].id < old(self).windows@[k].id);
                        }
                    }
                    assert(self.windows@ =~= restate(old(self).windows@, id, state, slot));
                    assert(self.win_keys() =~= old(self).win_keys());
                    Grid::lemma_wf_windows_only(old(self), self);
                }
            },
            None => {
                assert(restate(old(self).windows@, id, state, slot) =~= old(self).windows@);
            },
        }
    }

    /// Set `is_swallowed` on window `id`, if it is registered.
    pub(crate) fn set_swallowed(&mut self, id: WindowId, on: bool)
        requires
            old(self).wf(),
        ensures
            final(self).wf(),
            final(self).windows_changed(old(self)),
            final(self).windows@ == old(self).windows@.map_values(
                |w: Window| if w.id == id { Window { is_swallowed: on, ..w } } else { w },
            ),
    {
        match self.find_window(id) {
            Some(i) => {
                let w = self.window_mut(i);
                w.is_swallowed = on;
                proof {
                    assert forall|k: int| 0 <= k < self.windows@.len() && k != i implies old(self).windows@[k].id != id by {
                        if k < i {
                            assert(old(self).windows@[k].id < old(self).windows@[i as int].id);
                        } else {
                            assert(old(self).windows@[i as int].id < old(self).windows@[k].id);
                        }
                    }
                    assert(self.windows@ =~= old(self).windows@.map_values(
                        |w: Window| if w.id == id { Window { is_swallowed: on, ..w } } else { w },
                    ));
                    assert(self.win_keys() =~= old(self).win_keys());
                    Grid::lemma_wf_windows_only(old(self), self);
                }
            },
            None => {
                assert(old(self).windows@.map_values(
                    |w: Window| if w.id == id { Window { is_swallowed: on, ..w } } else { w },
                ) =~= old(self).windows@);
            },
        }
    }
}


impl Grid {
    /// Only cell (c, r), keeping its coordinates and name, and the window
    /// list may differ from `old`.
    pub open spec fn cell_windows_changed(&self, old: &Grid, c: int, r: int) -> bool {
        &&& self.cells_same_except(old, c, r)
        &&& self.ws_at(c, r).col == old.ws_at(c, r).col
        &&& self.ws_at(c, r).row == old.ws_at(c, r).row
        &&& self.ws_at(c, r).name == old.ws_at(c, r).name
        &&& self.focused == old.focused
        &&& self.focused_window == old.focused_window
        &&& self.history@ == old.history@
        &&& self.forward_history@ == old.forward_history@
        &&& self.pending_configures@ == old.pending_configures@
        &&& self.settings_same(old)
    }

    pub proof fn lemma_cwc_trans(a: &Grid, b: &Grid, d: &Grid, c: int, r: int)
        requires
            b.cell_windows_changed(a, c, r),
            d.cell_windows_changed(b, c, r),
        ensures
            d.cell_windows_changed(a, c, r),
    {
        assert forall|c2: int, r2: int| d.allocated(c2, r2) && !(c2 == c && r2 == r)
            implies #[trigger] d.ws_at(c2, r2) == a.ws_at(c2, r2) by {
            assert(b.workspaces@[r2]@.len() == d.workspaces@[r2]@.len());
            assert(d.ws_at(c2, r2) == b.ws_at(c2, r2));
        }
        assert forall|r2: int| 0 <= r2 < d.workspaces@.len()
            implies #[trigger] d.workspaces@[r2]@.len() == a.workspaces@[r2]@.len() by {
            assert(d.workspaces@[r2]@.len() == b.workspaces@[r2]@.len());
        }
    }

    /// A window-list change is a change of any cell's kind.
    pub proof fn lemma_windows_is_cwc(a: &Grid, b: &Grid, c: int, r: int)
        requires
            b.windows_changed(a),
        ensures
            b.cell_windows_changed(a, c, r),
    {
    }

    /// Apply the demotions on cell (c, r), to its lists and to the demoted
    /// windows; the demoted ids, in order.
    pub(crate) fn demote_all(&mut self, c: u8, r: u8, d: &Vec<DemoteAction>) -> (ids: Vec<WindowId>)
        requires
            old(self).wf(),
            old(self).allocated(c as int, r as int),
        ensures
            final(self).wf(),
            final(self).cell_windows_changed(old(self), c as int, r as int),
            final(self).ws_at(c as int, r as int).model() == demote_model(old(self).ws_at(c as int, r as int).model(), d@),
            final(self).windows@ == restate_demoted(old(self).windows@, d@),
            ids@ == d@.map_values(|a: DemoteAction| a.window_id),
    {
        let mut ids: Vec<WindowId> = Vec::new();
        let mut k: usize = 0;
        while k < d.len()
            invariant
                self.wf(),
                old(self).wf(),
                self.allocated(c as int, r as int),
                k <= d@.len(),
                self.cell_windows_changed(old(self), c as int, r as int),
                self.ws_at(c as int, r as int).model() == demote_model(old(self).ws_at(c as int, r as int).model(), d@.take(k as int)),
                self.windows@ == restate_demoted(old(self).windows@, d@.take(k as int)),
                ids@ == d@.take(k as int).map_values(|a: DemoteAction| a.window_id),
            decreases d.len() - k,
        {
            let a = d[k];
            let ghost g0 = *self;
            self.cell_demote(c, r, a);
            let ghost g1 = *self;
            self.restate_window(a.window_id, a.new_state, Some(a.to_slot));
            ids.push(a.window_id);
            proof {
                Grid::lemma_windows_is_cwc(&g1, self, c as int, r as int);
                Grid::lemma_cwc_trans(&g0, &g1, self, c as int, r as int);
                Grid::lemma_cwc_trans(old(self), &g0, self, c as int, r as int);
                assert(d@.take(k as int + 1).drop_last() =~= d@.take(k as int));
                assert(ids@ =~= d@.take(k as int + 1).map_values(|a: DemoteAction| a.window_id));
            }
            k += 1;
        }
        proof {
            assert(d@.take(d@.len() as int) =~= d@);
        }
        ids
    }

    /// Swap the displaced windows out of their slots on cell (c, r) onto the
    /// floating layer, making them Floating; their ids, in order.
    pub(crate) fn swap_out_all(&mut self, c: u8, r: u8, d: &Vec<DisplacedWindow>) -> (ids: Vec<WindowId>)
        requires
            old(self).wf(),
            old(self).allocated(c as int, r as int),
        ensures
            final(self).wf(),
            final(self).cell_windows_changed(old(self), c as int, r as int),
            final(self).ws_at(c as int, r as int).model() == swap_model(old(self).ws_at(c as int, r as int).model(), d@),
            final(self).windows@ == restate_swapped(old(self).windows@, d@),
            ids@ == d@.map_values(|a: DisplacedWindow| a.id),
    {
        let mut ids: Vec<WindowId> = Vec::new();
        let mut k: usize = 0;
        while k < d.len()
            invariant
                self.wf(),
                old(self).wf(),
                self.allocated(c as int, r as int),
                k <= d@.len(),
                self.cell_windows_changed(old(self), c as int, r as int),
                self.ws_at(c as int, r as int).model() == swap_model(old(self).ws_at(c as int, r as int).model(), d@.take(k as int)),
                self.windows@ == restate_swapped(old(self).windows@, d@.take(k as int)),
                ids@ == d@.take(k as int).map_values(|a: DisplacedWindow| a.id),
            decreases d.len() - k,
        {
            let a = d[k];
            let ghost g0 = *self;
            self.cell_swap(c, r, a);
            let ghost g1 = *self;
            self.restate_window(a.id, WindowState::Floating, None);
            ids.push(a.id);
            proof {
                Grid::lemma_windows_is_cwc(&g1, self, c as int, r as int);
                Grid::lemma_cwc_trans(&g0, &g1, self, c as int, r as int);
                Grid::lemma_cwc_trans(old(self), &g0, self, c as int, r as int);
                assert(d@.take(k as int + 1).drop_last() =~= d@.take(k as int));
                assert(ids@ =~= d@.take(k as int + 1).map_values(|a: DisplacedWindow| a.id));
            }
            k += 1;
        }
        proof {
            assert(d@.take(d@.len() as int) =~= d@);
        }
        ids
    }

    /// Queue a configure for each id, in order.
    pub(crate) fn queue_configures(&mut self, ids: &Vec<WindowId>)
        requires
            old(self).wf(),
        ensures
            final(self).wf(),
            final(self).pending_configures@ == old(self).pending_configures@ + ids@,
            final(self).lists_same(old(self)),
            final(self).settings_same(old(self)),
            final(self).focused == old(self).focused,
            final(self).focused_window == old(self).focused_window,
    {
        let mut k: usize = 0;
        while k < ids.len()
            invariant
                k <= ids@.len(),
                self.pending_configures@ == old(self).pending_configures@ + ids@.take(k as int),
                self.lists_same(old(self)),
                self.settings_same(old(self)),
                self.focused == old(self).focused,
                self.focused_window == old(self).focused_window,
            decreases ids.len() - k,
        {
            self.pending_configures.push(ids[k]);
            assert(self.pending_configures@ =~= old(self).pending_configures@ + ids@.take(k as int + 1));
            k += 1;
        }
        assert(ids@.take(ids@.len() as int) =~= ids@);
        proof {
            Grid::lemma_wf_frame(old(self), self);
        }
    }

    /// Well-formedness does not depend on the focused window, the pending
    /// configures or the configuration.
    pub proof fn lemma_wf_frame(old: &Grid, new: &Grid)
        requires
            old.wf(),
            new.workspaces@ == old.workspaces@,
            new.windows@ == old.windows@,
            new.focused == old.focused,
            new.history@ == old.history@,
            new.forward_history@ == old.forward_history@,
            new.cols == old.cols,
            new.rows == old.rows,
            new.next_id == old.next_id,
        ensures
            new.wf(),
    {
        assert(new.win_keys() =~= old.win_keys());
        Grid::lemma_wf_windows_only(old, new);
    }
}


impl Grid {
    /// Append window `w`, whose id is the next one, to the window list.
    pub(crate) fn push_window(&mut self, w: Window)
        requires
            old(self).wf(),
            old(self).next_id < u64::MAX,
            w.id == old(self).next_id,
            old(self).placed_or_special(w.workspace),
        ensures
            final(self).wf(),
            final(self).windows@ == old(self).windows@.push(w),
            final(self).next_id == old(self).next_id + 1,
            final(self).workspaces@ == old(self).workspaces@,
            final(self).focused == old(self).focused,
            final(self).focused_window == old(self).focused_window,
            final(self).history@ == old(self).history@,
            final(self).forward_history@ == old(self).forward_history@,
            final(self).pending_configures@ == old(self).pending_configures@,
            final(self).config_same(old(self)),
    {
        let ghost s3 = *self;
        self.windows.push(w);
        self.next_id = self.next_id + 1;
        proof {
            assert(self.windows@ == s3.windows@.push(w));
            assert forall|i: int, j: int| 0 <= i < j < self.windows@.len() implies self.windows@[i].id < self.windows@[j].id by {
                if j == self.windows@.len() - 1 {
                    assert(s3.windows@[i].id < s3.next_id);
                } else {
                    assert(s3.windows@[i].id < s3.windows@[j].id);
                }
            }
            assert forall|i: int| 0 <= i < self.windows@.len() implies self.windows@[i].id < self.next_id by {
                if i < s3.windows@.len() {
                    assert(s3.windows@[i].id < s3.next_id);
                }
            }
            assert forall|i: int| 0 <= i < self.windows@.len()
                implies self.placed_or_special(#[trigger] self.windows@[i].workspace) by {
                if i < s3.windows@.len() {
                    assert(s3.placed_or_special(s3.windows@[i].workspace));
                }
            }
            assert forall|c2: int, r2: int| self.allocated(c2, r2) implies #[trigger] self.ws_at(c2, r2).wf() by {
                assert(s3.allocated(c2, r2));
                assert(s3.ws_at(c2, r2).wf());
                assert(self.ws_at(c2, r2) == s3.ws_at(c2, r2));
            }
        }
    }

    /// Put the new window `w` on cell (c, r) where its state keeps it, add it
    /// to the window list, hide the window it swallows, record it in the
    /// cell's focus history, focus it unless `no_focus`, and queue a
    /// configure for it followed by `ids`.
    /// Focus `id` unless `no_focus`, and queue a configure for it followed by `ids`.
    pub(crate) fn focus_and_queue(&mut self, id: WindowId, no_focus: bool, ids: &Vec<WindowId>)
        requires
            old(self).wf(),
        ensures
            final(self).wf(),
            final(self).focused_window == (if no_focus { old(self).focused_window } else { Some(id) }),
            final(self).pending_configures@ == old(self).pending_configures@ + seq![id] + ids@,
            final(self).lists_same(old(self)),
            final(self).settings_same(old(self)),
            final(self).focused == old(self).focused,
    {
        if !no_focus {
            self.focused_window = Some(id);
        }
        self.pending_configures.push(id);
        proof {
            Grid::lemma_wf_frame(old(self), self);
        }
        let ghost s1 = *self;
        self.queue_configures(ids);
        assert(self.pending_configures@ =~= old(self).pending_configures@ + seq![id] + ids@);
    }

    fn install_window(&mut self, c: u8, r: u8, w: Window, no_focus: bool, swallows: Option<WindowId>, ids: &Vec<WindowId>)
        requires
            old(self).wf(),
            old(self).allocated(c as int, r as int),
            old(self).next_id < u64::MAX,
            w.id == old(self).next_id,
            w.workspace == (c, r),
            !w.is_swallowed,
        ensures
            final(self).wf(),
            final(self).cells_same_except(old(self), c as int, r as int),
            final(self).ws_at(c as int, r as int).model() == record_model(
                place_model(old(self).ws_at(c as int, r as int).model(), w.current_state, w.current_slot, w.id),
                w.id,
            ),
            final(self).ws_at(c as int, r as int).col == old(self).ws_at(c as int, r as int).col,
            final(self).ws_at(c as int, r as int).row == old(self).ws_at(c as int, r as int).row,
            final(self).ws_at(c as int, r as int).name == old(self).ws_at(c as int, r as int).name,
            final(self).windows@.len() == old(self).windows@.len() + 1,
            forall|k: int| 0 <= k < old(self).windows@.len() ==> #[trigger] final(self).windows@[k]
                == mark_swallowed(old(self).windows@[k], swallows),
            final(self).windows@.last() == mark_swallowed(w, swallows),
            final(self).focused_window == (if no_focus { old(self).focused_window } else { Some(w.id) }),
            final(self).focused == old(self).focused,
            final(self).history@ == old(self).history@,
            final(self).forward_history@ == old(self).forward_history@,
            final(self).next_id == old(self).next_id + 1,
            final(self).config_same(old(self)),
            final(self).pending_configures@ == old(self).pending_configures@ + seq![w.id] + ids@,
    {
        let id = w.id;
        self.cell_place(c, r, w.current_state, w.current_slot, id);
        let ghost s3 = *self;
        self.push_window(w);
        let ghost s4 = *self;
        self.mark_swallow(swallows);
        let ghost s5 = *self;
        self.cell_record(c, r, id);
        let ghost s6 = *self;
        self.focus_and_queue(id, no_focus, ids);
        proof {
            Grid::lemma_cells_chain(old(self), &s3, &s5, c as int, r as int);
            Grid::lemma_cells_chain(&s5, &s6, self, c as int, r as int);
            assert forall|c2: int, r2: int| self.allocated(c2, r2) && !(c2 == c && r2 == r)
                implies #[trigger] self.ws_at(c2, r2) == old(self).ws_at(c2, r2) by {
                assert(self.ws_at(c2, r2) == s5.ws_at(c2, r2));
            }
            assert forall|k: int| 0 <= k < old(self).windows@.len() implies #[trigger] self.windows@[k]
                == mark_swallowed(old(self).windows@[k], swallows) by {
                assert(s4.windows@[k] == old(self).windows@[k]);
            }
            assert(self.windows@.last() == mark_swallowed(w, swallows)) by {
                assert(s4.windows@.last() == w);
            }
        }
    }

    /// Hide the window that `swallows` names, if any.
    fn mark_swallow(&mut self, swallows: Option<WindowId>)
        requires
            old(self).wf(),
        ensures
            final(self).wf(),
            final(self).windows_changed(old(self)),
            final(self).windows@ == old(self).windows@.map_values(|w: Window| mark_swallowed(w, swallows)),
    {
        if let Some(sid) = swallows {
            self.set_swallowed(sid, true);
            assert(self.windows@ =~= old(self).windows@.map_values(|w: Window| mark_swallowed(w, swallows)));
        } else {
            assert(self.windows@ =~= old(self).windows@.map_values(|w: Window| mark_swallowed(w, swallows)));
        }
    }

    /// The cell a new window goes to: the rule's workspace, else the focused one.
    pub open spec fn add_target(&self, hints: PlacementHints) -> (u8, u8) {
        match hints.workspace {
            Some(w) => w,
            None => self.focused,
        }
    }

    /// `self` is `old` after a window was added with `hints` and reported as
    /// `res`, `mid` being the target cell once the demotions were applied
    /// (conflicts are resolved against it).
    #[verifier::opaque]
    pub open spec fn added_via(&self, old: &Grid, hints: PlacementHints, res: AddWindowResult, mid: Workspace) -> bool {
        let (c, r) = old.add_target(hints);
        let ows = old.ws_at(c as int, r as int);
        let d = placement_spec(&ows).1;
        let init = requested_placement(&ows, hints);
        let id = old.next_id;
        let (pl, disp) = resolve_spec(
            &mid,
            init.state,
            init.slot,
            None,
            old.conflict_policy,
            old.slot_adaptation,
            old.fullscreen_adaptation,
        );
        let (st, sl) = placed_as(pl);
        let prior = restate_swapped(restate_demoted(old.windows@, d), disp);
        let w = self.windows@.last();
        &&& mid.wf()
        &&& mid.model() == demote_model(ows.model(), d)
        &&& self.cells_same_except(old, c as int, r as int)
        &&& self.ws_at(c as int, r as int).model() == record_model(place_model(swap_model(mid.model(), disp), st, sl, id), id)
        &&& self.ws_at(c as int, r as int).col == ows.col
        &&& self.ws_at(c as int, r as int).row == ows.row
        &&& self.ws_at(c as int, r as int).name == ows.name
        &&& self.windows@.len() == old.windows@.len() + 1
        &&& forall|k: int| 0 <= k < old.windows@.len() ==> #[trigger] self.windows@[k] == mark_swallowed(prior[k], hints.swallows)
        &&& w.id == id
        &&& w.workspace == (c, r)
        &&& w.current_state == st
        &&& w.current_slot == sl
        &&& w.requested_state == init.state
        &&& w.requested_slot == init.slot
        &&& w.stack_index == 0
        &&& w.floating_geom == match hints.floating_geom {
            Some(g) => g,
            None => default_float_geom(old.output_w, old.output_h),
        }
        &&& w.app_id@ == Seq::<char>::empty()
        &&& w.title@ == Seq::<char>::empty()
        &&& !w.is_urgent
        &&& w.pid == hints.pid
        &&& w.swallowed_id == hints.swallows
        &&& w.is_swallowed == (hints.swallows == Some(id))
        &&& w.sticky == (hints.pin || hints.sticky)
        &&& w.no_animations == hints.no_animations
        &&& w.above_total_fullscreen == match hints.above_total_fullscreen {
            Some(b) => b,
            None => true,
        }
        &&& w.border_color == hints.border_color
        &&& w.shader == hints.shader
        &&& w.steal_focus == hints.steal_focus
        &&& self.focused_window == (if hints.no_focus { old.focused_window } else { Some(id) })
        &&& self.focused == old.focused
        &&& self.history@ == old.history@
        &&& self.forward_history@ == old.forward_history@
        &&& self.next_id == id + 1
        &&& self.config_same(old)
        &&& self.pending_configures@ == old.pending_configures@ + seq![id]
            + d.map_values(|a: DemoteAction| a.window_id) + disp.map_values(|x: DisplacedWindow| x.id)
        &&& res == (AddWindowResult {
            id,
            slot_adapted: slot_adaptation_of(init, pl),
            state_adapted: state_adaptation_of(init, pl),
        })
    }

    /// Register a new window and place it: on the rule's workspace or the
    /// focused one, by the placement policy (rule hints override its state
    /// and slot), after demoting a lone Fullscreen window and resolving slot
    /// conflicts. The window is recorded in the cell's focus history and
    /// focused unless the rule says not to; it and every window moved on its
    /// account are owed a configure.
    #[verifier::rlimit(40)]
    pub fn add_window(&mut self, hints: PlacementHints) -> (res: AddWindowResult)
        requires
            old(self).wf(),
            old(self).next_id < u64::MAX,
            hints.workspace matches Some(w) ==> old(self).allocated(w.0 as int, w.1 as int),
        ensures
            final(self).wf(),
            exists|mid: Workspace| #[trigger] final(self).added_via(old(self), hints, res, mid),
    {
        let ghost h = hints;
        let PlacementHints {
            workspace,
            slot: hint_slot,
            state: hint_state,
            floating_geom,
            no_focus,
            pid,
            swallows,
            pin,
            sticky,
            no_animations,
            above_total_fullscreen,
            border_color,
            shader,
            min_size_overflow: _,
            steal_focus,
        } = hints;
        let id = self.next_id;
        let ghost s0 = *self;
        let (c, r) = match workspace {
            Some(w) => w,
            None => self.focused,
        };
        proof {
            assert(self.ws_at(c as int, r as int) == old(self).ws_at(c as int, r as int));
        }
        let (p0, demotions) = place_new_window(self.ws(c, r));
        let init_state = match hint_state {
            Some(s) => s,
            None => p0.state,
        };
        let init_slot = if hint_slot.is_some() {
            hint_slot
        } else {
            p0.slot
        };
        let demote_ids = self.demote_all(c, r, &demotions);
        let ghost s1 = *self;
        let ghost mid = self.ws_at(c as int, r as int);
        let resolved = resolve(
            self.ws(c, r),
            init_state,
            init_slot,
            None,
            &self.conflict_policy,
            self.slot_adaptation,
            self.fullscreen_adaptation,
        );
        let swap_ids = self.swap_out_all(c, r, &resolved.displaced);
        let ghost s2 = *self;
        let mut slot_adapted: Option<(Slot, Slot)> = None;
        let mut state_adapted: Option<(WindowState, WindowState, Option<Slot>)> = None;
        let (final_state, final_slot) = match resolved.placement {
            Placement::Tiled { slot, adapted } => {
                if adapted {
                    if init_state != WindowState::Tiled {
                        state_adapted = Some((init_state, WindowState::Tiled, Some(slot)));
                    } else if let Some(req) = init_slot {
                        if req != slot {
                            slot_adapted = Some((req, slot));
                        }
                    }
                }
                (WindowState::Tiled, Some(slot))
            },
            Placement::FullscreenPromotion => (WindowState::Fullscreen, None),
            Placement::Floating => (WindowState::Floating, None),
        };
        let geom = match floating_geom {
            Some(g) => g,
            None => {
                let float_w: i32 = if 800 < self.output_w { 800 } else { self.output_w };
                let float_h: i32 = if 600 < self.output_h { 600 } else { self.output_h };
                Rect::new((self.output_w - float_w) / 2, (self.output_h - float_h) / 2, float_w, float_h)
            },
        };
        let window = Window {
            id,
            app_id: String::new(),
            title: String::new(),
            workspace: (c, r),
            current_state: final_state,
            requested_state: init_state,
            current_slot: final_slot,
            requested_slot: init_slot,
            stack_index: 0,
            floating_geom: geom,
            is_urgent: false,
            pid,
            swallowed_id: swallows,
            is_swallowed: false,
            sticky: pin || sticky,
            no_animations,
            above_total_fullscreen: match above_total_fullscreen {
                Some(b) => b,
                None => true,
            },
            border_color,
            shader,
            steal_focus,
        };
        let ghost wv = window;
        let mut ids = demote_ids;
        let mut more = swap_ids;
        let ghost dids = ids@;
        let ghost sids = more@;
        ids.append(&mut more);
        self.install_window(c, r, window, no_focus, swallows, &ids);
        proof {
            let prior = restate_swapped(restate_demoted(old(self).windows@, demotions@), resolved.displaced@);
            assert(s2.windows@ == prior);
            lemma_restate_demoted_keys(old(self).windows@, demotions@);
            lemma_restate_swapped_keys(restate_demoted(old(self).windows@, demotions@), resolved.displaced@);
            assert(s0.cells_same_except(old(self), c as int, r as int));
            Grid::lemma_cwc_trans(&s0, &s1, &s2, c as int, r as int);
            assert forall|c2: int, r2: int| self.allocated(c2, r2) && !(c2 == c && r2 == r)
                implies #[trigger] self.ws_at(c2, r2) == old(self).ws_at(c2, r2) by {
                assert(self.ws_at(c2, r2) == s2.ws_at(c2, r2));
                assert(s2.ws_at(c2, r2) == s0.ws_at(c2, r2));
            }
            assert(ids@ =~= demotions@.map_values(|a: DemoteAction| a.window_id)
                + resolved.displaced@.map_values(|x: DisplacedWindow| x.id));
            assert(self.pending_configures@ =~= old(self).pending_configures@ + seq![id]
                + demotions@.map_values(|a: DemoteAction| a.window_id)
                + resolved.displaced@.map_values(|x: DisplacedWindow| x.id));
            assert((final_state, final_slot) == placed_as(resolved.placement));
            assert(InitialPlacement { state: init_state, slot: init_slot } == requested_placement(&old(self).ws_at(c as int, r as int), h));
            assert(self.added_via(old(self), h, AddWindowResult { id, slot_adapted, state_adapted }, mid)) by {
                reveal(Grid::added_via);
            }
        }
        AddWindowResult { id, slot_adapted, state_adapted }
    }
}


/// Whether some window of the list has id `id`.
pub open spec fn lists_window(ws: Seq<Window>, id: WindowId) -> bool {
    exists|k: int| 0 <= k < ws.len() && ws[k].id == id
}

/// After a window that swallowed `sw` is gone: when `sw` names a window of
/// `ws`, it is shown again and focused; otherwise the list is `ws` and the
/// focus `fw`.
pub open spec fn unswallowed(new_ws: Seq<Window>, new_fw: Option<WindowId>, ws: Seq<Window>, fw: Option<WindowId>, sw: Option<WindowId>) -> bool {
    match sw {
        Some(sid) => if lists_window(ws, sid) {
            &&& new_ws == ws.map_values(|w: Window| if w.id == sid { Window { is_swallowed: false, ..w } } else { w })
            &&& new_fw == Some(sid)
        } else {
            new_ws == ws && new_fw == fw
        },
        None => new_ws == ws && new_fw == fw,
    }
}

impl Grid {
    pub(crate) fn cell_restore(&mut self, c: u8, r: u8, slot: Option<Slot>, id: WindowId)
        requires
            old(self).wf(),
            old(self).allocated(c as int, r as int),
        ensures
            final(self).wf(),
            final(self).cell_changed(old(self), c as int, r as int),
            final(self).ws_at(c as int, r as int).model() == restore_one(old(self).ws_at(c as int, r as int).model(), slot, id),
    {
        proof {
            assert(old(self).ws_at(c as int, r as int).wf());
        }
        self.cell_mut(c, r).restore_fullscreen(slot, id);
        proof {
            Grid::lemma_cells_after_change(old(self), self, c as int, r as int);
            assert(self.win_keys() =~= old(self).win_keys());
            Grid::lemma_wf_transfer(old(self), self);
        }
    }

    /// Bring back to Fullscreen, in list order, each window of cell (c, r)
    /// that asked for Fullscreen but was adapted to Tiled, once it is the
    /// only tiled window left; each restored window is owed a configure.
    fn check_auto_restore(&mut self, c: u8, r: u8)
        requires
            old(self).wf(),
            old(self).allocated(c as int, r as int),
        ensures
            final(self).wf(),
            ({
                let (m, wl, q) = restore_upto(
                    old(self).ws_at(c as int, r as int).model(),
                    old(self).windows@,
                    (c, r),
                    old(self).windows@.len() as int,
                );
                &&& final(self).ws_at(c as int, r as int).model() == m
                &&& final(self).windows@ == wl
                &&& final(self).pending_configures@ == old(self).pending_configures@ + q
            }),
            final(self).cells_same_except(old(self), c as int, r as int),
            final(self).ws_at(c as int, r as int).col == old(self).ws_at(c as int, r as int).col,
            final(self).ws_at(c as int, r as int).row == old(self).ws_at(c as int, r as int).row,
            final(self).ws_at(c as int, r as int).name == old(self).ws_at(c as int, r as int).name,
            final(self).focused == old(self).focused,
            final(self).focused_window == old(self).focused_window,
            final(self).history@ == old(self).history@,
            final(self).forward_history@ == old(self).forward_history@,
            final(self).settings_same(old(self)),
    {
        let ghost m0 = old(self).ws_at(c as int, r as int).model();
        let ghost w0 = old(self).windows@;
        let n = self.windows.len();
        let mut restored: Vec<WindowId> = Vec::new();
        let mut i: usize = 0;
        while i < n
            invariant
                self.wf(),
                old(self).wf(),
                self.allocated(c as int, r as int),
                i <= n,
                n == w0.len(),
                w0 == old(self).windows@,
                m0 == old(self).ws_at(c as int, r as int).model(),
                self.cell_windows_changed(old(self), c as int, r as int),
                restore_upto(m0, w0, (c, r), i as int) == (self.ws_at(c as int, r as int).model(), self.windows@, restored@),
            decreases n - i,
        {
            proof {
                lemma_restore_keys(m0, w0, (c, r), i as int);
            }
            let ghost g0 = *self;
            let wid = self.windows[i].id;
            if self.restore_at(c, r, i) {
                restored.push(wid);
            }
            proof {
                Grid::lemma_cwc_trans(old(self), &g0, self, c as int, r as int);
            }
            i += 1;
        }
        let ghost g2 = *self;
        self.queue_configures(&restored);
        proof {
            Grid::lemma_cells_chain(old(self), &g2, self, c as int, r as int);
        }
    }

    /// One step of auto-restore on cell (c, r): window `i`, if it is a
    /// candidate and the only tiled window left, goes back to Fullscreen.
    fn restore_at(&mut self, c: u8, r: u8, i: usize) -> (b: bool)
        requires
            old(self).wf(),
            old(self).allocated(c as int, r as int),
            i < old(self).windows@.len(),
        ensures
            final(self).wf(),
            final(self).cell_windows_changed(old(self), c as int, r as int),
            ({
                let m = old(self).ws_at(c as int, r as int).model();
                let w = old(self).windows@[i as int];
                if restore_candidate(w, (c, r)) && can_restore(m, w) {
                    &&& b
                    &&& final(self).ws_at(c as int, r as int).model() == restore_one(m, w.current_slot, w.id)
                    &&& final(self).windows@ == old(self).windows@.update(
                        i as int,
                        Window { current_state: WindowState::Fullscreen, current_slot: None, ..w },
                    )
                } else {
                    &&& !b
                    &&& final(self).ws_at(c as int, r as int).model() == m
                    &&& final(self).windows@ == old(self).windows@
                }
            }),
    {
        let wid = self.windows[i].id;
        let slot = self.windows[i].current_slot;
        if !self.restorable(c, r, i) {
            return false;
        }
        self.cell_restore(c, r, slot, wid);
        let ghost g1 = *self;
        self.window_to_fullscreen(i);
        proof {
            Grid::lemma_windows_is_cwc(&g1, self, c as int, r as int);
            Grid::lemma_cwc_trans(old(self), &g1, self, c as int, r as int);
        }
        true
    }

    /// Whether window `i` is an auto-restore candidate of cell (c, r) and
    /// the only tiled window left there.
    fn restorable(&self, c: u8, r: u8, i: usize) -> (b: bool)
        requires
            self.wf(),
            self.allocated(c as int, r as int),
            i < self.windows@.len(),
        ensures
            b == (restore_candidate(self.windows@[i as int], (c, r))
                && can_restore(self.ws_at(c as int, r as int).model(), self.windows@[i as int])),
    {
        let wid = self.windows[i].id;
        let wsc = self.windows[i].workspace;
        let req = self.windows[i].requested_state;
        let cur = self.windows[i].current_state;
        let slot = self.windows[i].current_slot;
        if !(wsc.0 == c && wsc.1 == r && req == WindowState::Fullscreen && cur == WindowState::Tiled) {
            return false;
        }
        let chk = match slot {
            Some(s) => s,
            None => Slot::HalfLeft,
        };
        let ws = self.ws(c, r);
        proof {
            assert(ws.wf());
            ws.lemma_model_stack(chk);
            assert(model_tiled(ws.model()) == ws.tiled_len());
        }
        ws.has_single_tiled() && ws.stack_only(chk, wid)
    }

    /// Window `i` becomes Fullscreen with no slot.
    pub(crate) fn window_to_fullscreen(&mut self, i: usize)
        requires
            old(self).wf(),
            i < old(self).windows@.len(),
        ensures
            final(self).wf(),
            final(self).windows_changed(old(self)),
            final(self).windows@ == old(self).windows@.update(
                i as int,
                Window { current_state: WindowState::Fullscreen, current_slot: None, ..old(self).windows@[i as int] },
            ),
    {
        let w = self.window_mut(i);
        w.current_state = WindowState::Fullscreen;
        w.current_slot = None;
        proof {
            assert(self.win_keys() =~= old(self).win_keys());
            Grid::lemma_wf_windows_only(old(self), self);
        }
    }

    /// Drop window `i` from the list.
    pub(crate) fn remove_window_at(&mut self, i: usize)
        requires
            old(self).wf(),
            i < old(self).windows@.len(),
        ensures
            final(self).wf(),
            final(self).windows@ == old(self).windows@.remove(i as int),
            final(self).windows_changed(old(self)),
    {
        let ghost s0 = *self;
        self.windows.remove(i);
        proof {
            let o = s0.windows@;
            let n = self.windows@;
            assert(n == o.remove(i as int));
            assert forall|a: int, b: int| 0 <= a < b < n.len() implies n[a].id < n[b].id by {
                let a2 = if a < i { a } else { a + 1 };
                let b2 = if b < i { b } else { b + 1 };
                assert(n[a] == o[a2]);
                assert(n[b] == o[b2]);
                assert(o[a2].id < o[b2].id);
            }
            assert forall|a: int| 0 <= a < n.len() implies n[a].id < self.next_id by {
                let a2 = if a < i { a } else { a + 1 };
                assert(n[a] == o[a2]);
                assert(o[a2].id < s0.next_id);
            }
            assert forall|a: int| 0 <= a < n.len() implies self.placed_or_special(#[trigger] n[a].workspace) by {
                let a2 = if a < i { a } else { a + 1 };
                assert(n[a] == o[a2]);
                assert(s0.placed_or_special(o[a2].workspace));
            }
            assert forall|c2: int, r2: int| self.allocated(c2, r2) implies #[trigger] self.ws_at(c2, r2).wf() by {
                assert(s0.allocated(c2, r2));
                assert(s0.ws_at(c2, r2).wf());
                assert(self.ws_at(c2, r2) == s0.ws_at(c2, r2));
            }
        }
    }

    /// The front of the focus history of the focused cell.
    pub(crate) fn focused_cell_last(&self) -> (r: Option<WindowId>)
        requires
            self.wf(),
        ensures
            r == self.last_focused_at(self.focused.0 as int, self.focused.1 as int),
    {
        let ws = self.ws(self.focused.0, self.focused.1);
        if ws.focus_history.len() > 0 {
            Some(ws.focus_history[0])
        } else {
            None
        }
    }

    /// A window of a grid cell is on a cell of the array.
    pub(crate) proof fn lemma_placed(&self, i: int)
        requires
            self.wf(),
            0 <= i < self.windows@.len(),
        ensures
            self.windows@[i].workspace != special() ==> self.allocated(self.windows@[i].workspace.0 as int, self.windows@[i].workspace.1 as int)
                && self.windows@[i].workspace.0 < 255 && self.windows@[i].workspace.1 < 255,
    {
        assert(self.placed_or_special(self.windows@[i].workspace));
        let (c, r) = self.windows@[i].workspace;
        if self.windows@[i].workspace != special() {
            assert(self.workspaces@[r as int]@.len() <= 255);
        }
    }
}


impl Grid {
    /// The focus after window `id` of cell (c, r) left it, `mid` being the
    /// cell without it: unchanged unless `id` had it; then the close policy
    /// picks on `mid`, or, for a window of a special workspace, the front
    /// of the focused cell's history.
    pub open spec fn focus_after_removal(&self, id: WindowId, w: Window, mid: Workspace) -> Option<WindowId> {
        if self.focused_window == Some(id) {
            if w.workspace == special() {
                self.last_focused_at(self.focused.0 as int, self.focused.1 as int)
            } else {
                focus_after_close_spec(&mid, id, w.current_slot, self.focus_on_close)
            }
        } else {
            self.focused_window
        }
    }

    /// Take window `w` (already out of the list) off its cell and move the
    /// focus as the close policy says.
    fn take_off_cell(&mut self, w: Ghost<Window>, c: u8, r: u8, id: WindowId, closed_slot: Option<Slot>)
        requires
            old(self).wf(),
            w@.id == id,
            w@.workspace == (c, r),
            w@.current_slot == closed_slot,
            w@.workspace != special() ==> old(self).allocated(c as int, r as int) && c < 255 && r < 255,
        ensures
            final(self).wf(),
            final(self).windows@ == old(self).windows@,
            final(self).focused == old(self).focused,
            final(self).history@ == old(self).history@,
            final(self).forward_history@ == old(self).forward_history@,
            final(self).pending_configures@ == old(self).pending_configures@,
            final(self).settings_same(old(self)),
            w@.workspace == special() ==> final(self).workspaces@ == old(self).workspaces@
                && final(self).focused_window == old(self).focus_after_removal(id, w@, old(self).ws_at(0, 0)),
            w@.workspace != special() ==> {
                &&& final(self).cells_same_except(old(self), c as int, r as int)
                &&& final(self).ws_at(c as int, r as int).model() == remove_model(old(self).ws_at(c as int, r as int).model(), id)
                &&& final(self).ws_at(c as int, r as int).col == old(self).ws_at(c as int, r as int).col
                &&& final(self).ws_at(c as int, r as int).row == old(self).ws_at(c as int, r as int).row
                &&& final(self).ws_at(c as int, r as int).name == old(self).ws_at(c as int, r as int).name
                &&& final(self).ws_at(c as int, r as int).wf()
                &&& final(self).focused_window == old(self).focus_after_removal(id, w@, final(self).ws_at(c as int, r as int))
            },
    {
        let was_focused = match self.focused_window {
            Some(f) => f == id,
            None => false,
        };
        if c != 255 && r != 255 {
            self.cell_remove(c, r, id);
            if was_focused {
                let ghost g = *self;
                proof {
                    assert(self.ws_at(c as int, r as int).wf());
                }
                let f = focus_after_close(self.ws(c, r), id, closed_slot, &self.focus_on_close);
                self.focused_window = f;
                proof {
                    Grid::lemma_wf_frame(&g, self);
                    Grid::lemma_cells_chain(old(self), &g, self, c as int, r as int);
                }
            }
            proof {
                assert(self.ws_at(c as int, r as int).wf());
            }
        } else {
            if was_focused {
                let f = self.focused_cell_last();
                self.focused_window = f;
                proof {
                    Grid::lemma_wf_frame(old(self), self);
                }
            }
        }
    }

    /// Show window `sid` again and focus it, if it is registered.
    fn unswallow(&mut self, swallowed: Option<WindowId>)
        requires
            old(self).wf(),
        ensures
            final(self).wf(),
            unswallowed(final(self).windows@, final(self).focused_window, old(self).windows@, old(self).focused_window, swallowed),
            final(self).workspaces@ == old(self).workspaces@,
            final(self).focused == old(self).focused,
            final(self).history@ == old(self).history@,
            final(self).forward_history@ == old(self).forward_history@,
            final(self).pending_configures@ == old(self).pending_configures@,
            final(self).settings_same(old(self)),
    {
        if let Some(sid) = swallowed {
            if self.find_window(sid).is_some() {
                self.set_swallowed(sid, false);
                let ghost g = *self;
                self.focused_window = Some(sid);
                proof {
                    Grid::lemma_wf_frame(&g, self);
                }
            }
        }
    }

    /// `self` is `old` after the registered window `id` was removed, `mid`
    /// being its cell once the window left it: the window leaves the list
    /// and every list of its cell; the focus moves as the close policy
    /// says; with auto-restore on, the cell's windows adapted from
    /// Fullscreen are restored once one tiled window is left; the window it
    /// swallowed, if still registered, is shown again and focused.
    pub open spec fn removed_via(&self, old: &Grid, id: WindowId, mid: Workspace) -> bool {
        let i = old.win_index(id);
        let w = old.win(id);
        let wl1 = old.windows@.remove(i);
        let (c, r) = w.workspace;
        let fw1 = old.focus_after_removal(id, w, mid);
        &&& self.focused == old.focused
        &&& self.history@ == old.history@
        &&& self.forward_history@ == old.forward_history@
        &&& self.settings_same(old)
        &&& if w.workspace == special() {
            &&& self.workspaces@ == old.workspaces@
            &&& self.pending_configures@ == old.pending_configures@
            &&& unswallowed(self.windows@, self.focused_window, wl1, fw1, w.swallowed_id)
        } else {
            let (m2, wl2, q) = if old.fullscreen_auto_restore {
                restore_upto(mid.model(), wl1, (c, r), wl1.len() as int)
            } else {
                (mid.model(), wl1, Seq::empty())
            };
            &&& mid.wf()
            &&& mid.model() == remove_model(old.ws_at(c as int, r as int).model(), id)
            &&& self.cells_same_except(old, c as int, r as int)
            &&& self.ws_at(c as int, r as int).model() == m2
            &&& self.ws_at(c as int, r as int).col == old.ws_at(c as int, r as int).col
            &&& self.ws_at(c as int, r as int).row == old.ws_at(c as int, r as int).row
            &&& self.ws_at(c as int, r as int).name == old.ws_at(c as int, r as int).name
            &&& self.pending_configures@ == old.pending_configures@ + q
            &&& unswallowed(self.windows@, self.focused_window, wl2, fw1, w.swallowed_id)
        }
    }

    /// Remove window `id`; None if it is not registered.
    pub fn remove_window(&mut self, id: WindowId) -> (res: Option<WindowId>)
        requires
            old(self).wf(),
        ensures
            final(self).wf(),
            !old(self).has_window(id) ==> res is None && *final(self) == *old(self),
            old(self).has_window(id) ==> res == Some(id)
                && exists|mid: Workspace| #[trigger] final(self).removed_via(old(self), id, mid),
    {
        let i = match self.find_window(id) {
            Some(i) => i,
            None => return None,
        };
        proof {
            self.lemma_placed(i as int);
        }
        let ghost w = self.windows@[i as int];
        let (c, r) = self.windows[i].workspace;
        let closed_slot = self.windows[i].current_slot;
        let swallowed = self.windows[i].swallowed_id;
        self.remove_window_at(i);
        let ghost s1 = *self;
        self.take_off_cell(Ghost(w), c, r, id, closed_slot);
        let ghost s2 = *self;
        let ghost mid = if w.workspace == special() { old(self).ws_at(0, 0) } else { s2.ws_at(c as int, r as int) };
        if self.fullscreen_auto_restore && c != 255 {
            proof {
                assert(w.workspace != special());
            }
            self.check_auto_restore(c, r);
        }
        let ghost s3 = *self;
        self.unswallow(swallowed);
        proof {
            assert(s1.focus_after_removal(id, w, mid) == old(self).focus_after_removal(id, w, mid));
            if w.workspace != special() {
                lemma_restore_keys(mid.model(), s2.windows@, (c, r), s2.windows@.len() as int);
                Grid::lemma_cells_pre(old(self), &s1, &s2, c as int, r as int);
                if s2.fullscreen_auto_restore {
                    assert forall|c2: int, r2: int| s3.allocated(c2, r2) && !(c2 == c && r2 == r)
                        implies #[trigger] s3.ws_at(c2, r2) == old(self).ws_at(c2, r2) by {
                        assert(s3.ws_at(c2, r2) == s2.ws_at(c2, r2));
                    }
                }
                Grid::lemma_cells_chain(old(self), &s3, self, c as int, r as int);
            }
            assert(self.removed_via(old(self), id, mid));
        }
        Some(id)
    }
}


impl Grid {
    /// All cells but (c1, r1) and (c2, r2) are as in `old`.
    pub open spec fn cells_same_except2(&self, old: &Grid, c1: int, r1: int, c2: int, r2: int) -> bool {
        &&& self.same_shape(old)
        &&& forall|c: int, r: int| self.allocated(c, r) && !(c == c1 && r == r1) && !(c == c2 && r == r2)
            ==> #[trigger] self.ws_at(c, r) == old.ws_at(c, r)
    }

    /// The cell's coordinates and name are as in `old`.
    pub open spec fn cell_named_as(&self, old: &Grid, c: int, r: int) -> bool {
        &&& self.ws_at(c, r).col == old.ws_at(c, r).col
        &&& self.ws_at(c, r).row == old.ws_at(c, r).row
        &&& self.ws_at(c, r).name == old.ws_at(c, r).name
    }

    /// `self` is `old` after its focused window was moved to cell `target`:
    /// nothing happens unless a registered window is focused, sits on
    /// another cell than `target`, and `target` is inside the grid. Then it
    /// leaves every list of its cell but the focus history and is placed on
    /// `target` as conflict resolution there says for its current state and
    /// slot (swapped-out windows are left as they are), and is owed a
    /// configure.
    #[verifier::opaque]
    pub open spec fn moved_to(&self, old: &Grid, target: (u8, u8)) -> bool {
        match old.focused_known() {
            None => *self == *old,
            Some(id) => {
                let i = old.win_index(id);
                let w = old.win(id);
                let (c, r) = w.workspace;
                if w.workspace == target || !old.in_grid(target) {
                    *self == *old
                } else {
                    let (pl, disp) = resolve_spec(
                        &old.ws_at(target.0 as int, target.1 as int),
                        w.current_state,
                        w.current_slot,
                        None,
                        old.conflict_policy,
                        old.slot_adaptation,
                        old.fullscreen_adaptation,
                    );
                    let (st, sl) = placed_as(pl);
                    &&& self.cells_same_except2(old, c as int, r as int, target.0 as int, target.1 as int)
                    &&& self.ws_at(c as int, r as int).model() == detach_model(old.ws_at(c as int, r as int).model(), id)
                    &&& self.ws_at(target.0 as int, target.1 as int).model()
                        == place_model(old.ws_at(target.0 as int, target.1 as int).model(), st, sl, id)
                    &&& self.cell_named_as(old, c as int, r as int)
                    &&& self.cell_named_as(old, target.0 as int, target.1 as int)
                    &&& self.windows@ == old.windows@.update(
                        i,
                        Window { workspace: target, current_state: st, current_slot: sl, ..w },
                    )
                    &&& self.focused_window == old.focused_window
                    &&& self.focused == old.focused
                    &&& self.history@ == old.history@
                    &&& self.forward_history@ == old.forward_history@
                    &&& self.pending_configures@ == old.pending_configures@.push(id)
                    &&& self.settings_same(old)
                }
            },
        }
    }

    /// Window `i` gets a new cell, state and slot.
    pub(crate) fn rehome_window(&mut self, i: usize, target: (u8, u8), state: WindowState, slot: Option<Slot>)
        requires
            old(self).wf(),
            i < old(self).windows@.len(),
            old(self).allocated(target.0 as int, target.1 as int),
        ensures
            final(self).wf(),
            final(self).windows_changed(old(self)),
            final(self).windows@ == old(self).windows@.update(
                i as int,
                Window { workspace: target, current_state: state, current_slot: slot, ..old(self).windows@[i as int] },
            ),
    {
        let w = self.window_mut(i);
        w.workspace = target;
        w.current_state = state;
        w.current_slot = slot;
        proof {
            let o = old(self).windows@;
            let n = self.windows@;
            assert forall|a: int, b: int| 0 <= a < b < n.len() implies n[a].id < n[b].id by {
                assert(o[a].id < o[b].id);
            }
            assert forall|a: int| 0 <= a < n.len() implies n[a].id < self.next_id by {
                assert(o[a].id < old(self).next_id);
            }
            assert forall|a: int| 0 <= a < n.len() implies self.placed_or_special(#[trigger] n[a].workspace) by {
                if a != i {
                    assert(old(self).placed_or_special(o[a].workspace));
                }
            }
            assert forall|c2: int, r2: int| self.allocated(c2, r2) implies #[trigger] self.ws_at(c2, r2).wf() by {
                assert(old(self).allocated(c2, r2));
                assert(old(self).ws_at(c2, r2).wf());
                assert(self.ws_at(c2, r2) == old(self).ws_at(c2, r2));
            }
        }
    }

    /// Move the focused window to cell `target` (see `moved_to`).
    pub fn move_window_to(&mut self, target: (u8, u8))
        requires
            old(self).wf(),
            old(self).focus_placed(),
        ensures
            final(self).wf(),
            final(self).moved_to(old(self), target),
    {
        let (i, id, c, r) = match self.focus_site() {
            Some(t) => t,
            None => {
                assert(self.moved_to(old(self), target)) by {
                    reveal(Grid::moved_to);
                }
                return;
            },
        };
        if (c == target.0 && r == target.1) || target.0 >= self.cols || target.1 >= self.rows {
            assert(self.moved_to(old(self), target)) by {
                reveal(Grid::moved_to);
            }
            return;
        }
        proof {
            assert(self.workspaces@[target.1 as int]@.len() >= self.cols);
        }
        self.move_core(i, id, c, r, target);
        assert(self.moved_to(old(self), target)) by {
            reveal(Grid::moved_to);
        }
    }

    /// Move window `id` (position i, cell (c, r)) to the other cell `target`.
    #[verifier::rlimit(40)]
    fn move_core(&mut self, i: usize, id: WindowId, c: u8, r: u8, target: (u8, u8))
        requires
            old(self).wf(),
            i < old(self).windows@.len(),
            old(self).windows@[i as int].id == id,
            old(self).windows@[i as int].workspace == (c, r),
            old(self).allocated(c as int, r as int),
            old(self).allocated(target.0 as int, target.1 as int),
            !(c == target.0 && r == target.1),
        ensures
            final(self).wf(),
            ({
                let w = old(self).windows@[i as int];
                let (pl, disp) = resolve_spec(
                    &old(self).ws_at(target.0 as int, target.1 as int),
                    w.current_state,
                    w.current_slot,
                    None,
                    old(self).conflict_policy,
                    old(self).slot_adaptation,
                    old(self).fullscreen_adaptation,
                );
                let (st, sl) = placed_as(pl);
                &&& final(self).cells_same_except2(old(self), c as int, r as int, target.0 as int, target.1 as int)
                &&& final(self).ws_at(c as int, r as int).model() == detach_model(old(self).ws_at(c as int, r as int).model(), id)
                &&& final(self).ws_at(target.0 as int, target.1 as int).model()
                    == place_model(old(self).ws_at(target.0 as int, target.1 as int).model(), st, sl, id)
                &&& final(self).cell_named_as(old(self), c as int, r as int)
                &&& final(self).cell_named_as(old(self), target.0 as int, target.1 as int)
                &&& final(self).windows@ == old(self).windows@.update(
                    i as int,
                    Window { workspace: target, current_state: st, current_slot: sl, ..w },
                )
                &&& final(self).focused_window == old(self).focused_window
                &&& final(self).focused == old(self).focused
                &&& final(self).history@ == old(self).history@
                &&& final(self).forward_history@ == old(self).forward_history@
                &&& final(self).pending_configures@ == old(self).pending_configures@.push(id)
                &&& final(self).settings_same(old(self))
            }),
    {
        let current_state = self.windows[i].current_state;
        let current_slot = self.windows[i].current_slot;
        proof {
            assert(self.ws_at(target.0 as int, target.1 as int).wf());
        }
        let resolved = resolve(
            self.ws(target.0, target.1),
            current_state,
            current_slot,
            None,
            &self.conflict_policy,
            self.slot_adaptation,
            self.fullscreen_adaptation,
        );
        let (final_state, final_slot) = match resolved.placement {
            Placement::Tiled { slot, .. } => (WindowState::Tiled, Some(slot)),
            Placement::FullscreenPromotion => (WindowState::Fullscreen, None),
            Placement::Floating => (WindowState::Floating, None),
        };
        self.place_moved(i, id, target, final_state, final_slot);
        let ghost s1 = *self;
        proof {
            assert(self.allocated(c as int, r as int));
        }
        self.cell_detach(c, r, id);
        proof {
            assert(s1.ws_at(c as int, r as int) == old(self).ws_at(c as int, r as int));
            assert(self.ws_at(target.0 as int, target.1 as int) == s1.ws_at(target.0 as int, target.1 as int));
            assert forall|c2: int, r2: int| self.allocated(c2, r2) && !(c2 == c && r2 == r)
                && !(c2 == target.0 && r2 == target.1) implies #[trigger] self.ws_at(c2, r2) == old(self).ws_at(c2, r2) by {
                assert(self.ws_at(c2, r2) == s1.ws_at(c2, r2));
            }
            assert(self.same_shape(old(self))) by {
                assert forall|r2: int| 0 <= r2 < self.workspaces@.len()
                    implies #[trigger] self.workspaces@[r2]@.len() == old(self).workspaces@[r2]@.len() by {
                    assert(self.workspaces@[r2]@.len() == s1.workspaces@[r2]@.len());
                }
            }
        }
    }

    /// Place window `id` (position i) on cell `target` with `state` and
    /// `slot`, make that its cell, state and slot, and queue a configure.
    pub(crate) fn place_moved(&mut self, i: usize, id: WindowId, target: (u8, u8), state: WindowState, slot: Option<Slot>)
        requires
            old(self).wf(),
            i < old(self).windows@.len(),
            old(self).allocated(target.0 as int, target.1 as int),
        ensures
            final(self).wf(),
            final(self).cells_same_except(old(self), target.0 as int, target.1 as int),
            final(self).cell_named_as(old(self), target.0 as int, target.1 as int),
            final(self).ws_at(target.0 as int, target.1 as int).model()
                == place_model(old(self).ws_at(target.0 as int, target.1 as int).model(), state, slot, id),
            final(self).windows@ == old(self).windows@.update(
                i as int,
                Window { workspace: target, current_state: state, current_slot: slot, ..old(self).windows@[i as int] },
            ),
            final(self).focused_window == old(self).focused_window,
            final(self).focused == old(self).focused,
            final(self).history@ == old(self).history@,
            final(self).forward_history@ == old(self).forward_history@,
            final(self).pending_configures@ == old(self).pending_configures@.push(id),
            final(self).settings_same(old(self)),
    {
        self.cell_place(target.0, target.1, state, slot, id);
        let ghost s2 = *self;
        self.rehome_window(i, target, state, slot);
        let ghost s3 = *self;
        self.pending_configures.push(id);
        proof {
            Grid::lemma_wf_frame(&s3, self);
            Grid::lemma_cells_chain(old(self), &s2, self, target.0 as int, target.1 as int);
        }
    }
}

} // verus!
