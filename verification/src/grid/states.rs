//! State toggles and stack cycling on the focused window.
use vstd::prelude::*;

use super::window::{Rect, Slot, WindowId, WindowState};
use super::workspace::Workspace;
use super::{special, Grid, Window};
use crate::seqs::{position_of, remove_id};

verus! {

/// Rotate a stack so that its second window comes to the top.
pub open spec fn rotate_next(s: Seq<WindowId>) -> Seq<WindowId> {
    s.drop_first().push(s[0])
}

/// Rotate a stack so that its bottom window comes to the top.
pub open spec fn rotate_prev(s: Seq<WindowId>) -> Seq<WindowId> {
    seq![s.last()] + s.drop_last()
}

/// Bring the window at position `n` to the top, keeping the others in order.
pub open spec fn flip_to_top(s: Seq<WindowId>, n: int) -> Seq<WindowId> {
    seq![s[n]] + s.remove(n)
}

/// Exchange positions `a` and `b`.
pub open spec fn swap_at(s: Seq<WindowId>, a: int, b: int) -> Seq<WindowId> {
    s.update(a, s[b]).update(b, s[a])
}

/// `new` is `old` with only the stack of `slot` replaced by `stack` (and the
/// focus history possibly changed as stated separately).
pub open spec fn stack_replaced(new: &Workspace, old: &Workspace, slot: Slot, stack: Seq<WindowId>) -> bool {
    &&& new.wf()
    &&& new.stack(slot) == stack
    &&& forall|s: Slot| s != slot ==> #[trigger] new.stack(s) == old.stack(s)
    &&& new.floating@ == old.floating@
    &&& new.fullscreen_stack@ == old.fullscreen_stack@
    &&& new.total_fullscreen_stack@ == old.total_fullscreen_stack@
    &&& new.col == old.col
    &&& new.row == old.row
    &&& new.name == old.name
}

impl Grid {
    /// The focused window, when it is registered.
    pub open spec fn focused_known(&self) -> Option<WindowId> {
        match self.focused_window {
            Some(id) => if self.has_window(id) {
                Some(id)
            } else {
                None
            },
            None => None,
        }
    }

    /// The focused window is not kept in a special workspace.
    pub open spec fn focus_placed(&self) -> bool {
        self.focused_known() matches Some(id) ==> self.win(id).workspace != special()
    }

    /// Only cell (c, r), the window at position `i` (now `w`), the focused
    /// window and the pending configures may differ from `old`.
    pub open spec fn one_cell_one_window(&self, old: &Grid, c: int, r: int, i: int, w: Window) -> bool {
        &&& self.cells_same_except(old, c, r)
        &&& self.windows@ == old.windows@.update(i, w)
        &&& self.focused == old.focused
        &&& self.history@ == old.history@
        &&& self.forward_history@ == old.forward_history@
        &&& self.settings_same(old)
    }

    /// Mutable access to cell (c, r); nothing else changes.
    pub fn cell_mut(&mut self, c: u8, r: u8) -> (ws: &mut Workspace)
        requires
            old(self).allocated(c as int, r as int),
        ensures
            *ws == old(self).ws_at(c as int, r as int),
            final(self).cells_same_except(old(self), c as int, r as int),
            final(self).ws_at(c as int, r as int) == *final(ws),
            final(self).windows@ == old(self).windows@,
            final(self).focused == old(self).focused,
            final(self).focused_window == old(self).focused_window,
            final(self).history@ == old(self).history@,
            final(self).forward_history@ == old(self).forward_history@,
            final(self).pending_configures@ == old(self).pending_configures@,
            final(self).settings_same(old(self)),
    {
        &mut self.workspaces[r as usize][c as usize]
    }

    /// Mutable access to the window at position `i`; nothing else changes.
    pub fn window_mut(&mut self, i: usize) -> (w: &mut Window)
        requires
            i < old(self).windows@.len(),
        ensures
            *w == old(self).windows@[i as int],
            final(self).windows@ == old(self).windows@.update(i as int, *final(w)),
            final(self).workspaces@ == old(self).workspaces@,
            final(self).focused == old(self).focused,
            final(self).focused_window == old(self).focused_window,
            final(self).history@ == old(self).history@,
            final(self).forward_history@ == old(self).forward_history@,
            final(self).pending_configures@ == old(self).pending_configures@,
            final(self).settings_same(old(self)),
    {
        &mut self.windows[i]
    }

    /// A cell change followed by a change that keeps the cells keeps the
    /// cell relation.
    pub proof fn lemma_cells_chain(a: &Grid, b: &Grid, d: &Grid, c: int, r: int)
        requires
            b.cells_same_except(a, c, r),
            d.workspaces@ == b.workspaces@,
        ensures
            d.cells_same_except(a, c, r),
            d.ws_at(c, r) == b.ws_at(c, r),
    {
        assert forall|c2: int, r2: int| d.allocated(c2, r2) && !(c2 == c && r2 == r)
            implies #[trigger] d.ws_at(c2, r2) == a.ws_at(c2, r2) by {
            assert(d.ws_at(c2, r2) == b.ws_at(c2, r2));
        }
    }

    /// The cell holding the focused window, for operations that require the
    /// focused window to be placed on the grid.
    proof fn lemma_focus_cell(&self, id: WindowId, i: int)
        requires
            self.wf(),
            self.focus_placed(),
            self.focused_window == Some(id),
            0 <= i < self.windows@.len(),
            self.windows@[i].id == id,
        ensures
            self.win(id) == self.windows@[i],
            self.win_index(id) == i,
            self.allocated(self.windows@[i].workspace.0 as int, self.windows@[i].workspace.1 as int),
            self.ws_at(self.windows@[i].workspace.0 as int, self.windows@[i].workspace.1 as int).wf(),
    {
        self.lemma_index_unique(i, id);
        assert(self.placed_or_special(self.windows@[i].workspace));
    }

    /// Re-establish well-formedness after changing one cell and one window
    /// that keeps its id and workspace.
    proof fn lemma_wf_one_cell(old: &Grid, new: &Grid, c: int, r: int, i: int)
        requires
            old.wf(),
            new.cells_same_except(old, c, r),
            new.allocated(c, r) ==> new.ws_at(c, r).wf(),
            0 <= i < old.windows@.len(),
            new.windows@.len() == old.windows@.len(),
            forall|k: int| 0 <= k < new.windows@.len() && k != i ==> new.windows@[k] == old.windows@[k],
            new.windows@[i].id == old.windows@[i].id,
            new.windows@[i].workspace == old.windows@[i].workspace,
            new.cols == old.cols,
            new.rows == old.rows,
            new.next_id == old.next_id,
            new.focused == old.focused,
            new.history@ == old.history@,
            new.forward_history@ == old.forward_history@,
        ensures
            new.wf(),
    {
        Grid::lemma_cells_after_change(old, new, c, r);
        assert(new.win_keys() =~= old.win_keys());
        Grid::lemma_wf_transfer(old, new);
    }

    /// `self` is `old` after window `id` (at position `i`, on cell (c, r))
    /// left the `from` list for the top of `slot`'s stack, becoming Tiled.
    pub open spec fn retiled(&self, old: &Grid, i: int, id: WindowId, c: int, r: int, from: WindowState, slot: Slot) -> bool {
        let ows = old.ws_at(c, r);
        let nws = self.ws_at(c, r);
        &&& self.pending_configures@ == old.pending_configures@.push(id)
        &&& self.focused_window == old.focused_window
        &&& self.one_cell_one_window(old, c, r, i, Window {
            current_state: WindowState::Tiled,
            current_slot: Some(slot),
            requested_state: WindowState::Tiled,
            ..old.windows@[i]
        })
        &&& nws.stack(slot) == seq![id] + ows.stack(slot)
        &&& forall|s: Slot| s != slot ==> #[trigger] nws.stack(s) == ows.stack(s)
        &&& nws.floating@ == (if from == WindowState::Floating { remove_id(ows.floating@, id) } else { ows.floating@ })
        &&& nws.fullscreen_stack@ == (if from == WindowState::Fullscreen { remove_id(ows.fullscreen_stack@, id) } else { ows.fullscreen_stack@ })
        &&& nws.total_fullscreen_stack@ == (if from == WindowState::TotalFullscreen {
            remove_id(ows.total_fullscreen_stack@, id)
        } else {
            ows.total_fullscreen_stack@
        })
        &&& nws.focus_history@ == ows.focus_history@
    }

    /// `self` is `old` after window `id` was taken off every list of its cell
    /// and put on top of the list of `state` (Floating: at the top of the
    /// floating layer, with its slot cleared), current and requested state
    /// both becoming `state`.
    pub open spec fn promoted(&self, old: &Grid, i: int, id: WindowId, c: int, r: int, state: WindowState) -> bool {
        let ows = old.ws_at(c, r);
        let nws = self.ws_at(c, r);
        let w = old.windows@[i];
        &&& self.pending_configures@ == old.pending_configures@.push(id)
        &&& self.focused_window == old.focused_window
        &&& self.one_cell_one_window(old, c, r, i, Window {
            current_state: state,
            requested_state: state,
            current_slot: if state == WindowState::Floating { None } else { w.current_slot },
            ..w
        })
        &&& forall|s: Slot| #[trigger] nws.stack(s) == remove_id(ows.stack(s), id)
        &&& nws.floating@ == (if state == WindowState::Floating {
            remove_id(ows.floating@, id).push(id)
        } else {
            remove_id(ows.floating@, id)
        })
        &&& nws.fullscreen_stack@ == (if state == WindowState::Fullscreen {
            seq![id] + remove_id(ows.fullscreen_stack@, id)
        } else {
            remove_id(ows.fullscreen_stack@, id)
        })
        &&& nws.total_fullscreen_stack@ == (if state == WindowState::TotalFullscreen {
            seq![id] + remove_id(ows.total_fullscreen_stack@, id)
        } else {
            remove_id(ows.total_fullscreen_stack@, id)
        })
        &&& nws.focus_history@ == ows.focus_history@
    }

    /// Toggle the focused window between Fullscreen and Tiled: Fullscreen
    /// goes back to its remembered slot (HalfLeft if none), TotalFullscreen
    /// steps down to Fullscreen, Tiled and Floating are promoted to Fullscreen.
    pub fn toggle_fullscreen(&mut self)
        requires
            old(self).wf(),
            old(self).focus_placed(),
        ensures
            final(self).wf(),
            old(self).focused_known() is None ==> *final(self) == *old(self),
            old(self).focused_known() matches Some(id) ==> {
                let i = old(self).win_index(id);
                let w = old(self).win(id);
                let (c, r) = (w.workspace.0 as int, w.workspace.1 as int);
                match w.current_state {
                    WindowState::Fullscreen => final(self).retiled(old(self), i, id, c, r, WindowState::Fullscreen,
                        match w.current_slot { Some(s) => s, None => Slot::HalfLeft }),
                    WindowState::TotalFullscreen => {
                        let ows = old(self).ws_at(c, r);
                        let nws = final(self).ws_at(c, r);
                        &&& final(self).pending_configures@ == old(self).pending_configures@.push(id)
                        &&& final(self).focused_window == old(self).focused_window
                        &&& final(self).one_cell_one_window(old(self), c, r, i, Window {
                            current_state: WindowState::Fullscreen,
                            ..w
                        })
                        &&& nws.total_fullscreen_stack@ == remove_id(ows.total_fullscreen_stack@, id)
                        &&& nws.fullscreen_stack@ == seq![id] + ows.fullscreen_stack@
                        &&& forall|s: Slot| #[trigger] nws.stack(s) == ows.stack(s)
                        &&& nws.floating@ == ows.floating@
                        &&& nws.focus_history@ == ows.focus_history@
                    },
                    _ => final(self).promoted(old(self), i, id, c, r, WindowState::Fullscreen),
                }
            },
    {
        let (i, id, c, r) = match self.focus_site() {
            Some(t) => t,
            None => return,
        };
        let current_state = self.windows[i].current_state;
        let current_slot = self.windows[i].current_slot;
        match current_state {
            WindowState::Fullscreen => {
                let slot = match current_slot {
                    Some(s) => s,
                    None => Slot::HalfLeft,
                };
                self.retile(i, id, c, r, WindowState::Fullscreen, slot);
            },
            WindowState::TotalFullscreen => self.tf_step_down(i, id, c, r),
            _ => self.promote_as(i, id, c, r, WindowState::Fullscreen),
        }
    }

    /// Toggle the focused window between TotalFullscreen and Tiled:
    /// TotalFullscreen goes back to its remembered slot (HalfLeft if none),
    /// anything else is promoted to TotalFullscreen.
    pub fn toggle_total_fullscreen(&mut self)
        requires
            old(self).wf(),
            old(self).focus_placed(),
        ensures
            final(self).wf(),
            old(self).focused_known() is None ==> *final(self) == *old(self),
            old(self).focused_known() matches Some(id) ==> {
                let i = old(self).win_index(id);
                let w = old(self).win(id);
                let (c, r) = (w.workspace.0 as int, w.workspace.1 as int);
                if w.current_state == WindowState::TotalFullscreen {
                    final(self).retiled(old(self), i, id, c, r, WindowState::TotalFullscreen,
                        match w.current_slot { Some(s) => s, None => Slot::HalfLeft })
                } else {
                    final(self).promoted(old(self), i, id, c, r, WindowState::TotalFullscreen)
                }
            },
    {
        let (i, id, c, r) = match self.focus_site() {
            Some(t) => t,
            None => return,
        };
        let current_state = self.windows[i].current_state;
        let current_slot = self.windows[i].current_slot;
        match current_state {
            WindowState::TotalFullscreen => {
                let slot = match current_slot {
                    Some(s) => s,
                    None => Slot::HalfLeft,
                };
                self.retile(i, id, c, r, WindowState::TotalFullscreen, slot);
            },
            _ => self.promote_as(i, id, c, r, WindowState::TotalFullscreen),
        }
    }

    /// Toggle the focused window between Floating and Tiled: Floating goes to
    /// its requested slot (HalfLeft if none), anything else floats.
    pub fn toggle_floating(&mut self)
        requires
            old(self).wf(),
            old(self).focus_placed(),
        ensures
            final(self).wf(),
            old(self).focused_known() is None ==> *final(self) == *old(self),
            old(self).focused_known() matches Some(id) ==> {
                let i = old(self).win_index(id);
                let w = old(self).win(id);
                let (c, r) = (w.workspace.0 as int, w.workspace.1 as int);
                if w.current_state == WindowState::Floating {
                    final(self).retiled(old(self), i, id, c, r, WindowState::Floating,
                        match w.requested_slot { Some(s) => s, None => Slot::HalfLeft })
                } else {
                    final(self).promoted(old(self), i, id, c, r, WindowState::Floating)
                }
            },
    {
        let (i, id, c, r) = match self.focus_site() {
            Some(t) => t,
            None => return,
        };
        let current_state = self.windows[i].current_state;
        let requested_slot = self.windows[i].requested_slot;
        match current_state {
            WindowState::Floating => {
                let slot = match requested_slot {
                    Some(s) => s,
                    None => Slot::HalfLeft,
                };
                self.retile(i, id, c, r, WindowState::Floating, slot);
            },
            _ => self.promote_as(i, id, c, r, WindowState::Floating),
        }
    }

    /// Position, id and cell of the focused window, when it is registered.
    pub fn focus_site(&self) -> (t: Option<(usize, WindowId, u8, u8)>)
        requires
            self.wf(),
            self.focus_placed(),
        ensures
            self.focused_known() is None <==> t is None,
            t matches Some(t) ==> {
                &&& self.focused_known() == Some(t.1)
                &&& t.0 == self.win_index(t.1)
                &&& t.0 < self.windows@.len()
                &&& self.windows@[t.0 as int].id == t.1
                &&& self.windows@[t.0 as int].workspace == (t.2, t.3)
                &&& self.allocated(t.2 as int, t.3 as int)
                &&& self.ws_at(t.2 as int, t.3 as int).wf()
            },
    {
        let id = match self.focused_window {
            Some(id) => id,
            None => return None,
        };
        let i = match self.find_window(id) {
            Some(i) => i,
            None => return None,
        };
        proof {
            self.lemma_focus_cell(id, i as int);
        }
        let (c, r) = self.windows[i].workspace;
        Some((i, id, c, r))
    }

    /// Move window `id` from the `from` list to the top of `slot`'s stack as Tiled.
    fn retile(&mut self, i: usize, id: WindowId, c: u8, r: u8, from: WindowState, slot: Slot)
        requires
            old(self).wf(),
            i < old(self).windows@.len(),
            old(self).windows@[i as int].id == id,
            old(self).windows@[i as int].workspace == (c, r),
            old(self).allocated(c as int, r as int),
            from != WindowState::Tiled,
        ensures
            final(self).wf(),
            final(self).retiled(old(self), i as int, id, c as int, r as int, from, slot),
    {
        proof {
            assert(old(self).ws_at(c as int, r as int).wf());
        }
        self.cell_mut(c, r).retile_from(from, slot, id);
        let ghost s1 = *self;
        let w = self.window_mut(i);
        w.current_state = WindowState::Tiled;
        w.current_slot = Some(slot);
        w.requested_state = WindowState::Tiled;
        self.pending_configures.push(id);
        proof {
            Grid::lemma_cells_chain(old(self), &s1, self, c as int, r as int);
            Grid::lemma_wf_one_cell(old(self), self, c as int, r as int, i as int);
        }
    }

    /// Step down: TotalFullscreen to Fullscreen.
    fn tf_step_down(&mut self, i: usize, id: WindowId, c: u8, r: u8)
        requires
            old(self).wf(),
            i < old(self).windows@.len(),
            old(self).windows@[i as int].id == id,
            old(self).windows@[i as int].workspace == (c, r),
            old(self).allocated(c as int, r as int),
        ensures
            final(self).wf(),
            final(self).focused_window == old(self).focused_window,
            final(self).pending_configures@ == old(self).pending_configures@.push(id),
            final(self).one_cell_one_window(old(self), c as int, r as int, i as int, Window {
                current_state: WindowState::Fullscreen,
                ..old(self).windows@[i as int]
            }),
            ({
                let ows = old(self).ws_at(c as int, r as int);
                let nws = final(self).ws_at(c as int, r as int);
                &&& nws.total_fullscreen_stack@ == remove_id(ows.total_fullscreen_stack@, id)
                &&& nws.fullscreen_stack@ == seq![id] + ows.fullscreen_stack@
                &&& forall|s: Slot| #[trigger] nws.stack(s) == ows.stack(s)
                &&& nws.floating@ == ows.floating@
                &&& nws.focus_history@ == ows.focus_history@
            }),
    {
        proof {
            assert(old(self).ws_at(c as int, r as int).wf());
        }
        self.cell_mut(c, r).step_down_total(id);
        let ghost s1 = *self;
        let w = self.window_mut(i);
        w.current_state = WindowState::Fullscreen;
        self.pending_configures.push(id);
        proof {
            Grid::lemma_cells_chain(old(self), &s1, self, c as int, r as int);
            Grid::lemma_wf_one_cell(old(self), self, c as int, r as int, i as int);
        }
    }

    /// Take window `id` off every list of its cell and put it on the list of
    /// `state`, which becomes its current and requested state.
    fn promote_as(&mut self, i: usize, id: WindowId, c: u8, r: u8, state: WindowState)
        requires
            old(self).wf(),
            i < old(self).windows@.len(),
            old(self).windows@[i as int].id == id,
            old(self).windows@[i as int].workspace == (c, r),
            old(self).allocated(c as int, r as int),
            state != WindowState::Tiled,
        ensures
            final(self).wf(),
            final(self).promoted(old(self), i as int, id, c as int, r as int, state),
    {
        proof {
            assert(old(self).ws_at(c as int, r as int).wf());
        }
        self.cell_mut(c, r).reattach(state, id);
        let ghost s1 = *self;
        let w = self.window_mut(i);
        w.current_state = state;
        w.requested_state = state;
        if state == WindowState::Floating {
            w.current_slot = None;
        }
        self.pending_configures.push(id);
        proof {
            Grid::lemma_cells_chain(old(self), &s1, self, c as int, r as int);
            Grid::lemma_wf_one_cell(old(self), self, c as int, r as int, i as int);
        }
    }
}

impl Grid {
    /// The focused window with a slot: (position, id, cell column, cell row, slot).
    pub open spec fn stack_site(&self) -> Option<(int, WindowId, int, int, Slot)> {
        match self.focused_known() {
            Some(id) => {
                let w = self.win(id);
                match w.current_slot {
                    Some(slot) => Some((self.win_index(id), id, w.workspace.0 as int, w.workspace.1 as int, slot)),
                    None => None,
                }
            },
            None => None,
        }
    }

    /// `self` is `old` with the stack of `slot` on cell (c, r) replaced by
    /// `st`; when `top` is Some(t) the focus moves to t, recorded in the
    /// cell's focus history if `record`.
    pub open spec fn restacked(&self, old: &Grid, c: int, r: int, slot: Slot, st: Seq<WindowId>, top: Option<WindowId>, record: bool) -> bool {
        let ows = old.ws_at(c, r);
        let nws = self.ws_at(c, r);
        &&& self.cells_same_except(old, c, r)
        &&& nws.stack(slot) == st
        &&& forall|s: Slot| s != slot ==> #[trigger] nws.stack(s) == ows.stack(s)
        &&& nws.floating@ == ows.floating@
        &&& nws.fullscreen_stack@ == ows.fullscreen_stack@
        &&& nws.total_fullscreen_stack@ == ows.total_fullscreen_stack@
        &&& nws.col == ows.col && nws.row == ows.row && nws.name == ows.name
        &&& nws.focus_history@ == (match top {
            Some(t) => if record { seq![t] + remove_id(ows.focus_history@, t) } else { ows.focus_history@ },
            None => ows.focus_history@,
        })
        &&& self.focused_window == (match top { Some(t) => Some(t), None => old.focused_window })
        &&& self.windows@ == old.windows@
        &&& self.focused == old.focused
        &&& self.history@ == old.history@
        &&& self.forward_history@ == old.forward_history@
        &&& self.pending_configures@ == old.pending_configures@
        &&& self.settings_same(old)
    }

    /// Replace a stack and move the focus.
    fn restack(&mut self, c: u8, r: u8, slot: Slot, v: Vec<WindowId>, top: Option<WindowId>, record: bool)
        requires
            old(self).wf(),
            old(self).allocated(c as int, r as int),
        ensures
            final(self).wf(),
            final(self).restacked(old(self), c as int, r as int, slot, v@, top, record),
    {
        proof {
            assert(old(self).ws_at(c as int, r as int).wf());
        }
        let ghost vv = v@;
        self.cell_mut(c, r).replace_stack(slot, v);
        let ghost s1 = *self;
        match top {
            Some(t) => {
                self.focused_window = Some(t);
                if record {
                    let ghost s2 = *self;
                    self.cell_mut(c, r).record_focus(t);
                    proof {
                        Grid::lemma_cells_chain(old(self), &s1, &s2, c as int, r as int);
                        assert(self.cells_same_except(&s2, c as int, r as int));
                        assert forall|c2: int, r2: int| self.allocated(c2, r2) && !(c2 == c && r2 == r)
                            implies #[trigger] self.ws_at(c2, r2) == old(self).ws_at(c2, r2) by {
                            assert(self.ws_at(c2, r2) == s2.ws_at(c2, r2));
                            assert(s2.ws_at(c2, r2) == old(self).ws_at(c2, r2));
                        }
                        assert forall|s: Slot| s != slot implies #[trigger] self.ws_at(c as int, r as int).stack(s)
                            == old(self).ws_at(c as int, r as int).stack(s) by {
                            assert(s2.ws_at(c as int, r as int).stack(s) == old(self).ws_at(c as int, r as int).stack(s));
                        }
                    }
                }
            },
            None => {},
        }
        proof {
            if !(top is Some && record) {
                Grid::lemma_cells_chain(old(self), &s1, self, c as int, r as int);
            }
            assert(self.ws_at(c as int, r as int).wf());
            Grid::lemma_cells_after_change(old(self), self, c as int, r as int);
            assert(self.win_keys() =~= old(self).win_keys());
            Grid::lemma_wf_transfer(old(self), self);
        }
    }

    /// Copy of the stack of `slot` on cell (c, r).
    fn stack_copy(&self, c: u8, r: u8, slot: Slot) -> (v: Vec<WindowId>)
        requires
            self.wf(),
            self.allocated(c as int, r as int),
        ensures
            v@ == self.ws_at(c as int, r as int).stack(slot),
    {
        proof {
            assert(self.ws_at(c as int, r as int).wf());
        }
        let stack = &self.ws(c, r).slots[slot.index()];
        let mut v: Vec<WindowId> = Vec::new();
        let mut k: usize = 0;
        while k < stack.len()
            invariant
                k <= stack@.len(),
                v@ == stack@.take(k as int),
            decreases stack.len() - k,
        {
            v.push(stack[k]);
            assert(v@ =~= stack@.take(k as int + 1));
            k += 1;
        }
        assert(stack@.take(stack@.len() as int) =~= stack@);
        v
    }

    /// The focused window with a slot, located.
    fn stack_site_exec(&self) -> (t: Option<(usize, WindowId, u8, u8, Slot)>)
        requires
            self.wf(),
            self.focus_placed(),
        ensures
            match self.stack_site() {
                None => t is None,
                Some(s) => t matches Some(t) && t.0 == s.0 && t.1 == s.1 && t.2 == s.2 && t.3 == s.3 && t.4 == s.4
                    && self.allocated(t.2 as int, t.3 as int) && t.0 < self.windows@.len()
                    && self.windows@[t.0 as int].id == t.1,
            },
    {
        let (i, id, c, r) = match self.focus_site() {
            Some(t) => t,
            None => return None,
        };
        match self.windows[i].current_slot {
            Some(slot) => Some((i, id, c, r, slot)),
            None => None,
        }
    }

    /// Jump directly to stack position `n` (0 = top); no-op if out of bounds.
    pub fn stack_flip(&mut self, n: u32)
        requires
            old(self).wf(),
            old(self).focus_placed(),
        ensures
            final(self).wf(),
            match old(self).stack_site() {
                None => *final(self) == *old(self),
                Some((i, id, c, r, slot)) => {
                    let st = old(self).ws_at(c, r).stack(slot);
                    if n >= st.len() {
                        *final(self) == *old(self)
                    } else {
                        final(self).restacked(old(self), c, r, slot, flip_to_top(st, n as int), Some(st[n as int]), true)
                    }
                },
            },
    {
        let (_i, _id, c, r, slot) = match self.stack_site_exec() {
            Some(t) => t,
            None => return,
        };
        let mut v = self.stack_copy(c, r, slot);
        let n = n as usize;
        if n >= v.len() {
            return;
        }
        let target = v.remove(n);
        v.insert(0, target);
        let ghost st = old(self).ws_at(c as int, r as int).stack(slot);
        assert(v@ =~= flip_to_top(st, n as int));
        let new_top = v[0];
        self.restack(c, r, slot, v, Some(new_top), true);
    }

    /// Rotate the focused slot's stack so the next window becomes the top.
    pub fn stack_next(&mut self)
        requires
            old(self).wf(),
            old(self).focus_placed(),
        ensures
            final(self).wf(),
            match old(self).stack_site() {
                None => *final(self) == *old(self),
                Some((i, id, c, r, slot)) => {
                    let st = old(self).ws_at(c, r).stack(slot);
                    if st.len() < 2 {
                        *final(self) == *old(self)
                    } else {
                        final(self).restacked(old(self), c, r, slot, rotate_next(st), Some(st[1]), true)
                    }
                },
            },
    {
        let (_i, _id, c, r, slot) = match self.stack_site_exec() {
            Some(t) => t,
            None => return,
        };
        let mut v = self.stack_copy(c, r, slot);
        if v.len() < 2 {
            return;
        }
        let first = v.remove(0);
        v.push(first);
        let ghost st = old(self).ws_at(c as int, r as int).stack(slot);
        assert(v@ =~= rotate_next(st));
        let new_top = v[0];
        self.restack(c, r, slot, v, Some(new_top), true);
    }

    /// Rotate the focused slot's stack so the bottom window becomes the top.
    pub fn stack_prev(&mut self)
        requires
            old(self).wf(),
            old(self).focus_placed(),
        ensures
            final(self).wf(),
            match old(self).stack_site() {
                None => *final(self) == *old(self),
                Some((i, id, c, r, slot)) => {
                    let st = old(self).ws_at(c, r).stack(slot);
                    if st.len() < 2 {
                        *final(self) == *old(self)
                    } else {
                        final(self).restacked(old(self), c, r, slot, rotate_prev(st), Some(st.last()), true)
                    }
                },
            },
    {
        let (_i, _id, c, r, slot) = match self.stack_site_exec() {
            Some(t) => t,
            None => return,
        };
        let mut v = self.stack_copy(c, r, slot);
        if v.len() < 2 {
            return;
        }
        let last = match v.pop() {
            Some(x) => x,
            None => return,
        };
        v.insert(0, last);
        let ghost st = old(self).ws_at(c as int, r as int).stack(slot);
        assert(v@ =~= rotate_prev(st));
        let new_top = v[0];
        self.restack(c, r, slot, v, Some(new_top), true);
    }

    /// Move the focused window to the top of its slot's stack, focusing it.
    pub fn stack_promote(&mut self)
        requires
            old(self).wf(),
            old(self).focus_placed(),
        ensures
            final(self).wf(),
            match old(self).stack_site() {
                None => *final(self) == *old(self),
                Some((i, id, c, r, slot)) => {
                    let st = old(self).ws_at(c, r).stack(slot);
                    let pos = st.index_of_first(id);
                    let new_st = match pos {
                        Some(p) => if p > 0 { flip_to_top(st, p) } else { st },
                        None => st,
                    };
                    final(self).restacked(old(self), c, r, slot, new_st, Some(id), true)
                },
            },
    {
        let (_i, id, c, r, slot) = match self.stack_site_exec() {
            Some(t) => t,
            None => return,
        };
        let mut v = self.stack_copy(c, r, slot);
        let ghost st = v@;
        let pos = crate::seqs::position_of(&v, id);
        proof {
            match pos {
                Some(p) => {
                    st.index_of_first_ensures(id);
                    assert(st.index_of_first(id) == Some(p as int));
                },
                None => {
                    st.index_of_first_ensures(id);
                },
            }
        }
        if let Some(p) = pos {
            if p > 0 {
                v.remove(p);
                v.insert(0, id);
                assert(v@ =~= flip_to_top(st, p as int));
            }
        }
        self.restack(c, r, slot, v, Some(id), true);
    }

    /// Move the focused window one place toward the top of its slot's stack;
    /// the stack's top becomes the focused window.
    pub fn stack_move_up(&mut self)
        requires
            old(self).wf(),
            old(self).focus_placed(),
        ensures
            final(self).wf(),
            match old(self).stack_site() {
                None => *final(self) == *old(self),
                Some((i, id, c, r, slot)) => {
                    let st = old(self).ws_at(c, r).stack(slot);
                    match st.index_of_first(id) {
                        Some(p) => if p > 0 {
                            let new_st = swap_at(st, p, p - 1);
                            final(self).restacked(old(self), c, r, slot, new_st, Some(new_st[0]), false)
                        } else {
                            *final(self) == *old(self)
                        },
                        None => *final(self) == *old(self),
                    }
                },
            },
    {
        let (_i, id, c, r, slot) = match self.stack_site_exec() {
            Some(t) => t,
            None => return,
        };
        let mut v = self.stack_copy(c, r, slot);
        let ghost st = v@;
        let pos = crate::seqs::position_of(&v, id);
        proof {
            st.index_of_first_ensures(id);
            if let Some(p) = pos {
                assert(st.index_of_first(id) == Some(p as int));
            }
        }
        if let Some(p) = pos {
            if p > 0 {
                let a = v[p];
                let b = v[p - 1];
                v.set(p, b);
                v.set(p - 1, a);
                assert(v@ =~= swap_at(st, p as int, p as int - 1));
                // Re-focus the top of the stack.
                let top = v[0];
                self.restack(c, r, slot, v, Some(top), false);
            }
        }
    }

    /// Move the focused window one place toward the bottom of its slot's
    /// stack; the window now on top becomes the focused one.
    pub fn stack_move_down(&mut self)
        requires
            old(self).wf(),
            old(self).focus_placed(),
        ensures
            final(self).wf(),
            match old(self).stack_site() {
                None => *final(self) == *old(self),
                Some((i, id, c, r, slot)) => {
                    let st = old(self).ws_at(c, r).stack(slot);
                    match st.index_of_first(id) {
                        Some(p) => if p + 1 < st.len() {
                            let new_st = swap_at(st, p, p + 1);
                            final(self).restacked(old(self), c, r, slot, new_st, Some(new_st[0]), true)
                        } else {
                            *final(self) == *old(self)
                        },
                        None => *final(self) == *old(self),
                    }
                },
            },
    {
        let (_i, id, c, r, slot) = match self.stack_site_exec() {
            Some(t) => t,
            None => return,
        };
        let mut v = self.stack_copy(c, r, slot);
        let ghost st = v@;
        let pos = crate::seqs::position_of(&v, id);
        proof {
            st.index_of_first_ensures(id);
            if let Some(p) = pos {
                assert(st.index_of_first(id) == Some(p as int));
            }
        }
        if let Some(p) = pos {
            if p < v.len() - 1 {
                let a = v[p];
                let b = v[p + 1];
                v.set(p, b);
                v.set(p + 1, a);
                assert(v@ =~= swap_at(st, p as int, p as int + 1));
                let top = v[0];
                self.restack(c, r, slot, v, Some(top), true);
            }
        }
    }
}

} // verus!
