//! Focus changes and workspace navigation.
use vstd::prelude::*;

use super::focus::{spatial_focus, spatial_focus_spec, FocusDirection};
use super::window::{Slot, WindowId};
use super::workspace::Workspace;
use super::{special, Grid, Window};

verus! {

/// Drop the oldest entry once a history grows past 64 entries.
pub open spec fn trim64(s: Seq<(u8, u8)>) -> Seq<(u8, u8)> {
    if s.len() > 64 {
        s.drop_last()
    } else {
        s
    }
}

/// `w` with `is_urgent` cleared.
pub open spec fn unurgent(w: Window) -> Window {
    Window { is_urgent: false, ..w }
}

impl Grid {
    /// The neighbouring cell of (col, row) toward `dir`, wrapping where enabled.
    pub open spec fn step(&self, col: u8, row: u8, dir: FocusDirection) -> Option<(u8, u8)> {
        match dir {
            FocusDirection::Left => if col > 0 {
                Some(((col - 1) as u8, row))
            } else if self.wrap_x {
                Some(((self.cols - 1) as u8, row))
            } else {
                None
            },
            FocusDirection::Right => if col + 1 < self.cols {
                Some(((col + 1) as u8, row))
            } else if self.wrap_x {
                Some((0u8, row))
            } else {
                None
            },
            FocusDirection::Up => if row > 0 {
                Some((col, (row - 1) as u8))
            } else if self.wrap_y {
                Some((col, (self.rows - 1) as u8))
            } else {
                None
            },
            FocusDirection::Down => if row + 1 < self.rows {
                Some((col, (row + 1) as u8))
            } else if self.wrap_y {
                Some((col, 0u8))
            } else {
                None
            },
        }
    }

    /// `self` is `old` after switching the focused workspace to `coords`.
    pub open spec fn switched_to(&self, old: &Grid, coords: (u8, u8)) -> bool {
        if coords == old.focused {
            &&& self.focused == old.focused
            &&& self.focused_window == old.focused_window
            &&& self.history@ == old.history@
            &&& self.forward_history@ == old.forward_history@
        } else {
            &&& self.focused == coords
            &&& self.history@ == trim64(seq![old.focused] + old.history@)
            &&& self.forward_history@.len() == 0
            &&& self.focused_window == old.last_focused_at(coords.0 as int, coords.1 as int)
        }
    }

    /// `self` is `old` after going back to the most recent cell of the
    /// history (nothing happens on an empty history): the cell left goes on
    /// the forward history, and the focus goes to the front of the
    /// entered cell's focus history.
    pub open spec fn went_back(&self, old: &Grid) -> bool {
        if old.history@.len() == 0 {
            *self == *old
        } else {
            let prev = old.history@[0];
            &&& self.focused == prev
            &&& self.history@ == old.history@.drop_first()
            &&& self.forward_history@ == trim64(seq![old.focused] + old.forward_history@)
            &&& self.focused_window == old.last_focused_at(prev.0 as int, prev.1 as int)
        }
    }

    /// `self` is `old` after going forward to the front of the forward
    /// history (nothing happens when it is empty): the cell left goes on
    /// the history, and the focus goes to the front of the entered cell's
    /// focus history.
    pub open spec fn went_forward(&self, old: &Grid) -> bool {
        if old.forward_history@.len() == 0 {
            *self == *old
        } else {
            let next = old.forward_history@[0];
            &&& self.focused == next
            &&& self.forward_history@ == old.forward_history@.drop_first()
            &&& self.history@ == trim64(seq![old.focused] + old.history@)
            &&& self.focused_window == old.last_focused_at(next.0 as int, next.1 as int)
        }
    }

    /// Only the focus fields and histories changed.
    pub open spec fn only_focus_changed(&self, old: &Grid) -> bool {
        &&& self.workspaces@ == old.workspaces@
        &&& self.windows@ == old.windows@
        &&& self.pending_configures@ == old.pending_configures@
        &&& self.settings_same(old)
    }

    /// A step from a cell of the grid stays inside the grid.
    pub proof fn lemma_step_in_grid(&self, col: u8, row: u8, dir: FocusDirection)
        requires
            self.wf(),
            col < self.cols,
            row < self.rows,
        ensures
            self.step(col, row, dir) matches Some(t) ==> self.in_grid(t) && self.allocated(t.0 as int, t.1 as int),
    {
        if let Some(t) = self.step(col, row, dir) {
            assert(self.workspaces@[t.1 as int]@.len() >= self.cols);
        }
    }

    /// The step from the focused cell toward `dir` leads to an existing cell
    /// (always so when the focused cell is inside the grid).
    pub open spec fn step_ok(&self, dir: FocusDirection) -> bool {
        self.step(self.focused.0, self.focused.1, dir) matches Some(t) ==> self.allocated(t.0 as int, t.1 as int)
    }

    /// Set focus to `id`, clearing its urgency and recording it in its
    /// workspace's focus history.
    #[verifier::rlimit(30)]
    pub fn set_focus(&mut self, id: WindowId)
        requires
            old(self).wf(),
        ensures
            final(self).wf(),
            final(self).settings_same(old(self)),
            final(self).pending_configures@ == old(self).pending_configures@,
            final(self).history@ == old(self).history@,
            final(self).forward_history@ == old(self).forward_history@,
            final(self).focused == old(self).focused,
            !old(self).has_window(id) ==> {
                &&& final(self).workspaces@ == old(self).workspaces@
                &&& final(self).windows@ == old(self).windows@
                &&& final(self).focused_window == old(self).focused_window
            },
            old(self).has_window(id) ==> {
                let i = old(self).win_index(id);
                let w = old(self).win(id).workspace;
                &&& final(self).focused_window == Some(id)
                &&& final(self).windows@ == old(self).windows@.update(i, unurgent(old(self).win(id)))
                &&& w == special() ==> final(self).workspaces@ == old(self).workspaces@
                &&& w != special() ==> {
                    &&& final(self).cells_same_except(old(self), w.0 as int, w.1 as int)
                    &&& final(self).ws_at(w.0 as int, w.1 as int).focus_recorded(&old(self).ws_at(w.0 as int, w.1 as int), id)
                }
            },
    {
        let i = match self.find_window(id) {
            Some(i) => i,
            None => return,
        };
        let ws_coords = self.windows[i].workspace;
        self.focused_window = Some(id);
        self.windows[i].is_urgent = false;
        assert(self.windows@ =~= old(self).windows@.update(i as int, unurgent(old(self).win(id))));
        if ws_coords.0 != 255 {
            proof {
                assert(old(self).placed_or_special(old(self).windows@[i as int].workspace));
                assert(old(self).allocated(ws_coords.0 as int, ws_coords.1 as int));
                assert(old(self).ws_at(ws_coords.0 as int, ws_coords.1 as int).wf());
            }
            self.workspaces[ws_coords.1 as usize][ws_coords.0 as usize].record_focus(id);
            proof {
                assert(self.cells_same_except(old(self), ws_coords.0 as int, ws_coords.1 as int));
                assert(self.win_keys() =~= old(self).win_keys());
                Grid::lemma_cells_after_change(old(self), self, ws_coords.0 as int, ws_coords.1 as int);
                Grid::lemma_wf_transfer(old(self), self);
            }
        } else {
            assert(ws_coords == special()) by {
                assert(old(self).placed_or_special(old(self).windows@[i as int].workspace));
                if ws_coords != special() {
                    assert(old(self).workspaces@[ws_coords.1 as int]@.len() <= 255);
                }
            }
        }
        proof {
            assert(self.win_keys() =~= old(self).win_keys());
            if ws_coords.0 == 255 {
                Grid::lemma_wf_windows_only(old(self), self);
            }
        }
    }

    /// Switch the focused workspace to `coords`.
    pub fn switch_workspace(&mut self, coords: (u8, u8))
        requires
            old(self).wf(),
            old(self).allocated(coords.0 as int, coords.1 as int),
        ensures
            final(self).wf(),
            final(self).only_focus_changed(old(self)),
            final(self).switched_to(old(self), coords),
    {
        if coords.0 == self.focused.0 && coords.1 == self.focused.1 {
            return;
        }
        let old_focus = self.focused;
        self.history.insert(0, old_focus);
        if self.history.len() > 64 {
            self.history.pop();
        }
        assert(self.history@ =~= trim64(seq![old_focus] + old(self).history@));
        // A manual switch clears the forward stack.
        self.forward_history.clear();
        self.focused = coords;
        // Restore focus to the last-focused window of the new workspace.
        let ws = self.ws(coords.0, coords.1);
        self.focused_window = if ws.focus_history.len() > 0 {
            Some(ws.focus_history[0])
        } else {
            None
        };
        proof {
            assert forall|i: int| 0 <= i < self.history@.len() implies self.allocated(#[trigger] self.history@[i].0 as int, self.history@[i].1 as int) by {
                if i > 0 {
                    assert(self.history@[i] == old(self).history@[i - 1]);
                }
            }
            Grid::lemma_wf_refocus(old(self), self);
        }
    }

    /// Go back to the previous workspace in the navigation history.
    pub fn workspace_back(&mut self)
        requires
            old(self).wf(),
        ensures
            final(self).wf(),
            final(self).only_focus_changed(old(self)),
            final(self).went_back(old(self)),
    {
        if self.history.len() > 0 {
            let prev = self.history.remove(0);
            let current = self.focused;
            self.forward_history.insert(0, current);
            if self.forward_history.len() > 64 {
                self.forward_history.pop();
            }
            assert(self.forward_history@ =~= trim64(seq![current] + old(self).forward_history@));
            assert(self.history@ =~= old(self).history@.drop_first());
            proof {
                assert(old(self).allocated(old(self).history@[0].0 as int, old(self).history@[0].1 as int));
            }
            self.focused = prev;
            let ws = self.ws(prev.0, prev.1);
            self.focused_window = if ws.focus_history.len() > 0 {
                Some(ws.focus_history[0])
            } else {
                None
            };
            proof {
                assert forall|i: int| 0 <= i < self.history@.len() implies self.allocated(#[trigger] self.history@[i].0 as int, self.history@[i].1 as int) by {
                    assert(self.history@[i] == old(self).history@[i + 1]);
                }
                assert forall|i: int| 0 <= i < self.forward_history@.len() implies self.allocated(#[trigger] self.forward_history@[i].0 as int, self.forward_history@[i].1 as int) by {
                    if i > 0 {
                        assert(self.forward_history@[i] == old(self).forward_history@[i - 1]);
                    }
                }
                Grid::lemma_wf_refocus(old(self), self);
            }
        }
    }

    /// Go forward again after `workspace_back`.
    pub fn workspace_forward(&mut self)
        requires
            old(self).wf(),
        ensures
            final(self).wf(),
            final(self).only_focus_changed(old(self)),
            final(self).went_forward(old(self)),
    {
        if self.forward_history.len() > 0 {
            let next = self.forward_history.remove(0);
            let current = self.focused;
            self.history.insert(0, current);
            if self.history.len() > 64 {
                self.history.pop();
            }
            assert(self.history@ =~= trim64(seq![current] + old(self).history@));
            assert(self.forward_history@ =~= old(self).forward_history@.drop_first());
            proof {
                assert(old(self).allocated(old(self).forward_history@[0].0 as int, old(self).forward_history@[0].1 as int));
            }
            self.focused = next;
            let ws = self.ws(next.0, next.1);
            self.focused_window = if ws.focus_history.len() > 0 {
                Some(ws.focus_history[0])
            } else {
                None
            };
            proof {
                assert forall|i: int| 0 <= i < self.forward_history@.len() implies self.allocated(#[trigger] self.forward_history@[i].0 as int, self.forward_history@[i].1 as int) by {
                    assert(self.forward_history@[i] == old(self).forward_history@[i + 1]);
                }
                assert forall|i: int| 0 <= i < self.history@.len() implies self.allocated(#[trigger] self.history@[i].0 as int, self.history@[i].1 as int) by {
                    if i > 0 {
                        assert(self.history@[i] == old(self).history@[i - 1]);
                    }
                }
                Grid::lemma_wf_refocus(old(self), self);
            }
        }
    }

    /// The cell one step toward `direction` from (col, row).
    pub fn step_from(&self, col: u8, row: u8, direction: FocusDirection) -> (r: Option<(u8, u8)>)
        requires
            self.wf(),
            self.allocated(col as int, row as int),
        ensures
            r == self.step(col, row, direction),
    {
        proof {
            assert(self.workspaces@[row as int]@.len() <= 255);
        }
        match direction {
            FocusDirection::Left => {
                if col > 0 {
                    Some((col - 1, row))
                } else if self.wrap_x {
                    Some((self.cols - 1, row))
                } else {
                    None
                }
            },
            FocusDirection::Right => {
                if col + 1 < self.cols {
                    Some((col + 1, row))
                } else if self.wrap_x {
                    Some((0, row))
                } else {
                    None
                }
            },
            FocusDirection::Up => {
                if row > 0 {
                    Some((col, row - 1))
                } else if self.wrap_y {
                    Some((col, self.rows - 1))
                } else {
                    None
                }
            },
            FocusDirection::Down => {
                if row + 1 < self.rows {
                    Some((col, row + 1))
                } else if self.wrap_y {
                    Some((col, 0))
                } else {
                    None
                }
            },
        }
    }

    /// Move to the neighbouring workspace toward `direction`; stops at the
    /// edges unless wrapping is enabled on that axis.
    pub fn navigate(&mut self, direction: FocusDirection)
        requires
            old(self).wf(),
            old(self).step_ok(direction),
        ensures
            final(self).wf(),
            final(self).only_focus_changed(old(self)),
            match old(self).step(old(self).focused.0, old(self).focused.1, direction) {
                Some(t) => final(self).switched_to(old(self), t),
                None => *final(self) == *old(self),
            },
    {
        let (col, row) = self.focused;
        let target = self.step_from(col, row, direction);
        match target {
            Some(t) => self.switch_workspace(t),
            None => {},
        }
    }

    /// The window the focus would move to within the focused workspace.
    pub open spec fn focus_move_target(&self, direction: FocusDirection) -> Option<WindowId> {
        match self.focused_window {
            Some(id) => if self.has_window(id) {
                match self.win(id).current_slot {
                    Some(slot) => spatial_focus_spec(
                        &self.ws_at(self.focused.0 as int, self.focused.1 as int),
                        slot,
                        direction,
                    ),
                    None => None,
                }
            } else {
                None
            },
            None => None,
        }
    }

    /// Move keyboard focus toward `direction` within the focused workspace, or
    /// across to the neighbouring workspace when nothing lies that way and
    /// cross-workspace focus is on.
    pub fn move_focus(&mut self, direction: FocusDirection)
        requires
            old(self).wf(),
            old(self).step_ok(direction),
        ensures
            final(self).wf(),
            match old(self).focus_move_target(direction) {
                Some(n) => {
                    let (c, r) = (old(self).focused.0 as int, old(self).focused.1 as int);
                    &&& final(self).focused_window == Some(n)
                    &&& final(self).cells_same_except(old(self), c, r)
                    &&& final(self).ws_at(c, r).focus_recorded(&old(self).ws_at(c, r), n)
                    &&& final(self).windows@ == old(self).windows@
                    &&& final(self).focused == old(self).focused
                    &&& final(self).history@ == old(self).history@
                    &&& final(self).forward_history@ == old(self).forward_history@
                    &&& final(self).pending_configures@ == old(self).pending_configures@
                    &&& final(self).settings_same(old(self))
                },
                None => if old(self).cross_workspace_focus {
                    &&& final(self).only_focus_changed(old(self))
                    &&& match old(self).step(old(self).focused.0, old(self).focused.1, direction) {
                        Some(t) => final(self).switched_to(old(self), t),
                        None => *final(self) == *old(self),
                    }
                } else {
                    *final(self) == *old(self)
                },
            },
    {
        let (col, row) = self.focused;
        let mut next: Option<WindowId> = None;
        if let Some(id) = self.focused_window {
            if let Some(i) = self.find_window(id) {
                if let Some(slot) = self.windows[i].current_slot {
                    next = spatial_focus(self.ws(col, row), slot, direction);
                }
            }
        }
        if let Some(next_id) = next {
            proof {
                assert(old(self).ws_at(col as int, row as int).wf());
            }
            self.focused_window = Some(next_id);
            self.workspaces[row as usize][col as usize].record_focus(next_id);
            proof {
                assert(self.cells_same_except(old(self), col as int, row as int));
                Grid::lemma_cells_after_change(old(self), self, col as int, row as int);
                Grid::lemma_wf_transfer(old(self), self);
            }
        } else if self.cross_workspace_focus {
            self.navigate(direction);
        }
    }

    pub fn update_window_metadata(&mut self, id: WindowId, app_id: String, title: String)
        requires
            old(self).wf(),
        ensures
            final(self).wf(),
            !old(self).has_window(id) ==> *final(self) == *old(self),
            old(self).has_window(id) ==> final(self).windows@ == old(self).windows@.update(
                old(self).win_index(id),
                Window { app_id, title, ..old(self).win(id) },
            ),
            final(self).workspaces@ == old(self).workspaces@,
            final(self).focused == old(self).focused,
            final(self).focused_window == old(self).focused_window,
            final(self).history@ == old(self).history@,
            final(self).forward_history@ == old(self).forward_history@,
            final(self).pending_configures@ == old(self).pending_configures@,
            final(self).settings_same(old(self)),
    {
        if let Some(i) = self.find_window(id) {
            self.windows[i].app_id = app_id;
            self.windows[i].title = title;
            proof {
                assert(self.windows@ =~= old(self).windows@.update(i as int, Window { app_id, title, ..old(self).win(id) }));
                assert(self.win_keys() =~= old(self).win_keys());
                Grid::lemma_wf_windows_only(old(self), self);
            }
        }
    }

    /// Rename a workspace cell; an empty name clears it.
    pub fn rename_workspace(&mut self, col: u8, row: u8, name: String)
        requires
            old(self).wf(),
        ensures
            final(self).wf(),
            final(self).windows@ == old(self).windows@,
            final(self).focused == old(self).focused,
            final(self).focused_window == old(self).focused_window,
            final(self).pending_configures@ == old(self).pending_configures@,
            final(self).settings_same(old(self)),
            !(col < old(self).cols && row < old(self).rows) ==> final(self).workspaces@ == old(self).workspaces@,
            col < old(self).cols && row < old(self).rows ==> {
                &&& final(self).cells_same_except(old(self), col as int, row as int)
                &&& final(self).ws_at(col as int, row as int) == (Workspace {
                    name: if name@.len() == 0 { None } else { Some(name) },
                    ..old(self).ws_at(col as int, row as int)
                })
            },
    {
        if col < self.cols && row < self.rows {
            proof {
                assert(self.workspaces@[row as int]@.len() >= self.cols);
                assert(old(self).allocated(col as int, row as int));
                assert(old(self).ws_at(col as int, row as int).wf());
            }
            let new_name = if name.as_str().is_empty() { None } else { Some(name) };
            self.workspaces[row as usize][col as usize].name = new_name;
            proof {
                assert(self.cells_same_except(old(self), col as int, row as int));
                assert(self.win_keys() =~= old(self).win_keys());
                Grid::lemma_cells_after_change(old(self), self, col as int, row as int);
                Grid::lemma_wf_transfer(old(self), self);
            }
        }
    }

    /// The name of a workspace cell ("" if unnamed or outside the grid).
    pub fn workspace_name(&self, col: u8, row: u8) -> (r: &str)
        requires
            self.wf(),
        ensures
            (col < self.cols && row < self.rows && self.ws_at(col as int, row as int).name is Some)
                ==> r@ == self.ws_at(col as int, row as int).name->0@,
            !(col < self.cols && row < self.rows && self.ws_at(col as int, row as int).name is Some)
                ==> r@.len() == 0,
    {
        if col < self.cols && row < self.rows {
            proof {
                assert(self.workspaces@[row as int]@.len() >= self.cols);
            }
            match &self.ws(col, row).name {
                Some(n) => n.as_str(),
                None => {
                    proof {
                        reveal_strlit("");
                    }
                    ""
                },
            }
        } else {
            proof {
                reveal_strlit("");
            }
            ""
        }
    }

    /// Number of windows in the given slot stack on workspace `ws`.
    pub fn slot_stack_size(&self, ws: (u8, u8), slot: Slot) -> (n: usize)
        requires
            self.wf(),
        ensures
            n == (if self.in_grid(ws) { self.ws_at(ws.0 as int, ws.1 as int).stack(slot).len() } else { 0 }),
    {
        if ws.0 >= self.cols || ws.1 >= self.rows {
            return 0;
        }
        proof {
            assert(self.workspaces@[ws.1 as int]@.len() >= self.cols);
            assert(self.allocated(ws.0 as int, ws.1 as int));
            assert(self.ws_at(ws.0 as int, ws.1 as int).wf());
        }
        self.ws(ws.0, ws.1).slots[slot.index()].len()
    }

    /// All window ids in the slot stack (index 0 = top).
    pub fn slot_stack_ids(&self, ws: (u8, u8), slot: Slot) -> (r: Vec<WindowId>)
        requires
            self.wf(),
        ensures
            r@ == (if self.in_grid(ws) { self.ws_at(ws.0 as int, ws.1 as int).stack(slot) } else { Seq::empty() }),
    {
        if ws.0 >= self.cols || ws.1 >= self.rows {
            return Vec::new();
        }
        proof {
            assert(self.workspaces@[ws.1 as int]@.len() >= self.cols);
            assert(self.allocated(ws.0 as int, ws.1 as int));
            assert(self.ws_at(ws.0 as int, ws.1 as int).wf());
        }
        let stack = &self.ws(ws.0, ws.1).slots[slot.index()];
        let mut r: Vec<WindowId> = Vec::new();
        let mut i: usize = 0;
        while i < stack.len()
            invariant
                i <= stack@.len(),
                r@ == stack@.take(i as int),
            decreases stack.len() - i,
        {
            r.push(stack[i]);
            assert(r@ =~= stack@.take(i as int + 1));
            i += 1;
        }
        assert(stack@.take(stack@.len() as int) =~= stack@);
        r
    }

    /// Whether the workspace at `coords` holds an active TotalFullscreen window.
    pub fn workspace_has_total_fullscreen(&self, coords: (u8, u8)) -> (r: bool)
        requires
            self.wf(),
        ensures
            r == (self.in_grid(coords)
                && self.ws_at(coords.0 as int, coords.1 as int).total_fullscreen_stack@.len() > 0),
    {
        if coords.0 >= self.cols || coords.1 >= self.rows {
            return false;
        }
        proof {
            assert(self.workspaces@[coords.1 as int]@.len() >= self.cols);
        }
        self.ws(coords.0, coords.1).total_fullscreen_stack.len() != 0
    }
}

} // verus!
