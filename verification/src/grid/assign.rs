//! Slot assignment, ejection to floating and special workspaces.
use vstd::prelude::*;

use super::conflict::{resolve, resolve_spec, DisplacedWindow, Placement};
use super::model::{lemma_restate_swapped_keys, detach_model, place_model, placed_as, remove_model, restate_swapped, swap_model, swap_one};
use super::window::{Rect, Slot, WindowId, WindowState};
use super::workspace::Workspace;
use super::{special, Grid, MoveDirectionResult, Window};
use super::focus::FocusDirection;
use super::layout::{div_trunc, fits_i32};

verus! {

/// `max(v, lo)`.
pub open spec fn at_least(v: int, lo: int) -> int {
    if v < lo {
        lo
    } else {
        v
    }
}

/// Floating geometry of a window ejected from its stack: its floating
/// size grown to at least 400x300, centered on the output.
pub open spec fn collapse_geom(g: Rect, ow: i32, oh: i32) -> Rect {
    let fw = at_least(g.w as int, 400);
    let fh = at_least(g.h as int, 300);
    Rect {
        x: super::layout::div_trunc(ow - fw, 2) as i32,
        y: super::layout::div_trunc(oh - fh, 2) as i32,
        w: fw as i32,
        h: fh as i32,
    }
}

impl Grid {
    /// `self` is `old` after its focused window `id` was assigned `slot`,
    /// `mid` being its cell once the window left every list but the focus
    /// history: conflicts for `slot` are resolved on `mid` (no fullscreen
    /// adaptation), swapped-out windows float, the window is placed as
    /// resolved, asks for Tiled in `slot`, is focused and owed a configure
    /// after the swapped-out ones.
    #[verifier::opaque]
    pub open spec fn assigned_via(&self, old: &Grid, slot: Slot, mid: Workspace) -> bool {
        let id = old.focused_window->0;
        let i = old.win_index(id);
        let (c, r) = old.win(id).workspace;
        let (pl, disp) = resolve_spec(&mid, WindowState::Tiled, Some(slot), None, old.conflict_policy, old.slot_adaptation, false);
        let (st, sl) = placed_as(pl);
        let wl = restate_swapped(old.windows@, disp);
        &&& mid.wf()
        &&& mid.model() == detach_model(old.ws_at(c as int, r as int).model(), id)
        &&& self.cells_same_except(old, c as int, r as int)
        &&& self.cell_named_as(old, c as int, r as int)
        &&& self.ws_at(c as int, r as int).model() == place_model(swap_model(mid.model(), disp), st, sl, id)
        &&& self.windows@ == wl.update(
            i,
            Window {
                current_state: st,
                requested_state: WindowState::Tiled,
                requested_slot: Some(slot),
                current_slot: sl,
                ..wl[i]
            },
        )
        &&& self.focused_window == Some(id)
        &&& self.focused == old.focused
        &&& self.history@ == old.history@
        &&& self.forward_history@ == old.forward_history@
        &&& self.pending_configures@ == old.pending_configures@ + disp.map_values(|x: DisplacedWindow| x.id) + seq![id]
        &&& self.settings_same(old)
    }

    /// Window `i` gets state `st` and slot `sl`, having asked for Tiled in `slot`.
    fn assign_window(&mut self, i: usize, st: WindowState, slot: Slot, sl: Option<Slot>)
        requires
            old(self).wf(),
            i < old(self).windows@.len(),
        ensures
            final(self).wf(),
            final(self).windows_changed(old(self)),
            final(self).windows@ == old(self).windows@.update(
                i as int,
                Window {
                    current_state: st,
                    requested_state: WindowState::Tiled,
                    requested_slot: Some(slot),
                    current_slot: sl,
                    ..old(self).windows@[i as int]
                },
            ),
    {
        let w = self.window_mut(i);
        w.current_state = st;
        w.requested_state = WindowState::Tiled;
        w.requested_slot = Some(slot);
        w.current_slot = sl;
        proof {
            assert(self.win_keys() =~= old(self).win_keys());
            Grid::lemma_wf_windows_only(old(self), self);
        }
    }

    /// Assign the focused window to `slot` (see `assigned_via`); nothing
    /// happens when no registered window is focused.
    pub fn assign_slot(&mut self, slot: Slot)
        requires
            old(self).wf(),
            old(self).focus_placed(),
        ensures
            final(self).wf(),
            old(self).focused_known() is None ==> *final(self) == *old(self),
            old(self).focused_known() is Some ==> exists|mid: Workspace| #[trigger] final(self).assigned_via(old(self), slot, mid),
    {
        let (i, id, c, r) = match self.focus_site() {
            Some(t) => t,
            None => return,
        };
        self.cell_detach(c, r, id);
        let ghost s1 = *self;
        let ghost mid = self.ws_at(c as int, r as int);
        let resolved = resolve(
            self.ws(c, r),
            WindowState::Tiled,
            Some(slot),
            None,
            &self.conflict_policy,
            self.slot_adaptation,
            false,
        );
        let swap_ids = self.swap_out_all(c, r, &resolved.displaced);
        let ghost s2 = *self;
        proof {
            lemma_restate_swapped_keys(s1.windows@, resolved.displaced@);
        }
        let (final_state, final_slot) = match resolved.placement {
            Placement::Tiled { slot: s, .. } => (WindowState::Tiled, Some(s)),
            Placement::Floating => (WindowState::Floating, None),
            Placement::FullscreenPromotion => (WindowState::Fullscreen, None),
        };
        self.finish_assign(i, id, c, r, final_state, slot, final_slot, &swap_ids);
        proof {
            Grid::lemma_cwc_trans(old(self), &s1, &s2, c as int, r as int);
            assert forall|c2: int, r2: int| self.allocated(c2, r2) && !(c2 == c && r2 == r)
                implies #[trigger] self.ws_at(c2, r2) == old(self).ws_at(c2, r2) by {
                assert(self.ws_at(c2, r2) == s2.ws_at(c2, r2));
            }
            assert((final_state, final_slot) == placed_as(resolved.placement));
            assert(self.pending_configures@ =~= old(self).pending_configures@
                + resolved.displaced@.map_values(|x: DisplacedWindow| x.id) + seq![id]);
            assert(self.assigned_via(old(self), slot, mid)) by {
                reveal(Grid::assigned_via);
            }
        }
    }

    /// Place window `id` (position i) on cell (c, r) as `st`/`sl`, record its
    /// request for Tiled in `slot`, focus it, and queue configures for `ids`
    /// then for it.
    fn finish_assign(&mut self, i: usize, id: WindowId, c: u8, r: u8, st: WindowState, slot: Slot, sl: Option<Slot>, ids: &Vec<WindowId>)
        requires
            old(self).wf(),
            old(self).allocated(c as int, r as int),
            i < old(self).windows@.len(),
        ensures
            final(self).wf(),
            final(self).cells_same_except(old(self), c as int, r as int),
            final(self).cell_named_as(old(self), c as int, r as int),
            final(self).ws_at(c as int, r as int).model() == place_model(old(self).ws_at(c as int, r as int).model(), st, sl, id),
            final(self).windows@ == old(self).windows@.update(
                i as int,
                Window {
                    current_state: st,
                    requested_state: WindowState::Tiled,
                    requested_slot: Some(slot),
                    current_slot: sl,
                    ..old(self).windows@[i as int]
                },
            ),
            final(self).focused_window == Some(id),
            final(self).focused == old(self).focused,
            final(self).history@ == old(self).history@,
            final(self).forward_history@ == old(self).forward_history@,
            final(self).pending_configures@ == old(self).pending_configures@ + ids@ + seq![id],
            final(self).settings_same(old(self)),
    {
        self.cell_place(c, r, st, sl, id);
        let ghost s3 = *self;
        self.assign_window(i, st, slot, sl);
        let ghost s4 = *self;
        self.focused_window = Some(id);
        proof {
            Grid::lemma_wf_frame(&s4, self);
        }
        self.queue_configures(ids);
        self.pending_configures.push(id);
        proof {
            Grid::lemma_wf_frame(&s4, self);
            Grid::lemma_cells_chain(old(self), &s3, self, c as int, r as int);
            assert(self.pending_configures@ =~= old(self).pending_configures@ + ids@ + seq![id]);
        }
    }

    /// No arithmetic overflow centering the focused window's collapsed geometry.
    pub open spec fn collapse_fits(&self) -> bool {
        self.focused_known() matches Some(id) ==> {
            let g = self.win(id).floating_geom;
            &&& super::layout::fits_i32(self.output_w - at_least(g.w as int, 400))
            &&& super::layout::fits_i32(self.output_h - at_least(g.h as int, 300))
        }
    }

    /// Eject the focused Tiled window from its slot's stack to the top of
    /// the floating layer, centered at its floating size grown to at least
    /// 400x300, and queue a configure; nothing happens unless a registered
    /// Tiled window with a slot is focused.
    pub fn stack_collapse(&mut self)
        requires
            old(self).wf(),
            old(self).focus_placed(),
            old(self).collapse_fits(),
        ensures
            final(self).wf(),
            match old(self).focused_known() {
                Some(id) => {
                    let i = old(self).win_index(id);
                    let w = old(self).win(id);
                    let (c, r) = w.workspace;
                    if w.current_state == WindowState::Tiled && w.current_slot is Some {
                        &&& final(self).cells_same_except(old(self), c as int, r as int)
                        &&& final(self).cell_named_as(old(self), c as int, r as int)
                        &&& final(self).ws_at(c as int, r as int).model() == swap_one(
                            old(self).ws_at(c as int, r as int).model(),
                            DisplacedWindow { id, from_slot: w.current_slot->0 },
                        )
                        &&& final(self).windows@ == old(self).windows@.update(i, Window {
                            floating_geom: collapse_geom(w.floating_geom, old(self).output_w, old(self).output_h),
                            current_state: WindowState::Floating,
                            current_slot: None,
                            ..w
                        })
                        &&& final(self).focused_window == old(self).focused_window
                        &&& final(self).focused == old(self).focused
                        &&& final(self).history@ == old(self).history@
                        &&& final(self).forward_history@ == old(self).forward_history@
                        &&& final(self).pending_configures@ == old(self).pending_configures@.push(id)
                        &&& final(self).settings_same(old(self))
                    } else {
                        *final(self) == *old(self)
                    }
                },
                None => *final(self) == *old(self),
            },
    {
        let (i, id, c, r) = match self.focus_site() {
            Some(t) => t,
            None => return,
        };
        if self.windows[i].current_state != WindowState::Tiled {
            return;
        }
        let slot = match self.windows[i].current_slot {
            Some(s) => s,
            None => return,
        };
        let g = self.windows[i].floating_geom;
        let fw: i32 = if g.w < 400 { 400 } else { g.w };
        let fh: i32 = if g.h < 300 { 300 } else { g.h };
        let geom = Rect { x: (self.output_w - fw) / 2, y: (self.output_h - fh) / 2, w: fw, h: fh };
        self.cell_swap(c, r, DisplacedWindow { id, from_slot: slot });
        let ghost s1 = *self;
        let w = self.window_mut(i);
        w.floating_geom = geom;
        w.current_state = WindowState::Floating;
        w.current_slot = None;
        self.pending_configures.push(id);
        proof {
            assert(self.win_keys() =~= s1.win_keys());
            Grid::lemma_wf_windows_only(&s1, self);
            Grid::lemma_cells_chain(old(self), &s1, self, c as int, r as int);
            assert(geom == collapse_geom(g, old(self).output_w, old(self).output_h));
        }
    }
}


impl Grid {
    /// Cell `coords` is inside the grid and holds a TotalFullscreen window.
    pub open spec fn tf_at(&self, coords: (u8, u8)) -> bool {
        self.in_grid(coords) && self.ws_at(coords.0 as int, coords.1 as int).total_fullscreen_stack@.len() > 0
    }

    /// Walking toward `dir` from `cur` past cells that hold a
    /// TotalFullscreen window: the first cell holding none, or None when
    /// the walk meets the edge, comes back to `first`, or has made `fuel`
    /// steps.
    pub open spec fn tf_walk(&self, dir: FocusDirection, cur: (u8, u8), first: (u8, u8), fuel: nat) -> Option<(u8, u8)>
        decreases fuel,
    {
        if !self.tf_at(cur) {
            Some(cur)
        } else if fuel == 0 {
            None
        } else {
            match self.step(cur.0, cur.1, dir) {
                Some(n) => if n != first {
                    self.tf_walk(dir, n, first, (fuel - 1) as nat)
                } else {
                    None
                },
                None => None,
            }
        }
    }

    /// Where a move of the focused window toward `dir` goes. Tiled and
    /// Fullscreen windows skip cells holding a TotalFullscreen window;
    /// Floating and TotalFullscreen ones go to the neighbouring cell.
    pub open spec fn direction_result(&self, dir: FocusDirection) -> Option<MoveDirectionResult> {
        match self.focused_known() {
            None => None,
            Some(id) => {
                let w = self.win(id);
                match self.step(w.workspace.0, w.workspace.1, dir) {
                    None => None,
                    Some(first) => {
                        let protected = w.current_state == WindowState::Tiled || w.current_state == WindowState::Fullscreen;
                        if !protected || !self.tf_at(first) {
                            Some(MoveDirectionResult::MovedDirect { target: first })
                        } else {
                            match self.tf_walk(dir, first, first, 255) {
                                Some(t) => Some(MoveDirectionResult::Moved { requested: first, actual: t, skipped: true }),
                                None => Some(MoveDirectionResult::Refused),
                            }
                        }
                    },
                }
            },
        }
    }

    /// A walk step from a cell holding a TotalFullscreen window stays on existing cells.
    proof fn lemma_tf_step(&self, cur: (u8, u8), dir: FocusDirection)
        requires
            self.wf(),
            self.tf_at(cur),
        ensures
            self.allocated(cur.0 as int, cur.1 as int),
            self.step(cur.0, cur.1, dir) matches Some(t) ==> self.allocated(t.0 as int, t.1 as int),
    {
        assert(self.workspaces@[cur.1 as int]@.len() >= self.cols);
        self.lemma_step_in_grid(cur.0, cur.1, dir);
    }

    /// Move the focused window one cell toward `direction` (see
    /// `direction_result`), reporting where it went.
    pub fn move_window_direction_ex(&mut self, direction: FocusDirection) -> (res: Option<MoveDirectionResult>)
        requires
            old(self).wf(),
            old(self).focus_placed(),
        ensures
            final(self).wf(),
            res == old(self).direction_result(direction),
            match res {
                Some(MoveDirectionResult::MovedDirect { target }) => final(self).moved_to(old(self), target),
                Some(MoveDirectionResult::Moved { actual, .. }) => final(self).moved_to(old(self), actual),
                _ => *final(self) == *old(self),
            },
    {
        let (i, _id, c, r) = match self.focus_site() {
            Some(t) => t,
            None => return None,
        };
        let mover = self.windows[i].current_state;
        let protected = mover == WindowState::Tiled || mover == WindowState::Fullscreen;
        let first = match self.step_from(c, r, direction) {
            Some(t) => t,
            None => return None,
        };
        if !protected || !self.workspace_has_total_fullscreen(first) {
            self.move_window_to(first);
            return Some(MoveDirectionResult::MovedDirect { target: first });
        }
        let mut cur = first;
        let mut fuel: u16 = 255;
        loop
            invariant
                *self == *old(self),
                self.wf(),
                self.focus_placed(),
                fuel <= 255,
                self.tf_walk(direction, cur, first, fuel as nat) == self.tf_walk(direction, first, first, 255),
                old(self).direction_result(direction) == match self.tf_walk(direction, first, first, 255) {
                    Some(t) => Some(MoveDirectionResult::Moved { requested: first, actual: t, skipped: true }),
                    None => Some(MoveDirectionResult::Refused),
                },
            decreases fuel,
        {
            if !self.workspace_has_total_fullscreen(cur) {
                self.move_window_to(cur);
                return Some(MoveDirectionResult::Moved { requested: first, actual: cur, skipped: true });
            }
            if fuel == 0 {
                return Some(MoveDirectionResult::Refused);
            }
            proof {
                self.lemma_tf_step(cur, direction);
            }
            match self.step_from(cur.0, cur.1, direction) {
                Some(next) => {
                    if next.0 == first.0 && next.1 == first.1 {
                        return Some(MoveDirectionResult::Refused);
                    }
                    cur = next;
                    fuel = fuel - 1;
                },
                None => return Some(MoveDirectionResult::Refused),
            }
        }
    }

    /// Move the focused window one cell toward `direction`, as
    /// `move_window_direction_ex` does, without the report.
    pub fn move_window_direction(&mut self, direction: FocusDirection)
        requires
            old(self).wf(),
            old(self).focus_placed(),
        ensures
            final(self).wf(),
            match old(self).direction_result(direction) {
                Some(MoveDirectionResult::MovedDirect { target }) => final(self).moved_to(old(self), target),
                Some(MoveDirectionResult::Moved { actual, .. }) => final(self).moved_to(old(self), actual),
                _ => *final(self) == *old(self),
            },
    {
        self.move_window_direction_ex(direction);
    }
}


impl Grid {
    /// Window `i` moves to cell `coords`, keeping its state.
    fn set_window_cell(&mut self, i: usize, coords: (u8, u8))
        requires
            old(self).wf(),
            i < old(self).windows@.len(),
            old(self).placed_or_special(coords),
        ensures
            final(self).wf(),
            final(self).windows_changed(old(self)),
            final(self).windows@ == old(self).windows@.update(i as int, Window { workspace: coords, ..old(self).windows@[i as int] }),
    {
        let w = self.window_mut(i);
        w.workspace = coords;
        proof {
            let o = old(self).windows@;
            let n = self.windows@;
            assert forall|a: int, b: int| 0 <= a < b < n.len() implies n[a].id < n[b].id by {
                assert(o[a].id < o[b].id);
            }
            assert forall|a: int| 0 <= a < n.len() implies n[a].id < self.next_id by {
                assert(o[a].id < old(self).next_id);
            }
            assert forall|a: int| 0 <= a < n.len() implies self.placed_or_special(#[trigger] n[a].workspace) by {
                if a != i {
                    assert(old(self).placed_or_special(o[a].workspace));
                }
            }
            assert forall|c2: int, r2: int| self.allocated(c2, r2) implies #[trigger] self.ws_at(c2, r2).wf() by {
                assert(old(self).allocated(c2, r2));
                assert(old(self).ws_at(c2, r2).wf());
                assert(self.ws_at(c2, r2) == old(self).ws_at(c2, r2));
            }
        }
    }

    /// Move window `id` off its grid cell into a named special workspace:
    /// it leaves every list of its cell, the focus history included, and
    /// its cell becomes the special sentinel; if it had the focus, the
    /// focus goes to the front of the focused cell's history. Nothing
    /// happens for an unknown window or one already in a special workspace.
    pub fn detach_window_to_special(&mut self, id: WindowId)
        requires
            old(self).wf(),
        ensures
            final(self).wf(),
            !old(self).has_window(id) || old(self).win(id).workspace.0 == 255 ==> *final(self) == *old(self),
            old(self).has_window(id) && old(self).win(id).workspace.0 != 255 ==> {
                let i = old(self).win_index(id);
                let w = old(self).win(id);
                let (c, r) = w.workspace;
                &&& final(self).cells_same_except(old(self), c as int, r as int)
                &&& final(self).cell_named_as(old(self), c as int, r as int)
                &&& final(self).ws_at(c as int, r as int).model() == remove_model(old(self).ws_at(c as int, r as int).model(), id)
                &&& final(self).windows@ == old(self).windows@.update(i, Window { workspace: special(), ..w })
                &&& final(self).focused_window == (if old(self).focused_window == Some(id) {
                    final(self).last_focused_at(old(self).focused.0 as int, old(self).focused.1 as int)
                } else {
                    old(self).focused_window
                })
                &&& final(self).focused == old(self).focused
                &&& final(self).history@ == old(self).history@
                &&& final(self).forward_history@ == old(self).forward_history@
                &&& final(self).pending_configures@ == old(self).pending_configures@
                &&& final(self).settings_same(old(self))
            },
    {
        let i = match self.find_window(id) {
            Some(i) => i,
            None => return,
        };
        let (c, r) = self.windows[i].workspace;
        if c == 255 {
            return;
        }
        proof {
            self.lemma_placed(i as int);
        }
        self.cell_remove(c, r, id);
        let ghost s1 = *self;
        self.set_window_cell(i, (255, 255));
        let ghost s2 = *self;
        let was_focused = match self.focused_window {
            Some(f) => f == id,
            None => false,
        };
        if was_focused {
            let f = self.focused_cell_last();
            self.focused_window = f;
            proof {
                Grid::lemma_wf_frame(&s2, self);
            }
        }
        proof {
            Grid::lemma_cells_chain(old(self), &s1, self, c as int, r as int);
        }
    }

    /// Bring window `id` back from a special workspace onto cell `target`,
    /// on top of its floating layer, and focus it. Nothing happens for an
    /// unknown window or one not in a special workspace.
    pub fn attach_window_from_special(&mut self, id: WindowId, target: (u8, u8))
        requires
            old(self).wf(),
            old(self).has_window(id) && old(self).win(id).workspace == special() ==> old(self).allocated(
                target.0 as int,
                target.1 as int,
            ),
        ensures
            final(self).wf(),
            !old(self).has_window(id) || old(self).win(id).workspace != special() ==> *final(self) == *old(self),
            old(self).has_window(id) && old(self).win(id).workspace == special() ==> {
                let i = old(self).win_index(id);
                let w = old(self).win(id);
                &&& final(self).cells_same_except(old(self), target.0 as int, target.1 as int)
                &&& final(self).cell_named_as(old(self), target.0 as int, target.1 as int)
                &&& final(self).ws_at(target.0 as int, target.1 as int).model() == place_model(
                    old(self).ws_at(target.0 as int, target.1 as int).model(),
                    WindowState::Floating,
                    None,
                    id,
                )
                &&& final(self).windows@ == old(self).windows@.update(i, Window { workspace: target, ..w })
                &&& final(self).focused_window == Some(id)
                &&& final(self).focused == old(self).focused
                &&& final(self).history@ == old(self).history@
                &&& final(self).forward_history@ == old(self).forward_history@
                &&& final(self).pending_configures@ == old(self).pending_configures@
                &&& final(self).settings_same(old(self))
            },
    {
        let i = match self.find_window(id) {
            Some(i) => i,
            None => return,
        };
        let (c, r) = self.windows[i].workspace;
        if !(c == 255 && r == 255) {
            return;
        }
        self.set_window_cell(i, target);
        let ghost s1 = *self;
        self.cell_place(target.0, target.1, WindowState::Floating, None, id);
        let ghost s2 = *self;
        self.focused_window = Some(id);
        proof {
            Grid::lemma_wf_frame(&s2, self);
            Grid::lemma_cells_pre(old(self), &s1, &s2, target.0 as int, target.1 as int);
            Grid::lemma_cells_chain(old(self), &s2, self, target.0 as int, target.1 as int);
        }
    }
}


/// Width and height a too-small tiled window floats at: its minimum on each
/// constrained axis, its slot's size on the others.
pub open spec fn min_float_size(rect: Rect, min_w: i32, min_h: i32) -> (i32, i32) {
    (if min_w > 0 { min_w } else { rect.w }, if min_h > 0 { min_h } else { rect.h })
}

/// The slot is narrower or shorter than a constrained minimum.
pub open spec fn too_small(rect: Rect, min_w: i32, min_h: i32) -> bool {
    (min_w > 0 && rect.w < min_w) || (min_h > 0 && rect.h < min_h)
}

/// The floating geometry of a too-small tiled window: its floating size,
/// centered in its slot.
pub open spec fn min_float_geom(rect: Rect, min_w: i32, min_h: i32) -> Rect {
    let (fw, fh) = min_float_size(rect, min_w, min_h);
    Rect {
        x: (rect.x + div_trunc(rect.w - fw, 2)) as i32,
        y: (rect.y + div_trunc(rect.h - fh, 2)) as i32,
        w: fw,
        h: fh,
    }
}

/// Centering the floating geometry in the slot stays within i32.
pub open spec fn min_float_fits(rect: Rect, min_w: i32, min_h: i32) -> bool {
    let (fw, fh) = min_float_size(rect, min_w, min_h);
    &&& fits_i32(rect.w - fw)
    &&& fits_i32(rect.h - fh)
    &&& fits_i32(rect.x + div_trunc(rect.w - fw, 2))
    &&& fits_i32(rect.y + div_trunc(rect.h - fh, 2))
}

impl Grid {
    /// The window is registered, Tiled, laid out, and its slot is too small
    /// for its minimum size.
    pub open spec fn overflows_min_size(&self, id: WindowId, min_w: i32, min_h: i32) -> bool {
        &&& self.has_window(id)
        &&& self.win(id).current_state == WindowState::Tiled
        &&& self.rect_spec(id) matches Some(rect) && too_small(rect, min_w, min_h)
    }

    /// Force a tiled window whose slot is smaller than its minimum size
    /// (0 = unconstrained on that axis) to float, centered in its slot at
    /// the size `min_float_size` gives. It leaves its cell's slot stacks
    /// for the top of the floating layer, keeps a requested slot (taking its
    /// current one if it had none) and is owed a configure. Returns whether
    /// it did so.
    pub fn force_min_size_float(&mut self, id: WindowId, min_w: i32, min_h: i32) -> (res: bool)
        requires
            old(self).wf(),
            old(self).layout_ok(),
            old(self).rect_spec(id) matches Some(rect) ==> min_float_fits(rect, min_w, min_h),
        ensures
            final(self).wf(),
            res == old(self).overflows_min_size(id, min_w, min_h),
            !res ==> *final(self) == *old(self),
            res ==> {
                let i = old(self).win_index(id);
                let w = old(self).win(id);
                let (c, r) = w.workspace;
                let rect = old(self).rect_spec(id)->0;
                &&& final(self).cells_same_except(old(self), c as int, r as int)
                &&& final(self).cell_named_as(old(self), c as int, r as int)
                &&& final(self).ws_at(c as int, r as int).model() == place_model(
                    detach_model(old(self).ws_at(c as int, r as int).model(), id),
                    WindowState::Floating,
                    None,
                    id,
                )
                &&& final(self).windows@ == old(self).windows@.update(i, Window {
                    current_state: WindowState::Floating,
                    current_slot: None,
                    requested_slot: if w.requested_slot is None { w.current_slot } else { w.requested_slot },
                    floating_geom: min_float_geom(rect, min_w, min_h),
                    ..w
                })
                &&& final(self).focused_window == old(self).focused_window
                &&& final(self).focused == old(self).focused
                &&& final(self).history@ == old(self).history@
                &&& final(self).forward_history@ == old(self).forward_history@
                &&& final(self).pending_configures@ == old(self).pending_configures@.push(id)
                &&& final(self).settings_same(old(self))
            },
    {
        let i = match self.find_window(id) {
            Some(i) => i,
            None => return false,
        };
        if self.windows[i].current_state != WindowState::Tiled {
            return false;
        }
        let (c, r) = self.windows[i].workspace;
        let current_slot = self.windows[i].current_slot;
        let slot_rect = match self.compute_rect(id) {
            Some(rect) => rect,
            None => return false,
        };
        let too_narrow = min_w > 0 && slot_rect.w < min_w;
        let too_short = min_h > 0 && slot_rect.h < min_h;
        if !too_narrow && !too_short {
            return false;
        }
        proof {
            self.lemma_placed(i as int);
        }
        let float_w = if min_w > 0 { min_w } else { slot_rect.w };
        let float_h = if min_h > 0 { min_h } else { slot_rect.h };
        let float_x = slot_rect.x + (slot_rect.w - float_w) / 2;
        let float_y = slot_rect.y + (slot_rect.h - float_h) / 2;
        let geom = Rect { x: float_x, y: float_y, w: float_w, h: float_h };
        proof {
            assert(geom == min_float_geom(slot_rect, min_w, min_h));
        }
        self.cell_detach(c, r, id);
        let ghost s1 = *self;
        self.cell_place(c, r, WindowState::Floating, None, id);
        let ghost s2 = *self;
        let w = self.window_mut(i);
        w.current_state = WindowState::Floating;
        w.current_slot = None;
        if w.requested_slot.is_none() {
            w.requested_slot = current_slot;
        }
        w.floating_geom = geom;
        self.pending_configures.push(id);
        proof {
            assert(self.win_keys() =~= s2.win_keys());
            Grid::lemma_wf_windows_only(&s2, self);
            Grid::lemma_cwc_trans(old(self), &s1, &s2, c as int, r as int);
            Grid::lemma_cells_chain(old(self), &s2, self, c as int, r as int);
        }
        true
    }
}

} // verus!
