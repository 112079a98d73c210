//! Workspace navigation actions: by direction, diagonally, back and forward
//! in history, to a cell or an index, and following a moved window.
use vstd::prelude::*;

use super::template::template_applied;
use super::{fxv, no_fx, push_fx, slide_fx, sync_fx, warp_ws_fx, ws_changed_fx, urgency_cleared, DispatchConfig, DispatchState, Effect, EffectV};
use crate::grid::posts::{move_window_to_post, navigate_post, switch_workspace_post, workspace_back_post, workspace_forward_post};
use crate::grid::{FocusDirection, Grid};
use crate::ipc::events::{Event, EventV};
use crate::keybind::action::{view_of, Action, ActionV};

verus! {

/// The rest of a workspace change, from the state `s` it left (focused cell
/// `from` before it): a slide, keyboard focus, a pointer warp when `warp`
/// and the configuration ask for one, and the workspace events.
pub open spec fn ws_change_tail(
    from: (u8, u8),
    s: DispatchState,
    n: DispatchState,
    f0: Seq<EffectV>,
    fx: Seq<EffectV>,
    cfg: DispatchConfig,
    warp: bool,
) -> bool {
    &&& urgency_cleared(&s.grid, &n.grid)
    &&& n == DispatchState { grid: n.grid, events: n.events, ..s }
    &&& n.evs() == s.evs().push(EventV::WorkspaceChanged { col: n.grid.focused.0, row: n.grid.focused.1 })
    &&& fx == f0 + slide_fx(from, s.grid) + sync_fx(cfg) + (if warp { warp_ws_fx(cfg) } else { Seq::empty() })
        + ws_changed_fx()
}

/// The cell of a 1-based workspace index on a grid of `cols` columns.
pub open spec fn index_cell(n: u8, cols: u8) -> (u8, u8) {
    let idx: int = if n >= 1 { n - 1 } else { 0 };
    ((idx % cols as int) as u8, (idx / cols as int) as u8)
}

/// A position moved by `delta` on an axis of `size` cells, wrapping when `wrap`.
pub open spec fn apply_delta(pos: u8, delta: int, size: u8, wrap: bool) -> Option<u8> {
    let p = pos + delta;
    if 0 <= p < size {
        Some(p as u8)
    } else if wrap {
        Some((p % size as int) as u8)
    } else {
        None
    }
}

/// The cell a diagonal step by (dc, dr) reaches, if both axes can move.
pub open spec fn diagonal_target(g: Grid, dc: int, dr: int) -> Option<(u8, u8)> {
    match (apply_delta(g.focused.0, dc, g.cols, g.wrap_x), apply_delta(g.focused.1, dr, g.rows, g.wrap_y)) {
        (Some(c), Some(r)) => Some((c, r)),
        _ => None,
    }
}

pub open spec fn diagonal_of(a: ActionV) -> (int, int) {
    match a {
        ActionV::WorkspaceNW => (-1, -1),
        ActionV::WorkspaceNE => (1, -1),
        ActionV::WorkspaceSW => (-1, 1),
        _ => (1, 1),
    }
}

pub open spec fn direction_of(a: ActionV) -> FocusDirection {
    match a {
        ActionV::WorkspaceLeft | ActionV::FocusLeft => FocusDirection::Left,
        ActionV::WorkspaceRight | ActionV::FocusRight => FocusDirection::Right,
        ActionV::WorkspaceUp | ActionV::FocusUp => FocusDirection::Up,
        _ => FocusDirection::Down,
    }
}

pub open spec fn is_dir_nav(a: ActionV) -> bool {
    match a {
        ActionV::WorkspaceLeft | ActionV::WorkspaceRight | ActionV::WorkspaceUp | ActionV::WorkspaceDown => true,
        _ => false,
    }
}

pub open spec fn is_diag_nav(a: ActionV) -> bool {
    match a {
        ActionV::WorkspaceNW | ActionV::WorkspaceNE | ActionV::WorkspaceSW | ActionV::WorkspaceSE => true,
        _ => false,
    }
}

pub open spec fn is_hist_nav(a: ActionV) -> bool {
    match a {
        ActionV::WorkspaceBack | ActionV::WorkspaceForward => true,
        _ => false,
    }
}

/// The actions of this group.
pub open spec fn is_nav(a: ActionV) -> bool {
    match a {
        ActionV::WorkspaceLeft | ActionV::WorkspaceRight | ActionV::WorkspaceUp | ActionV::WorkspaceDown
        | ActionV::WorkspaceNW | ActionV::WorkspaceNE | ActionV::WorkspaceSW | ActionV::WorkspaceSE
        | ActionV::WorkspaceBack | ActionV::WorkspaceForward | ActionV::WorkspaceTo(_, _)
        | ActionV::WorkspaceIndex(_) | ActionV::MoveWindowToWorkspaceAndFollow(_, _) => true,
        _ => false,
    }
}

/// The target cell of a switch to a cell.
pub open spec fn switch_target(a: ActionV, g: Grid) -> (u8, u8) {
    match a {
        ActionV::WorkspaceTo(c, r) => (c, r),
        ActionV::WorkspaceIndex(k) => index_cell(k, g.cols),
        ActionV::MoveWindowToWorkspaceAndFollow(c, r) => (c, r),
        _ => g.focused,
    }
}

/// Whether a navigation action can run: the step or target cell exists,
/// and a window to move is not in a special workspace.
pub open spec fn nav_ok(a: ActionV, g: Grid) -> bool {
    match a {
        ActionV::WorkspaceLeft | ActionV::WorkspaceRight | ActionV::WorkspaceUp | ActionV::WorkspaceDown => g.step_ok(
            direction_of(a),
        ),
        ActionV::WorkspaceTo(_, _) | ActionV::WorkspaceIndex(_) => {
            let t = switch_target(a, g);
            g.allocated(t.0 as int, t.1 as int)
        },
        ActionV::MoveWindowToWorkspaceAndFollow(c, r) => g.allocated(c as int, r as int) && g.focus_placed(),
        _ => true,
    }
}

/// A switch to cell `t` from the state `o`: the grid switches, the cell's
/// template applies, then the tail of the workspace change.
pub open spec fn switched(o: DispatchState, n: DispatchState, t: (u8, u8), cfg: DispatchConfig, fx: Seq<EffectV>, warp: bool) -> bool {
    exists|g1: Grid, s2: DispatchState, f2: Seq<EffectV>|
        {
            &&& #[trigger] switch_workspace_post(&o.grid, &g1, t)
            &&& template_applied(DispatchState { grid: g1, ..o }, s2, Seq::empty(), f2, cfg.templates@, t, false)
            &&& #[trigger] ws_change_tail(o.grid.focused, s2, n, f2, fx, cfg, warp)
        }
}

/// What an action of this group does.
pub open spec fn nav_step(a: ActionV, o: DispatchState, n: DispatchState, cfg: DispatchConfig, fx: Seq<EffectV>) -> bool {
    match a {
        ActionV::WorkspaceLeft | ActionV::WorkspaceRight | ActionV::WorkspaceUp | ActionV::WorkspaceDown => exists|
            g1: Grid,
            s2: DispatchState,
            f2: Seq<EffectV>,
        |
            {
                &&& #[trigger] navigate_post(&o.grid, &g1, direction_of(a))
                &&& template_applied(DispatchState { grid: g1, ..o }, s2, Seq::empty(), f2, cfg.templates@, g1.focused, false)
                &&& #[trigger] ws_change_tail(o.grid.focused, s2, n, f2, fx, cfg, true)
            },
        ActionV::WorkspaceNW | ActionV::WorkspaceNE | ActionV::WorkspaceSW | ActionV::WorkspaceSE => {
            match diagonal_target(o.grid, diagonal_of(a).0, diagonal_of(a).1) {
                Some(t) => switched(o, n, t, cfg, fx, false),
                None => n == o && fx.len() == 0,
            }
        },
        ActionV::WorkspaceBack | ActionV::WorkspaceForward => exists|g1: Grid|
            {
                &&& if a is WorkspaceBack {
                    workspace_back_post(&o.grid, &g1)
                } else {
                    workspace_forward_post(&o.grid, &g1)
                }
                &&& #[trigger] ws_change_tail(o.grid.focused, DispatchState { grid: g1, ..o }, n, Seq::empty(), fx, cfg, true)
            },
        ActionV::WorkspaceTo(_, _) | ActionV::WorkspaceIndex(_) => switched(o, n, switch_target(a, o.grid), cfg, fx, true),
        ActionV::MoveWindowToWorkspaceAndFollow(c, r) => exists|g1: Grid, g2: Grid|
            {
                &&& #[trigger] move_window_to_post(&o.grid, &g1, (c, r))
                &&& #[trigger] switch_workspace_post(&g1, &g2, (c, r))
                &&& ws_change_tail(g1.focused, DispatchState { grid: g2, ..o }, n, seq![EffectV::AnimateMoves], fx, cfg, false)
            },
        _ => n == o && fx.len() == 0,
    }
}

fn apply_delta_exec(pos: u8, delta: i8, size: u8, wrap: bool) -> (r: Option<u8>)
    requires
        size >= 1,
        -1 <= delta <= 1,
    ensures
        r == apply_delta(pos, delta as int, size, wrap),
{
    let p: i16 = pos as i16 + delta as i16;
    if p >= 0 && p < size as i16 {
        Some(p as u8)
    } else if wrap {
        if p < 0 {
            assert(p == -1);
            assert((-1int) % (size as int) == size - 1) by (nonlinear_arith)
                requires
                    size >= 1,
            ;
            Some(size - 1)
        } else {
            let q = p % (size as i16);
            assert(0 <= q < size);
            Some(q as u8)
        }
    } else {
        None
    }
}

impl DispatchState {
    /// The tail of a workspace change from cell `from`.
    #[verifier::spinoff_prover]
    #[verifier::rlimit(60)]
    fn finish_ws_change(&mut self, from: (u8, u8), cfg: &DispatchConfig, fx: &mut Vec<Effect>, warp: bool)
        requires
            old(self).wf(),
        ensures
            final(self).wf(),
            ws_change_tail(from, *old(self), *final(self), fxv(old(fx)@), fxv(final(fx)@), *cfg, warp),
    {
        let ghost f0 = fxv(fx@);
        if !(from.0 == self.grid.focused.0 && from.1 == self.grid.focused.1) {
            push_fx(fx, Effect::Slide { from });
        }
        let ghost f1 = fxv(fx@);
        assert(f1 == f0 + slide_fx(from, old(self).grid));
        self.sync_focus(cfg, fx);
        let ghost f2 = fxv(fx@);
        if warp && cfg.warp_on_workspace_change {
            push_fx(fx, Effect::WarpCursor);
        }
        let ghost f3 = fxv(fx@);
        assert(f3 == f2 + (if warp { warp_ws_fx(*cfg) } else { Seq::empty() })) by {
            if !(warp && cfg.warp_on_workspace_change) {
                assert(f2 + Seq::<EffectV>::empty() =~= f2);
            }
        }
        let (col, row) = self.grid.focused;
        self.push_event(Event::WorkspaceChanged { col, row });
        push_fx(fx, Effect::ShowOsd(String::from_str("workspace")));
        push_fx(fx, Effect::UpdateWorkspaces);
        push_fx(fx, Effect::UpdateToplevelStates);
        proof {
            reveal_strlit("workspace");
            assert(fxv(fx@) =~= f0 + slide_fx(from, old(self).grid) + sync_fx(*cfg) + (if warp {
                warp_ws_fx(*cfg)
            } else {
                Seq::empty()
            }) + ws_changed_fx());
        }
    }

    /// Switch to cell `t`, apply its template, then the tail.
    fn switch_and_finish(&mut self, t: (u8, u8), cfg: &DispatchConfig, fx: &mut Vec<Effect>, warp: bool)
        requires
            old(self).wf(),
            old(self).grid.allocated(t.0 as int, t.1 as int),
            fxv(old(fx)@) == Seq::<EffectV>::empty(),
        ensures
            final(self).wf(),
            switched(*old(self), *final(self), t, *cfg, fxv(final(fx)@), warp),
    {
        let from = self.grid.focused;
        self.grid.switch_workspace(t);
        let ghost g1 = self.grid;
        self.apply_workspace_template(&cfg.templates, t, false, fx);
        let ghost s2 = *self;
        let ghost f2 = fxv(fx@);
        self.finish_ws_change(from, cfg, fx, warp);
        proof {
            assert(switch_workspace_post(&old(self).grid, &g1, t));
        }
    }

    fn nav_dir(&mut self, action: Action, cfg: &DispatchConfig) -> (fx: Vec<Effect>)
        requires
            old(self).wf(),
            is_dir_nav(view_of(action)),
            nav_ok(view_of(action), old(self).grid),
        ensures
            final(self).wf(),
            nav_step(view_of(action), *old(self), *final(self), *cfg, fxv(fx@)),
    {
        let mut fx = no_fx();
        let ghost o = *self;
        let ghost av = view_of(action);
        let from = self.grid.focused;
        match action {
            Action::WorkspaceLeft | Action::WorkspaceRight | Action::WorkspaceUp | Action::WorkspaceDown => {
                let dir = match action {
                    Action::WorkspaceLeft => FocusDirection::Left,
                    Action::WorkspaceRight => FocusDirection::Right,
                    Action::WorkspaceUp => FocusDirection::Up,
                    _ => FocusDirection::Down,
                };
                assert(dir == direction_of(av));
                self.grid.navigate(dir);
                let ghost g1 = self.grid;
                let target = self.grid.focused;
                self.apply_workspace_template(&cfg.templates, target, false, &mut fx);
                let ghost s2 = *self;
                let ghost f2 = fxv(fx@);
                self.finish_ws_change(from, cfg, &mut fx, true);
                proof {
                    assert(navigate_post(&o.grid, &g1, dir));
                }
                proof { assert(nav_step(av, o, *self, *cfg, fxv(fx@))); }
            },
            _ => {},
        }
        fx
    }

    fn nav_diag(&mut self, action: Action, cfg: &DispatchConfig) -> (fx: Vec<Effect>)
        requires
            old(self).wf(),
            is_diag_nav(view_of(action)),
            nav_ok(view_of(action), old(self).grid),
        ensures
            final(self).wf(),
            nav_step(view_of(action), *old(self), *final(self), *cfg, fxv(fx@)),
    {
        let mut fx = no_fx();
        let ghost o = *self;
        let ghost av = view_of(action);
        let from = self.grid.focused;
        match action {
            Action::WorkspaceNW | Action::WorkspaceNE | Action::WorkspaceSW | Action::WorkspaceSE => {
                let (dc, dr): (i8, i8) = match action {
                    Action::WorkspaceNW => (-1, -1),
                    Action::WorkspaceNE => (1, -1),
                    Action::WorkspaceSW => (-1, 1),
                    _ => (1, 1),
                };
                assert(dc as int == diagonal_of(av).0 && dr as int == diagonal_of(av).1);
                let c = apply_delta_exec(from.0, dc, self.grid.cols, self.grid.wrap_x);
                let r = apply_delta_exec(from.1, dr, self.grid.rows, self.grid.wrap_y);
                if let (Some(c), Some(r)) = (c, r) {
                    proof {
                        assert(self.grid.workspaces@[r as int]@.len() >= self.grid.cols);
                        assert(diagonal_target(o.grid, dc as int, dr as int) == Some((c, r)));
                    }
                    self.switch_and_finish((c, r), cfg, &mut fx, false);
                    assert(nav_step(av, o, *self, *cfg, fxv(fx@)));
                } else {
                    assert(diagonal_target(o.grid, dc as int, dr as int) is None);
                    assert(nav_step(av, o, *self, *cfg, fxv(fx@)));
                }
                proof { assert(nav_step(av, o, *self, *cfg, fxv(fx@))); }
            },
            _ => {},
        }
        fx
    }

    fn nav_hist(&mut self, action: Action, cfg: &DispatchConfig) -> (fx: Vec<Effect>)
        requires
            old(self).wf(),
            is_hist_nav(view_of(action)),
            nav_ok(view_of(action), old(self).grid),
        ensures
            final(self).wf(),
            nav_step(view_of(action), *old(self), *final(self), *cfg, fxv(fx@)),
    {
        let mut fx = no_fx();
        let ghost o = *self;
        let ghost av = view_of(action);
        let from = self.grid.focused;
        match action {
            Action::WorkspaceBack | Action::WorkspaceForward => {
                let back = match action {
                    Action::WorkspaceBack => true,
                    _ => false,
                };
                if back {
                    self.grid.workspace_back();
                } else {
                    self.grid.workspace_forward();
                }
                let ghost g1 = self.grid;
                self.finish_ws_change(from, cfg, &mut fx, true);
                proof {
                    assert(ws_change_tail(o.grid.focused, DispatchState { grid: g1, ..o }, *self, Seq::empty(), fxv(fx@), *cfg, true));
                }
                proof { assert(nav_step(av, o, *self, *cfg, fxv(fx@))); }
            },
            _ => {},
        }
        fx
    }

    fn nav_to(&mut self, action: Action, cfg: &DispatchConfig) -> (fx: Vec<Effect>)
        requires
            old(self).wf(),
            view_of(action) matches ActionV::WorkspaceTo(_, _),
            nav_ok(view_of(action), old(self).grid),
        ensures
            final(self).wf(),
            nav_step(view_of(action), *old(self), *final(self), *cfg, fxv(fx@)),
    {
        let mut fx = no_fx();
        let ghost o = *self;
        let ghost av = view_of(action);
        let from = self.grid.focused;
        match action {
            Action::WorkspaceTo(c, r) => {
                self.switch_and_finish((c, r), cfg, &mut fx, true);
                proof { assert(nav_step(av, o, *self, *cfg, fxv(fx@))); }
            },
            _ => {},
        }
        fx
    }

    fn nav_index(&mut self, action: Action, cfg: &DispatchConfig) -> (fx: Vec<Effect>)
        requires
            old(self).wf(),
            view_of(action) matches ActionV::WorkspaceIndex(_),
            nav_ok(view_of(action), old(self).grid),
        ensures
            final(self).wf(),
            nav_step(view_of(action), *old(self), *final(self), *cfg, fxv(fx@)),
    {
        let mut fx = no_fx();
        let ghost o = *self;
        let ghost av = view_of(action);
        let from = self.grid.focused;
        match action {
            Action::WorkspaceIndex(k) => {
                let cols = self.grid.cols;
                let idx: u8 = if k >= 1 { k - 1 } else { 0 };
                let c = idx % cols;
                let r = idx / cols;
                assert((c, r) == index_cell(k, cols));
                self.switch_and_finish((c, r), cfg, &mut fx, true);
                proof { assert(nav_step(av, o, *self, *cfg, fxv(fx@))); }
            },
            _ => {},
        }
        fx
    }

    fn nav_follow(&mut self, action: Action, cfg: &DispatchConfig) -> (fx: Vec<Effect>)
        requires
            old(self).wf(),
            view_of(action) matches ActionV::MoveWindowToWorkspaceAndFollow(_, _),
            nav_ok(view_of(action), old(self).grid),
        ensures
            final(self).wf(),
            nav_step(view_of(action), *old(self), *final(self), *cfg, fxv(fx@)),
    {
        let mut fx = no_fx();
        let ghost o = *self;
        let ghost av = view_of(action);
        let from = self.grid.focused;
        match action {
            Action::MoveWindowToWorkspaceAndFollow(c, r) => {
                push_fx(&mut fx, Effect::AnimateMoves);
                self.grid.move_window_to((c, r));
                let ghost g1 = self.grid;
                let from1 = self.grid.focused;
                proof {
                    reveal(Grid::moved_to);
                }
                self.grid.switch_workspace((c, r));
                let ghost g2 = self.grid;
                self.finish_ws_change(from1, cfg, &mut fx, false);
                proof {
                    assert(move_window_to_post(&o.grid, &g1, (c, r)));
                    assert(switch_workspace_post(&g1, &g2, (c, r)));
                    assert(ws_change_tail(g1.focused, DispatchState { grid: g2, ..o }, *self, seq![EffectV::AnimateMoves], fxv(fx@), *cfg, false));
                }
                proof { assert(nav_step(av, o, *self, *cfg, fxv(fx@))); }
            },
            _ => {},
        }
        fx
    }

    /// Switch to cell `t` as a switch action does.
    pub(crate) fn dispatch_nav_to(&mut self, t: (u8, u8), cfg: &DispatchConfig) -> (fx: Vec<Effect>)
        requires
            old(self).wf(),
            old(self).grid.allocated(t.0 as int, t.1 as int),
        ensures
            final(self).wf(),
            switched(*old(self), *final(self), t, *cfg, fxv(fx@), true),
    {
        let mut fx = no_fx();
        self.switch_and_finish(t, cfg, &mut fx, true);
        fx
    }

    /// Run an action of this group.
    pub fn dispatch_nav(&mut self, action: Action, cfg: &DispatchConfig) -> (fx: Vec<Effect>)
        requires
            old(self).wf(),
            is_nav(view_of(action)),
            nav_ok(view_of(action), old(self).grid),
        ensures
            final(self).wf(),
            nav_step(view_of(action), *old(self), *final(self), *cfg, fxv(fx@)),
    {
        match action {
            Action::WorkspaceLeft | Action::WorkspaceRight | Action::WorkspaceUp | Action::WorkspaceDown => self.nav_dir(action, cfg),
            Action::WorkspaceNW | Action::WorkspaceNE | Action::WorkspaceSW | Action::WorkspaceSE => self.nav_diag(action, cfg),
            Action::WorkspaceBack | Action::WorkspaceForward => self.nav_hist(action, cfg),
            Action::WorkspaceTo(_, _) => self.nav_to(action, cfg),
            Action::WorkspaceIndex(_) => self.nav_index(action, cfg),
            _ => self.nav_follow(action, cfg),
        }
    }
}

} // verus!
