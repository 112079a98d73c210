//! Running any action: which group runs it, when it can run, and what it
//! does, with the submap wrapper that leaves the submap first.
use vstd::prelude::*;

use super::misc::{geometry_fits, focused_floating, is_flags, is_props, is_spawn, misc_step};
use super::nav::{direction_of, index_cell, is_nav, nav_ok, nav_step, switch_target};
use super::overview::{is_overview_act, overview_ok, overview_step_spec};
use super::special::{is_special_act, special_step};
use super::window::{is_focus_act, is_window, window_ok, window_step};
use super::{fxv, DispatchConfig, DispatchState, Effect, EffectV};
use crate::grid::window::WindowState;
use crate::grid::{FocusDirection, Grid};
use crate::keybind::action::{view_of, Action, ActionV};

verus! {

/// Whether action `a` can run on state `s` without reaching a cell that
/// does not exist, moving a window kept in a special workspace, or leaving
/// the `i32` range (inputs on which the compositor would otherwise stop).
pub open spec fn action_ok(a: ActionV, s: DispatchState) -> bool
    decreases a,
{
    match a {
        ActionV::SubmapActionThenReset(inner) => action_ok(*inner, DispatchState { active_submap: None, ..s }),
        _ => {
            &&& geometry_fits(a, s.grid)
            &&& is_nav(a) ==> nav_ok(a, s.grid)
            &&& is_window(a) ==> window_ok(a, s.grid)
            &&& is_overview_act(a) ==> overview_ok(a, s)
        },
    }
}

/// What running action `a` on state `o` does: the state `n` it leaves,
/// whether the compositor quits, and the effects asked for, in order.
pub open spec fn dispatched(a: ActionV, o: DispatchState, n: DispatchState, cfg: DispatchConfig, quit: bool, fx: Seq<EffectV>) -> bool
    decreases a,
{
    match a {
        ActionV::SubmapActionThenReset(inner) => dispatched(*inner, DispatchState { active_submap: None, ..o }, n, cfg, quit, fx),
        _ => if is_flags(a) || is_spawn(a) || is_props(a) {
            misc_step(a, o, n, cfg, quit, fx)
        } else {
            &&& !quit
            &&& if is_nav(a) {
                nav_step(a, o, n, cfg, fx)
            } else if is_window(a) {
                window_step(a, o, n, cfg, fx)
            } else if is_overview_act(a) {
                overview_step_spec(a, o, n, cfg, fx)
            } else {
                special_step(a, o, n, cfg, fx)
            }
        },
    }
}

/// Run action `action`: the state changes as `dispatched` says; the result
/// is whether the compositor should quit and the effects to perform.
pub fn dispatch(action: Action, st: &mut DispatchState, cfg: &DispatchConfig) -> (r: (bool, Vec<Effect>))
    requires
        old(st).wf(),
        action_ok(view_of(action), *old(st)),
    ensures
        final(st).wf(),
        dispatched(view_of(action), *old(st), *final(st), *cfg, r.0, fxv(r.1@)),
    decreases action,
{
    match action {
        Action::SubmapActionThenReset(inner) => {
            st.active_submap = None;
            dispatch(*inner, st, cfg)
        },
        Action::Exec(_) | Action::CloseWindow | Action::Quit | Action::ReloadConfig | Action::ReloadTheme
        | Action::OsdShow(_) | Action::CycleShader | Action::CheatsheetToggle | Action::DebugOverlayToggle
        | Action::WorkspaceSync | Action::MinimapToggle | Action::StackPeek | Action::Screenshot(_) => st.dispatch_flags(
            action,
            cfg,
        ),
        Action::SpawnFloating(_) | Action::SpawnInSlot(_, _) | Action::SpawnOnWorkspace(_, _, _)
        | Action::SpawnStacked(_) | Action::Submap(_) | Action::SubmapReset | Action::ScreenShader(_) => st.dispatch_spawn(
            action,
            cfg,
        ),
        Action::SetWindowShader(_, _) | Action::WorkspaceRename(_, _, _) | Action::CenterFloating
        | Action::ResizeActive(_, _) => st.dispatch_props(action, cfg),
        Action::WorkspaceLeft | Action::WorkspaceRight | Action::WorkspaceUp | Action::WorkspaceDown
        | Action::WorkspaceNW | Action::WorkspaceNE | Action::WorkspaceSW | Action::WorkspaceSE
        | Action::WorkspaceBack | Action::WorkspaceForward | Action::WorkspaceTo(_, _) | Action::WorkspaceIndex(_)
        | Action::MoveWindowToWorkspaceAndFollow(_, _) => (false, st.dispatch_nav(action, cfg)),
        Action::OverviewToggle | Action::OverviewFocusLeft | Action::OverviewFocusRight | Action::OverviewFocusUp
        | Action::OverviewFocusDown | Action::OverviewActivate | Action::OverviewWindowNext
        | Action::OverviewWindowPrev | Action::OverviewGrabWindow | Action::OverviewDropWindow
        | Action::OverviewCancelGrab | Action::OverviewPeek => (false, st.dispatch_overview(action, cfg)),
        Action::ToggleSpecial(_) | Action::MoveToSpecial(_) | Action::ApplyTemplate(_, _) => (
            false,
            st.dispatch_special(action, cfg),
        ),
        _ => (false, st.dispatch_window(action, cfg)),
    }
}

// ─── The check a caller makes first ──────────────────────────────────────────

impl Grid {
    /// Whether the step from the focused cell toward `dir` leads to an
    /// existing cell.
    pub fn step_is_ok(&self, dir: FocusDirection) -> (r: bool)
        requires
            self.wf(),
        ensures
            r == self.step_ok(dir),
    {
        proof {
            assert(self.allocated(self.focused.0 as int, self.focused.1 as int));
        }
        match self.step_from(self.focused.0, self.focused.1, dir) {
            Some(t) => self.is_allocated(t),
            None => true,
        }
    }

    /// Whether cell `t` exists.
    pub fn is_allocated(&self, t: (u8, u8)) -> (r: bool)
        ensures
            r == self.allocated(t.0 as int, t.1 as int),
    {
        (t.1 as usize) < self.workspaces.len() && (t.0 as usize) < self.workspaces[t.1 as usize].len()
    }

    /// Whether centering the focused window's collapsed geometry stays in range.
    pub fn collapse_is_ok(&self) -> (r: bool)
        requires
            self.wf(),
        ensures
            r == self.collapse_fits(),
    {
        let id = match self.focused_window {
            Some(id) => id,
            None => return true,
        };
        let i = match self.find_window(id) {
            Some(i) => i,
            None => return true,
        };
        let g = self.windows[i].floating_geom;
        let w: i64 = if (g.w as i64) < 400 { 400 } else { g.w as i64 };
        let h: i64 = if (g.h as i64) < 300 { 300 } else { g.h as i64 };
        let x = self.output_w as i64 - w;
        let y = self.output_h as i64 - h;
        x >= i32::MIN as i64 && x <= i32::MAX as i64 && y >= i32::MIN as i64 && y <= i32::MAX as i64
    }
}

fn geometry_is_ok(a: &Action, g: &Grid) -> (r: bool)
    requires
        g.wf(),
    ensures
        r == geometry_fits(view_of(*a), *g),
{
    let id = match g.focused_window {
        Some(id) => id,
        None => return true,
    };
    let i = match g.find_window(id) {
        Some(i) => i,
        None => return true,
    };
    match g.windows[i].current_state {
        WindowState::Floating => {},
        _ => return true,
    }
    let fg = g.windows[i].floating_geom;
    match a {
        Action::CenterFloating => {
            let x = g.output_w as i64 - fg.w as i64;
            let y = g.output_h as i64 - fg.h as i64;
            x >= i32::MIN as i64 && x <= i32::MAX as i64 && y >= i32::MIN as i64 && y <= i32::MAX as i64
        },
        Action::ResizeActive(dx, dy) => {
            let w = fg.w as i64 + *dx as i64;
            let h = fg.h as i64 + *dy as i64;
            w >= i32::MIN as i64 && w <= i32::MAX as i64 && h >= i32::MIN as i64 && h <= i32::MAX as i64
        },
        _ => true,
    }
}

/// Whether `action` can run on `st` (see `action_ok`); a caller tests it
/// before `dispatch`.
pub fn action_allowed(action: &Action, st: &DispatchState) -> (r: bool)
    requires
        st.wf(),
    ensures
        r == action_ok(view_of(*action), *st),
    decreases *action,
{
    match action {
        Action::SubmapActionThenReset(inner) => {
            let r = action_allowed_without_submap(&**inner, st);
            proof {
                assert(r == action_ok(view_of(**inner), DispatchState { active_submap: None, ..*st }));
            }
            r
        },
        _ => {
            let r = action_allowed_without_submap(action, st);
            proof {
                assert(r == action_ok(view_of(*action), DispatchState { active_submap: st.active_submap, ..*st }));
                assert(DispatchState { active_submap: st.active_submap, ..*st } == *st);
            }
            r
        },
    }
}

/// `action_allowed`, ignoring the active submap (which no check reads).
fn action_allowed_without_submap(action: &Action, st: &DispatchState) -> (r: bool)
    requires
        st.wf(),
    ensures
        forall|sub: Option<String>| r == #[trigger] action_ok(view_of(*action), DispatchState { active_submap: sub, ..*st }),
    decreases *action,
{
    let g = &st.grid;
    match action {
        Action::SubmapActionThenReset(inner) => {
            let r = action_allowed_without_submap(&**inner, st);
            proof {
                assert forall|sub: Option<String>| r == #[trigger] action_ok(
                    view_of(*action),
                    DispatchState { active_submap: sub, ..*st },
                ) by {
                    assert(DispatchState { active_submap: None, ..DispatchState { active_submap: sub, ..*st } }
                        == DispatchState { active_submap: None, ..*st });
                    assert(r == action_ok(view_of(**inner), DispatchState { active_submap: None, ..*st }));
                }
            }
            r
        },
        _ => {
            let geom = geometry_is_ok(action, g);
            let nav = match action {
                Action::WorkspaceLeft => g.step_is_ok(FocusDirection::Left),
                Action::WorkspaceRight => g.step_is_ok(FocusDirection::Right),
                Action::WorkspaceUp => g.step_is_ok(FocusDirection::Up),
                Action::WorkspaceDown => g.step_is_ok(FocusDirection::Down),
                Action::WorkspaceTo(c, r) => g.is_allocated((*c, *r)),
                Action::WorkspaceIndex(k) => {
                    let idx: u8 = if *k >= 1 { *k - 1 } else { 0 };
                    g.is_allocated((idx % g.cols, idx / g.cols))
                },
                Action::MoveWindowToWorkspaceAndFollow(c, r) => g.is_allocated((*c, *r)) && g.focus_is_placed(),
                _ => true,
            };
            let win = match action {
                Action::FocusLeft => g.step_is_ok(FocusDirection::Left),
                Action::FocusRight => g.step_is_ok(FocusDirection::Right),
                Action::FocusUp => g.step_is_ok(FocusDirection::Up),
                Action::FocusDown => g.step_is_ok(FocusDirection::Down),
                Action::StackCollapse => g.focus_is_placed() && g.collapse_is_ok(),
                Action::StateFullscreenToggle | Action::StateTotalFullscreenToggle | Action::StateFloatingToggle
                | Action::TotalFullscreenExit | Action::SlotHalfLeft | Action::SlotHalfRight | Action::SlotQuarterTL
                | Action::SlotQuarterTR | Action::SlotQuarterBL | Action::SlotQuarterBR | Action::StackNext
                | Action::StackPrev | Action::StackPromote | Action::StackFlip(_) | Action::StackMoveUp
                | Action::StackMoveDown | Action::MoveWindowDirection(_) | Action::MoveWindowToIndex(_)
                | Action::MoveWindowTo(_, _) => g.focus_is_placed(),
                _ => true,
            };
            let ov = match action {
                Action::OverviewToggle | Action::OverviewFocusLeft | Action::OverviewFocusRight
                | Action::OverviewFocusUp | Action::OverviewFocusDown | Action::OverviewWindowNext
                | Action::OverviewWindowPrev | Action::OverviewGrabWindow | Action::OverviewCancelGrab
                | Action::OverviewPeek => st.overview_focused.0 < 255 && st.overview_focused.1 < 255,
                Action::OverviewActivate | Action::OverviewDropWindow => st.overview_focused.0 < 255
                    && st.overview_focused.1 < 255 && (!(st.is_overview && st.overview_grabbed_window.is_none())
                    || g.is_allocated(st.overview_focused)),
                _ => true,
            };
            geom && nav && win && ov
        },
    }
}

} // verus!
