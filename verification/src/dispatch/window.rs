//! Actions on the focused window: focus moves, state toggles, slots, stack
//! operations and moves to other workspaces.
use vstd::prelude::*;

use super::nav::direction_of;
use super::{
    csv, focus_events, fxv, no_fx, push_fx, stack_changed_events, stack_reordered_events, state_slot_events, sync_fx,
    urgency_cleared, DispatchConfig, DispatchState, Effect, EffectV,
};
use crate::grid::posts::{
    assign_slot_post, move_focus_post, move_window_to_post, stack_collapse_post, stack_flip_post, stack_move_down_post,
    stack_move_up_post, stack_next_post, stack_prev_post, stack_promote_post, toggle_floating_post,
    toggle_fullscreen_post, toggle_total_fullscreen_post,
};
use crate::grid::window::{Slot, WindowId, WindowState};
use crate::grid::{FocusDirection, Grid, MoveDirectionResult};
use crate::ipc::commands::{slot_name, state_name};
use crate::ipc::events::{Event, EventV};
use crate::keybind::action::{view_of, Action, ActionV};
use super::nav::index_cell;

verus! {

/// The slot of a slot action.
pub open spec fn slot_of(a: ActionV) -> Slot {
    match a {
        ActionV::SlotHalfLeft => Slot::HalfLeft,
        ActionV::SlotHalfRight => Slot::HalfRight,
        ActionV::SlotQuarterTL => Slot::QuarterTL,
        ActionV::SlotQuarterTR => Slot::QuarterTR,
        ActionV::SlotQuarterBL => Slot::QuarterBL,
        _ => Slot::QuarterBR,
    }
}

pub open spec fn is_focus_act(a: ActionV) -> bool {
    match a {
        ActionV::FocusLeft | ActionV::FocusRight | ActionV::FocusUp | ActionV::FocusDown => true,
        _ => false,
    }
}

pub open spec fn is_slot_act(a: ActionV) -> bool {
    match a {
        ActionV::SlotHalfLeft | ActionV::SlotHalfRight | ActionV::SlotQuarterTL | ActionV::SlotQuarterTR
        | ActionV::SlotQuarterBL | ActionV::SlotQuarterBR => true,
        _ => false,
    }
}

pub open spec fn is_toggle_act(a: ActionV) -> bool {
    match a {
        ActionV::StateFullscreenToggle | ActionV::StateTotalFullscreenToggle | ActionV::StateFloatingToggle
        | ActionV::TotalFullscreenExit => true,
        _ => false,
    }
}

pub open spec fn is_stack_act(a: ActionV) -> bool {
    match a {
        ActionV::StackNext | ActionV::StackPrev | ActionV::StackPromote | ActionV::StackCollapse
        | ActionV::StackFlip(_) | ActionV::StackMoveUp | ActionV::StackMoveDown => true,
        _ => false,
    }
}

pub open spec fn is_move_act(a: ActionV) -> bool {
    match a {
        ActionV::MoveWindowDirection(_) | ActionV::MoveWindowToIndex(_) | ActionV::MoveWindowTo(_, _) => true,
        _ => false,
    }
}

/// The actions of this group.
pub open spec fn is_window(a: ActionV) -> bool {
    is_focus_act(a) || is_slot_act(a) || is_toggle_act(a) || is_stack_act(a) || is_move_act(a)
}

/// Whether an action of this group can run: a focus step leads to an
/// existing cell, the focused window is not in a special workspace, and a
/// collapsed window's centered geometry stays in range.
pub open spec fn window_ok(a: ActionV, g: Grid) -> bool {
    &&& is_focus_act(a) ==> g.step_ok(direction_of(a))
    &&& !is_focus_act(a) ==> g.focus_placed()
    &&& a is StackCollapse ==> g.collapse_fits()
}

/// The focused window is in TotalFullscreen.
pub open spec fn focused_tf(g: Grid) -> bool {
    g.focused_known() matches Some(id) && g.win(id).current_state == WindowState::TotalFullscreen
}

/// The power-profile command for leaving (`was_tf`) or entering TotalFullscreen.
pub open spec fn power_cmd(was_tf: bool) -> Seq<char> {
    if was_tf {
        "powerprofilesctl set balanced"@
    } else {
        "powerprofilesctl set performance"@
    }
}

/// A move of window `id` to (col, row) is refused: the window is known,
/// neither TotalFullscreen nor Floating, and the target holds a
/// TotalFullscreen window.
pub open spec fn tf_protected(g: Grid, id: WindowId, col: u8, row: u8) -> bool {
    &&& g.has_window(id)
    &&& g.win(id).current_state != WindowState::TotalFullscreen
    &&& g.win(id).current_state != WindowState::Floating
    &&& g.in_grid((col, row))
    &&& g.ws_at(col as int, row as int).total_fullscreen_stack@.len() > 0
}

/// The target cell of a move action.
pub open spec fn move_target(a: ActionV, g: Grid) -> (u8, u8) {
    match a {
        ActionV::MoveWindowToIndex(k) => index_cell(k, g.cols),
        ActionV::MoveWindowTo(c, r) => (c, r),
        _ => g.focused,
    }
}

/// The grid after the stack operation of `a`.
pub open spec fn stack_post(a: ActionV, old: &Grid, new: &Grid) -> bool {
    match a {
        ActionV::StackNext => stack_next_post(old, new),
        ActionV::StackPrev => stack_prev_post(old, new),
        ActionV::StackPromote => stack_promote_post(old, new),
        ActionV::StackCollapse => stack_collapse_post(old, new),
        ActionV::StackFlip(k) => stack_flip_post(old, new, k),
        ActionV::StackMoveUp => stack_move_up_post(old, new),
        _ => stack_move_down_post(old, new),
    }
}

/// The stack operations that report a new order.
pub open spec fn reorders(a: ActionV) -> bool {
    a is StackFlip || a is StackMoveUp || a is StackMoveDown
}

/// The events of a directional move of window `id` with result `res`.
pub open spec fn direction_events(id: Option<WindowId>, res: Option<MoveDirectionResult>, g: Grid) -> Seq<EventV> {
    match id {
        Some(id) => match res {
            Some(MoveDirectionResult::Moved { requested, actual, skipped }) => if skipped {
                seq![
                    EventV::WindowMoveSkipped {
                        id,
                        requested_col: requested.0,
                        requested_row: requested.1,
                        actual_col: actual.0,
                        actual_row: actual.1,
                    },
                ]
            } else {
                Seq::empty()
            },
            Some(MoveDirectionResult::Refused) => seq![
                EventV::WindowMoveRefused {
                    id,
                    requested_col: g.focused.0,
                    requested_row: g.focused.1,
                    reason: "all-protected"@,
                },
            ],
            _ => Seq::empty(),
        },
        None => Seq::empty(),
    }
}

/// What an action of this group does.
pub open spec fn window_step(a: ActionV, o: DispatchState, n: DispatchState, cfg: DispatchConfig, fx: Seq<EffectV>) -> bool {
    if is_focus_act(a) {
        exists|g1: Grid|
            {
                &&& #[trigger] move_focus_post(&o.grid, &g1, direction_of(a))
                &&& urgency_cleared(&g1, &n.grid)
                &&& n == DispatchState { grid: n.grid, events: n.events, ..o }
                &&& n.evs() == o.evs() + focus_events(n.grid)
                &&& fx == sync_fx(cfg) + seq![EffectV::UpdateToplevelStates]
            }
    } else if is_slot_act(a) {
        &&& assign_slot_post(&o.grid, &n.grid, slot_of(a))
        &&& n == DispatchState { grid: n.grid, events: n.events, ..o }
        &&& n.evs() == o.evs() + state_slot_events(n.grid)
        &&& fx == seq![EffectV::AnimateMoves]
    } else if a is TotalFullscreenExit {
        if focused_tf(o.grid) {
            &&& toggle_total_fullscreen_post(&o.grid, &n.grid)
            &&& n == DispatchState { grid: n.grid, ..o }
            &&& fx == seq![EffectV::AnimateMoves, EffectV::UpdateToplevelStates] + if cfg.performance_on_total_fullscreen {
                seq![EffectV::Exec(power_cmd(true))]
            } else {
                Seq::empty()
            }
        } else {
            n == o && fx.len() == 0
        }
    } else if is_toggle_act(a) {
        &&& match a {
            ActionV::StateFullscreenToggle => toggle_fullscreen_post(&o.grid, &n.grid),
            ActionV::StateTotalFullscreenToggle => toggle_total_fullscreen_post(&o.grid, &n.grid),
            _ => toggle_floating_post(&o.grid, &n.grid),
        }
        &&& n == DispatchState { grid: n.grid, events: n.events, ..o }
        &&& n.evs() == o.evs() + state_slot_events(n.grid)
        &&& fx == seq![EffectV::AnimateMoves, EffectV::UpdateToplevelStates] + if a is StateTotalFullscreenToggle
            && cfg.performance_on_total_fullscreen {
            seq![EffectV::Exec(power_cmd(focused_tf(o.grid)))]
        } else {
            Seq::empty()
        }
    } else if is_stack_act(a) {
        exists|g1: Grid|
            {
                &&& #[trigger] stack_post(a, &o.grid, &g1)
                &&& urgency_cleared(&g1, &n.grid)
                &&& n == DispatchState { grid: n.grid, events: n.events, ..o }
                &&& n.evs() == o.evs() + stack_changed_events(n.grid) + if reorders(a) {
                    stack_reordered_events(n.grid)
                } else {
                    Seq::empty()
                }
                &&& fx == (if a is StackCollapse { seq![EffectV::AnimateMoves] } else { Seq::empty() }) + sync_fx(cfg)
            }
    } else if a is MoveWindowDirection {
        let dir = a->MoveWindowDirection_0;
        let res = o.grid.direction_result(dir);
        exists|g1: Grid|
            {
                &&& #[trigger] o.grid.moved_by_direction(&g1, dir)
                &&& urgency_cleared(&g1, &n.grid)
                &&& n == DispatchState { grid: n.grid, events: n.events, ..o }
                &&& n.evs() == o.evs() + direction_events(o.grid.focused_window, res, g1)
                &&& fx == seq![EffectV::AnimateMoves] + sync_fx(cfg)
            }
    } else {
        let (col, row) = move_target(a, o.grid);
        match o.grid.focused_window {
            Some(id) => if tf_protected(o.grid, id, col, row) {
                &&& n == DispatchState { events: n.events, ..o }
                &&& n.evs() == o.evs().push(
                    EventV::WindowMoveRefused { id, requested_col: col, requested_row: row, reason: "tf-protected"@ },
                )
                &&& fx.len() == 0
            } else {
                exists|g1: Grid|
                    {
                        &&& #[trigger] move_window_to_post(&o.grid, &g1, (col, row))
                        &&& urgency_cleared(&g1, &n.grid)
                        &&& n == DispatchState { grid: n.grid, events: n.events, ..o }
                        &&& n.evs() == o.evs().push(EventV::WindowMoved { id, col, row })
                        &&& fx == seq![EffectV::AnimateMoves] + sync_fx(cfg)
                    }
            },
            None => {
                &&& urgency_cleared(&o.grid, &n.grid)
                &&& n == DispatchState { grid: n.grid, ..o }
                &&& fx == sync_fx(cfg)
            },
        }
    }
}

impl Grid {
    /// What `move_window_direction_ex` leaves.
    pub open spec fn moved_by_direction(&self, new: &Grid, dir: FocusDirection) -> bool {
        &&& new.wf()
        &&& match self.direction_result(dir) {
            Some(MoveDirectionResult::MovedDirect { target }) => new.moved_to(self, target),
            Some(MoveDirectionResult::Moved { actual, .. }) => new.moved_to(self, actual),
            _ => *new == *self,
        }
    }
}

impl DispatchState {
    /// Report the focused window's state and slot.
    fn emit_state_slot_changed(&mut self)
        requires
            old(self).wf(),
        ensures
            *final(self) == (DispatchState { events: final(self).events, ..*old(self) }),
            final(self).evs() == old(self).evs() + state_slot_events(old(self).grid),
    {
        let ghost e0 = self.evs();
        let id = match self.grid.focused_window {
            Some(id) => id,
            None => {
                assert(self.evs() =~= e0 + state_slot_events(self.grid));
                return;
            },
        };
        let i = match self.grid.find_window(id) {
            Some(i) => i,
            None => {
                assert(self.evs() =~= e0 + state_slot_events(self.grid));
                return;
            },
        };
        let st = self.grid.windows[i].current_state;
        let sl = self.grid.windows[i].current_slot;
        self.push_event(Event::WindowStateChanged { id, state: String::from_str(state_name(st)) });
        if let Some(s) = sl {
            self.push_event(Event::WindowSlotChanged { id, slot: String::from_str(slot_name(s)) });
        }
        proof {
            assert(self.evs() =~= e0 + state_slot_events(old(self).grid));
        }
    }

    /// Report the focused window's stack.
    fn emit_stack_changed(&mut self)
        requires
            old(self).wf(),
        ensures
            *final(self) == (DispatchState { events: final(self).events, ..*old(self) }),
            final(self).evs() == old(self).evs() + stack_changed_events(old(self).grid),
    {
        let ghost e0 = self.evs();
        proof {
            assert(e0 + Seq::<EventV>::empty() =~= e0);
        }
        let id = match self.grid.focused_window {
            Some(id) => id,
            None => return,
        };
        let i = match self.grid.find_window(id) {
            Some(i) => i,
            None => return,
        };
        let s = match self.grid.windows[i].current_slot {
            Some(s) => s,
            None => return,
        };
        let size = self.grid.slot_stack_size(self.grid.focused, s);
        self.push_event(Event::WindowStackChanged { slot: String::from_str(slot_name(s)), top_id: id, size });
        proof {
            assert(self.evs() =~= e0 + stack_changed_events(old(self).grid));
        }
    }

    /// Report the focused window's stack order, when it holds two or more.
    fn emit_stack_reordered(&mut self)
        requires
            old(self).wf(),
        ensures
            *final(self) == (DispatchState { events: final(self).events, ..*old(self) }),
            final(self).evs() == old(self).evs() + stack_reordered_events(old(self).grid),
    {
        let ghost e0 = self.evs();
        proof {
            assert(e0 + Seq::<EventV>::empty() =~= e0);
        }
        let id = match self.grid.focused_window {
            Some(id) => id,
            None => return,
        };
        let i = match self.grid.find_window(id) {
            Some(i) => i,
            None => return,
        };
        let s = match self.grid.windows[i].current_slot {
            Some(s) => s,
            None => return,
        };
        let ids = self.grid.slot_stack_ids(self.grid.windows[i].workspace, s);
        if ids.len() < 2 {
            return;
        }
        let order_csv = super::csv_exec(&ids);
        self.push_event(Event::WindowStackReordered { slot: String::from_str(slot_name(s)), order_csv });
        proof {
            assert(self.evs() =~= e0 + stack_reordered_events(old(self).grid));
        }
    }

    /// Report the focus and ask toplevel clients to update.
    fn emit_focus_changed(&mut self, fx: &mut Vec<Effect>)
        requires
            old(self).wf(),
        ensures
            *final(self) == (DispatchState { events: final(self).events, ..*old(self) }),
            final(self).evs() == old(self).evs() + focus_events(old(self).grid),
            fxv(final(fx)@) == fxv(old(fx)@).push(EffectV::UpdateToplevelStates),
    {
        let ghost e0 = self.evs();
        if let Some(id) = self.grid.focused_window {
            self.push_event(Event::WindowFocus { id });
        }
        proof {
            assert(self.evs() =~= e0 + focus_events(old(self).grid));
        }
        push_fx(fx, Effect::UpdateToplevelStates);
    }
}

fn focused_is_tf(g: &Grid) -> (r: bool)
    requires
        g.wf(),
    ensures
        r == focused_tf(*g),
{
    match g.focused_window {
        Some(id) => match g.find_window(id) {
            Some(i) => match g.windows[i].current_state {
                WindowState::TotalFullscreen => true,
                _ => false,
            },
            None => false,
        },
        None => false,
    }
}

fn is_tf_protected(g: &Grid, id: WindowId, col: u8, row: u8) -> (r: bool)
    requires
        g.wf(),
    ensures
        r == tf_protected(*g, id, col, row),
{
    match g.find_window(id) {
        Some(i) => {
            let st = g.windows[i].current_state;
            match st {
                WindowState::TotalFullscreen | WindowState::Floating => false,
                _ => g.workspace_has_total_fullscreen((col, row)),
            }
        },
        None => false,
    }
}

fn power_cmd_exec(was_tf: bool) -> (r: String)
    ensures
        r@ == power_cmd(was_tf),
{
    if was_tf {
        String::from_str("powerprofilesctl set balanced")
    } else {
        String::from_str("powerprofilesctl set performance")
    }
}

impl DispatchState {
    fn win_focus(&mut self, action: Action, cfg: &DispatchConfig) -> (fx: Vec<Effect>)
        requires
            old(self).wf(),
            is_focus_act(view_of(action)),
            window_ok(view_of(action), old(self).grid),
        ensures
            final(self).wf(),
            window_step(view_of(action), *old(self), *final(self), *cfg, fxv(fx@)),
    {
        let mut fx = no_fx();
        let dir = match action {
            Action::FocusLeft => FocusDirection::Left,
            Action::FocusRight => FocusDirection::Right,
            Action::FocusUp => FocusDirection::Up,
            _ => FocusDirection::Down,
        };
        assert(dir == direction_of(view_of(action)));
        self.grid.move_focus(dir);
        let ghost g1 = self.grid;
        self.sync_focus(cfg, &mut fx);
        self.emit_focus_changed(&mut fx);
        proof {
            assert(move_focus_post(&old(self).grid, &g1, dir));
            assert(fxv(fx@) =~= sync_fx(*cfg) + seq![EffectV::UpdateToplevelStates]);
        }
        fx
    }

    fn win_slot(&mut self, action: Action, cfg: &DispatchConfig) -> (fx: Vec<Effect>)
        requires
            old(self).wf(),
            is_slot_act(view_of(action)),
            window_ok(view_of(action), old(self).grid),
        ensures
            final(self).wf(),
            window_step(view_of(action), *old(self), *final(self), *cfg, fxv(fx@)),
    {
        let mut fx = no_fx();
        let s = match action {
            Action::SlotHalfLeft => Slot::HalfLeft,
            Action::SlotHalfRight => Slot::HalfRight,
            Action::SlotQuarterTL => Slot::QuarterTL,
            Action::SlotQuarterTR => Slot::QuarterTR,
            Action::SlotQuarterBL => Slot::QuarterBL,
            _ => Slot::QuarterBR,
        };
        assert(s == slot_of(view_of(action)));
        push_fx(&mut fx, Effect::AnimateMoves);
        self.grid.assign_slot(s);
        self.emit_state_slot_changed();
        fx
    }

    #[verifier::rlimit(30)]
    fn win_toggle(&mut self, action: Action, cfg: &DispatchConfig) -> (fx: Vec<Effect>)
        requires
            old(self).wf(),
            is_toggle_act(view_of(action)),
            window_ok(view_of(action), old(self).grid),
        ensures
            final(self).wf(),
            window_step(view_of(action), *old(self), *final(self), *cfg, fxv(fx@)),
    {
        let mut fx = no_fx();
        let was_tf = focused_is_tf(&self.grid);
        match action {
            Action::TotalFullscreenExit => {
                if was_tf {
                    push_fx(&mut fx, Effect::AnimateMoves);
                    self.grid.toggle_total_fullscreen();
                    push_fx(&mut fx, Effect::UpdateToplevelStates);
                    if cfg.performance_on_total_fullscreen {
                        push_fx(&mut fx, Effect::Exec(power_cmd_exec(true)));
                    }
                }
                proof {
                    if was_tf {
                        assert(fxv(fx@) =~= seq![EffectV::AnimateMoves, EffectV::UpdateToplevelStates] + if cfg.performance_on_total_fullscreen {
                            seq![EffectV::Exec(power_cmd(true))]
                        } else {
                            Seq::<EffectV>::empty()
                        });
                    }
                }
                return fx;
            },
            Action::StateFullscreenToggle => {
                push_fx(&mut fx, Effect::AnimateMoves);
                self.grid.toggle_fullscreen();
            },
            Action::StateTotalFullscreenToggle => {
                push_fx(&mut fx, Effect::AnimateMoves);
                self.grid.toggle_total_fullscreen();
            },
            _ => {
                push_fx(&mut fx, Effect::AnimateMoves);
                self.grid.toggle_floating();
            },
        }
        push_fx(&mut fx, Effect::UpdateToplevelStates);
        self.emit_state_slot_changed();
        let is_tft = match action {
            Action::StateTotalFullscreenToggle => true,
            _ => false,
        };
        if is_tft && cfg.performance_on_total_fullscreen {
            push_fx(&mut fx, Effect::Exec(power_cmd_exec(was_tf)));
        }
        proof {
            assert(fxv(fx@) =~= seq![EffectV::AnimateMoves, EffectV::UpdateToplevelStates] + if is_tft
                && cfg.performance_on_total_fullscreen {
                seq![EffectV::Exec(power_cmd(was_tf))]
            } else {
                Seq::<EffectV>::empty()
            });
        }
        fx
    }

    #[verifier::rlimit(30)]
    fn win_stack(&mut self, action: Action, cfg: &DispatchConfig) -> (fx: Vec<Effect>)
        requires
            old(self).wf(),
            is_stack_act(view_of(action)),
            window_ok(view_of(action), old(self).grid),
        ensures
            final(self).wf(),
            window_step(view_of(action), *old(self), *final(self), *cfg, fxv(fx@)),
    {
        let mut fx = no_fx();
        let ghost av = view_of(action);
        let reorder = match action {
            Action::StackFlip(_) | Action::StackMoveUp | Action::StackMoveDown => true,
            _ => false,
        };
        assert(reorder == reorders(av));
        match action {
            Action::StackNext => self.grid.stack_next(),
            Action::StackPrev => self.grid.stack_prev(),
            Action::StackPromote => self.grid.stack_promote(),
            Action::StackCollapse => {
                push_fx(&mut fx, Effect::AnimateMoves);
                self.grid.stack_collapse();
            },
            Action::StackFlip(k) => self.grid.stack_flip(k),
            Action::StackMoveUp => self.grid.stack_move_up(),
            _ => self.grid.stack_move_down(),
        }
        let ghost g1 = self.grid;
        let ghost f1 = fxv(fx@);
        assert(f1 == (if av is StackCollapse { seq![EffectV::AnimateMoves] } else { Seq::<EffectV>::empty() }));
        assert(stack_post(av, &old(self).grid, &g1));
        self.sync_focus(cfg, &mut fx);
        let ghost e0 = self.evs();
        self.emit_stack_changed();
        if reorder {
            self.emit_stack_reordered();
        }
        proof {
            if !reorder {
                assert(self.evs() =~= self.evs() + Seq::<EventV>::empty());
            }
        }
        fx
    }

    #[verifier::rlimit(30)]
    fn win_move(&mut self, action: Action, cfg: &DispatchConfig) -> (fx: Vec<Effect>)
        requires
            old(self).wf(),
            is_move_act(view_of(action)),
            window_ok(view_of(action), old(self).grid),
        ensures
            final(self).wf(),
            window_step(view_of(action), *old(self), *final(self), *cfg, fxv(fx@)),
    {
        let mut fx = no_fx();
        let ghost av = view_of(action);
        let ghost o = *self;
        let (col, row) = match action {
            Action::MoveWindowDirection(dir) => {
                let win_id = self.grid.focused_window;
                push_fx(&mut fx, Effect::AnimateMoves);
                let res = self.grid.move_window_direction_ex(dir);
                let ghost g1 = self.grid;
                let ghost e0 = self.evs();
                if let Some(id) = win_id {
                    match res {
                        Some(MoveDirectionResult::Moved { requested, actual, skipped }) => {
                            if skipped {
                                self.push_event(
                                    Event::WindowMoveSkipped {
                                        id,
                                        requested_col: requested.0,
                                        requested_row: requested.1,
                                        actual_col: actual.0,
                                        actual_row: actual.1,
                                    },
                                );
                            }
                        },
                        Some(MoveDirectionResult::Refused) => {
                            let (fc, fr) = self.grid.focused;
                            self.push_event(
                                Event::WindowMoveRefused {
                                    id,
                                    requested_col: fc,
                                    requested_row: fr,
                                    reason: String::from_str("all-protected"),
                                },
                            );
                        },
                        _ => {},
                    }
                }
                proof {
                    reveal_strlit("all-protected");
                    assert(self.evs() =~= e0 + direction_events(o.grid.focused_window, res, g1));
                    assert(o.grid.moved_by_direction(&g1, dir));
                }
                self.sync_focus(cfg, &mut fx);
                return fx;
            },
            Action::MoveWindowToIndex(k) => {
                let cols = self.grid.cols;
                let idx: u8 = if k >= 1 { k - 1 } else { 0 };
                (idx % cols, idx / cols)
            },
            Action::MoveWindowTo(c, r) => (c, r),
            _ => (0, 0),
        };
        assert((col, row) == move_target(av, o.grid));
        if let Some(id) = self.grid.focused_window {
            if is_tf_protected(&self.grid, id, col, row) {
                self.push_event(
                    Event::WindowMoveRefused {
                        id,
                        requested_col: col,
                        requested_row: row,
                        reason: String::from_str("tf-protected"),
                    },
                );
                proof {
                    reveal_strlit("tf-protected");
                }
                return fx;
            }
            push_fx(&mut fx, Effect::AnimateMoves);
            self.grid.move_window_to((col, row));
            let ghost g1 = self.grid;
            self.push_event(Event::WindowMoved { id, col, row });
            self.sync_focus(cfg, &mut fx);
            proof {
                assert(move_window_to_post(&o.grid, &g1, (col, row)));
            }
        } else {
            self.sync_focus(cfg, &mut fx);
            proof {
                assert(fxv(fx@) =~= sync_fx(*cfg));
            }
        }
        fx
    }

    /// Run an action of this group.
    pub fn dispatch_window(&mut self, action: Action, cfg: &DispatchConfig) -> (fx: Vec<Effect>)
        requires
            old(self).wf(),
            is_window(view_of(action)),
            window_ok(view_of(action), old(self).grid),
        ensures
            final(self).wf(),
            window_step(view_of(action), *old(self), *final(self), *cfg, fxv(fx@)),
    {
        match action {
            Action::FocusLeft | Action::FocusRight | Action::FocusUp | Action::FocusDown => self.win_focus(action, cfg),
            Action::SlotHalfLeft | Action::SlotHalfRight | Action::SlotQuarterTL | Action::SlotQuarterTR
            | Action::SlotQuarterBL | Action::SlotQuarterBR => self.win_slot(action, cfg),
            Action::StateFullscreenToggle | Action::StateTotalFullscreenToggle | Action::StateFloatingToggle
            | Action::TotalFullscreenExit => self.win_toggle(action, cfg),
            Action::MoveWindowDirection(_) | Action::MoveWindowToIndex(_) | Action::MoveWindowTo(_, _) => self.win_move(
                action,
                cfg,
            ),
            _ => self.win_stack(action, cfg),
        }
    }
}

} // verus!
