//! The overview: toggling it, moving its keyboard focus between
//! thumbnails, selecting, grabbing and dropping windows, and the peek.
use vstd::prelude::*;

use super::nav::{switched, is_nav, nav_ok, nav_step};
use super::{fxv, no_fx, push_fx, sync_fx, urgency_cleared, DispatchConfig, DispatchState, Effect, EffectV};
use crate::grid::posts::move_window_to_post;
use crate::grid::window::{WindowId, WindowState};
use crate::grid::Grid;
use crate::ipc::events::{Event, EventV};
use crate::keybind::action::{view_of, Action, ActionV};

verus! {

/// The windows of `ids` that show: known, placed, not swallowed.
pub open spec fn shown_ids(g: Grid, ids: Seq<WindowId>) -> Seq<WindowId>
    decreases ids.len(),
{
    if ids.len() == 0 {
        Seq::empty()
    } else {
        let prev = shown_ids(g, ids.drop_last());
        let id = ids.last();
        if g.rect_spec(id) is Some && !g.win(id).is_swallowed {
            prev.push(id)
        } else {
            prev
        }
    }
}

/// The windows a thumbnail shows, bottom to top.
pub open spec fn cell_shown(g: Grid, c: (u8, u8)) -> Seq<WindowId> {
    if g.in_grid(c) {
        shown_ids(g, g.ws_at(c.0 as int, c.1 as int).z_order())
    } else {
        Seq::empty()
    }
}

/// Move the grabbed window `id` to `target`, as the overview does: it gets
/// focus and moves (when not in a special workspace).
pub open spec fn carried(g0: Grid, g1: Grid, id: WindowId, target: (u8, u8)) -> bool {
    let gf = Grid { focused_window: Some(id), ..g0 };
    if gf.focus_placed() {
        move_window_to_post(&gf, &g1, target)
    } else {
        g1 == gf
    }
}

pub open spec fn is_overview_act(a: ActionV) -> bool {
    match a {
        ActionV::OverviewToggle | ActionV::OverviewFocusLeft | ActionV::OverviewFocusRight | ActionV::OverviewFocusUp
        | ActionV::OverviewFocusDown | ActionV::OverviewActivate | ActionV::OverviewWindowNext
        | ActionV::OverviewWindowPrev | ActionV::OverviewGrabWindow | ActionV::OverviewDropWindow
        | ActionV::OverviewCancelGrab | ActionV::OverviewPeek => true,
        _ => false,
    }
}

/// Whether an overview action can run: the thumbnail focus is inside the
/// `u8` range, and an activation switches to an existing cell.
pub open spec fn overview_ok(a: ActionV, s: DispatchState) -> bool {
    &&& s.overview_focused.0 < 255
    &&& s.overview_focused.1 < 255
    &&& (a is OverviewActivate || a is OverviewDropWindow) && s.is_overview && s.overview_grabbed_window is None
        ==> s.grid.allocated(s.overview_focused.0 as int, s.overview_focused.1 as int)
}

/// The thumbnail a focus move reaches.
pub open spec fn overview_step(a: ActionV, s: DispatchState) -> (u8, u8) {
    let (c, r) = s.overview_focused;
    match a {
        ActionV::OverviewFocusLeft => ((if c > 0 { c - 1 } else { 0 }) as u8, r),
        ActionV::OverviewFocusRight => ((if c + 1 < s.grid.cols - 1 { c + 1 } else { s.grid.cols - 1 }) as u8, r),
        ActionV::OverviewFocusUp => (c, (if r > 0 { r - 1 } else { 0 }) as u8),
        _ => (c, (if r + 1 < s.grid.rows - 1 { r + 1 } else { s.grid.rows - 1 }) as u8),
    }
}

/// Closing the overview: the grab, if any, is cancelled and its window
/// carried back to its cell.
pub open spec fn closed_overview(o: DispatchState, n: DispatchState, fx: Seq<EffectV>) -> bool {
    &&& n.is_overview == false
    &&& n.overview_window_idx == 0
    &&& n.overview_grabbed_window is None
    &&& n.overview_grab_origin == (if o.overview_grabbed_window is Some { None } else { o.overview_grab_origin })
    &&& n.evs() == o.evs() + seq![EventV::OverviewClosed, EventV::ViewModeChanged { mode: "focus"@ }]
    &&& match (o.overview_grabbed_window, o.overview_grab_origin) {
        (Some(w), Some(origin)) => carried(o.grid, n.grid, w, origin) && fx == seq![EffectV::AnimateMoves],
        _ => n.grid == o.grid && fx.len() == 0,
    }
    &&& n == DispatchState {
        grid: n.grid,
        is_overview: n.is_overview,
        overview_window_idx: n.overview_window_idx,
        overview_grabbed_window: n.overview_grabbed_window,
        overview_grab_origin: n.overview_grab_origin,
        events: n.events,
        ..o
    }
}

/// What an overview action does.
pub open spec fn overview_step_spec(a: ActionV, o: DispatchState, n: DispatchState, cfg: DispatchConfig, fx: Seq<EffectV>) -> bool {
    match a {
        ActionV::OverviewToggle => if !o.is_overview {
            &&& n == DispatchState {
                is_overview: true,
                overview_focused: o.grid.focused,
                overview_window_idx: 0,
                events: n.events,
                ..o
            }
            &&& n.evs() == o.evs() + seq![EventV::OverviewOpened, EventV::ViewModeChanged { mode: "overview"@ }]
            &&& fx.len() == 0
        } else {
            closed_overview(o, n, fx)
        },
        ActionV::OverviewFocusLeft | ActionV::OverviewFocusRight | ActionV::OverviewFocusUp | ActionV::OverviewFocusDown => {
            let t = overview_step(a, o);
            if !o.is_overview || t == o.overview_focused {
                n == o && fx.len() == 0
            } else {
                &&& n == DispatchState { grid: n.grid, overview_focused: t, overview_window_idx: 0, ..o }
                &&& match o.overview_grabbed_window {
                    Some(w) => carried(o.grid, n.grid, w, t) && fx == seq![EffectV::AnimateMoves],
                    None => n.grid == o.grid && fx.len() == 0,
                }
            }
        },
        ActionV::OverviewActivate | ActionV::OverviewDropWindow => if !o.is_overview {
            n == o && fx.len() == 0
        } else {
            match o.overview_grabbed_window {
                Some(w) => {
                    &&& n == DispatchState {
                        grid: n.grid,
                        overview_grabbed_window: None,
                        overview_grab_origin: None,
                        ..o
                    }
                    &&& carried(o.grid, n.grid, w, o.overview_focused)
                    &&& fx == seq![EffectV::AnimateMoves]
                },
                None => {
                    let t = o.overview_focused;
                    let shown = cell_shown(o.grid, t);
                    let closed = DispatchState { is_overview: false, overview_window_idx: 0, events: n.events, ..o };
                    exists|s1: DispatchState, s2: DispatchState, f1: Seq<EffectV>|
                        {
                            &&& s1 == DispatchState { is_overview: false, overview_window_idx: 0, events: s1.events, ..o }
                            &&& s1.evs() == o.evs() + seq![EventV::OverviewClosed, EventV::ViewModeChanged { mode: "focus"@ }]
                            &&& #[trigger] switched(s1, s2, t, cfg, f1, true)
                            &&& if o.overview_window_idx < shown.len() {
                                let id = shown[o.overview_window_idx as int];
                                &&& urgency_cleared(&Grid { focused_window: Some(id), ..s2.grid }, &n.grid)
                                &&& n == DispatchState { grid: n.grid, ..s2 }
                                &&& fx == f1 + sync_fx(cfg)
                            } else {
                                n == s2 && fx == f1
                            }
                        }
                },
            }
        },
        ActionV::OverviewWindowNext | ActionV::OverviewWindowPrev => {
            let k = cell_shown(o.grid, o.overview_focused).len();
            &&& fx.len() == 0
            &&& if o.is_overview && k > 0 {
                n == DispatchState {
                    overview_window_idx: (if a is OverviewWindowNext {
                        (o.overview_window_idx + 1) % (k as int)
                    } else {
                        (o.overview_window_idx + k - 1) % (k as int)
                    }) as usize,
                    ..o
                }
            } else {
                n == o
            }
        },
        ActionV::OverviewGrabWindow => {
            let shown = cell_shown(o.grid, o.overview_focused);
            let idx: int = if o.overview_window_idx < shown.len() {
                o.overview_window_idx as int
            } else if shown.len() > 0 {
                shown.len() - 1
            } else {
                0
            };
            &&& fx.len() == 0
            &&& if o.is_overview && o.overview_grabbed_window is None && shown.len() > 0 {
                n == DispatchState {
                    overview_grabbed_window: Some(shown[idx]),
                    overview_grab_origin: Some(o.overview_focused),
                    ..o
                }
            } else {
                n == o
            }
        },
        ActionV::OverviewCancelGrab => if o.is_overview && o.overview_grabbed_window is Some {
            match o.overview_grab_origin {
                Some(origin) => {
                    &&& n == DispatchState {
                        grid: n.grid,
                        overview_grabbed_window: None,
                        overview_grab_origin: None,
                        ..o
                    }
                    &&& carried(o.grid, n.grid, o.overview_grabbed_window->0, origin)
                    &&& fx == seq![EffectV::AnimateMoves]
                },
                None => n == (DispatchState { overview_grabbed_window: None, ..o }) && fx.len() == 0,
            }
        } else {
            n == o && fx.len() == 0
        },
        _ => {
            &&& fx.len() == 0
            &&& if !o.is_overview_peeking {
                &&& n == DispatchState {
                    is_overview_peeking: true,
                    overview_focused: o.grid.focused,
                    overview_window_idx: 0,
                    events: n.events,
                    ..o
                }
                &&& n.evs() == o.evs().push(EventV::ViewModeChanged { mode: "overview"@ })
            } else {
                &&& n == DispatchState { is_overview_peeking: false, events: n.events, ..o }
                &&& n.evs() == o.evs().push(EventV::ViewModeChanged { mode: "focus"@ })
            }
        },
    }
}

impl Grid {
    /// The windows a thumbnail shows, bottom to top.
    pub fn shown_at(&self, c: (u8, u8)) -> (r: Vec<WindowId>)
        requires
            self.wf(),
        ensures
            r@ == cell_shown(*self, c),
    {
        if c.0 >= self.cols || c.1 >= self.rows {
            return Vec::new();
        }
        proof {
            assert(self.workspaces@[c.1 as int]@.len() >= self.cols);
            assert(self.ws_at(c.0 as int, c.1 as int).wf());
        }
        let order = self.ws(c.0, c.1).windows_in_z_order();
        let mut r: Vec<WindowId> = Vec::new();
        let mut k: usize = 0;
        while k < order.len()
            invariant
                self.wf(),
                k <= order@.len(),
                r@ == shown_ids(*self, order@.take(k as int)),
            decreases order.len() - k,
        {
            let id = order[k];
            assert(order@.take(k as int + 1).drop_last() =~= order@.take(k as int));
            if let Some(i) = self.find_window(id) {
                let w = &self.windows[i];
                let placed = w.workspace.0 != 255 && match w.current_state {
                    WindowState::Tiled => w.current_slot.is_some(),
                    _ => true,
                };
                if placed && !w.is_swallowed {
                    r.push(id);
                }
            }
            k += 1;
        }
        assert(order@.take(order@.len() as int) =~= order@);
        r
    }

    /// Give window `id` focus and move it to `target`, as the overview
    /// carries a grabbed window.
    fn carry(&mut self, id: WindowId, target: (u8, u8))
        requires
            old(self).wf(),
        ensures
            final(self).wf(),
            carried(*old(self), *final(self), id, target),
    {
        self.focused_window = Some(id);
        proof {
            assert(self.win_keys() =~= old(self).win_keys());
            Grid::lemma_wf_windows_only(old(self), self);
        }
        if self.focus_is_placed() {
            self.move_window_to(target);
        }
    }
}

impl DispatchState {
    fn push_two(&mut self, a: Event, b: Event)
        ensures
            *final(self) == (DispatchState { events: final(self).events, ..*old(self) }),
            final(self).evs() == old(self).evs() + seq![
                crate::ipc::events::event_view(a),
                crate::ipc::events::event_view(b),
            ],
    {
        self.push_event(a);
        self.push_event(b);
        proof {
            assert(self.evs() =~= old(self).evs() + seq![
                crate::ipc::events::event_view(a),
                crate::ipc::events::event_view(b),
            ]);
        }
    }

    fn ov_toggle(&mut self, cfg: &DispatchConfig) -> (fx: Vec<Effect>)
        requires
            old(self).wf(),
        ensures
            final(self).wf(),
            overview_step_spec(ActionV::OverviewToggle, *old(self), *final(self), *cfg, fxv(fx@)),
    {
        let mut fx = no_fx();
        proof {
            reveal_strlit("overview");
            reveal_strlit("focus");
        }
        if !self.is_overview {
            self.is_overview = true;
            self.overview_focused = self.grid.focused;
            self.overview_window_idx = 0;
            self.push_two(Event::OverviewOpened, Event::ViewModeChanged { mode: String::from_str("overview") });
        } else {
            self.is_overview = false;
            if let Some(w) = self.overview_grabbed_window {
                self.overview_grabbed_window = None;
                if let Some(origin) = self.overview_grab_origin {
                    self.overview_grab_origin = None;
                    push_fx(&mut fx, Effect::AnimateMoves);
                    self.grid.carry(w, origin);
                }
            }
            self.overview_window_idx = 0;
            self.push_two(Event::OverviewClosed, Event::ViewModeChanged { mode: String::from_str("focus") });
        }
        fx
    }

    fn ov_focus(&mut self, action: Action, cfg: &DispatchConfig) -> (fx: Vec<Effect>)
        requires
            old(self).wf(),
            overview_ok(view_of(action), *old(self)),
            (view_of(action) is OverviewFocusLeft || view_of(action) is OverviewFocusRight
                || view_of(action) is OverviewFocusUp || view_of(action) is OverviewFocusDown),
        ensures
            final(self).wf(),
            overview_step_spec(view_of(action), *old(self), *final(self), *cfg, fxv(fx@)),
    {
        let mut fx = no_fx();
        if !self.is_overview {
            return fx;
        }
        let (c, r) = self.overview_focused;
        let t = match action {
            Action::OverviewFocusLeft => (if c > 0 { c - 1 } else { 0 }, r),
            Action::OverviewFocusRight => (if c + 1 < self.grid.cols - 1 { c + 1 } else { self.grid.cols - 1 }, r),
            Action::OverviewFocusUp => (c, if r > 0 { r - 1 } else { 0 }),
            _ => (c, if r + 1 < self.grid.rows - 1 { r + 1 } else { self.grid.rows - 1 }),
        };
        assert(t == overview_step(view_of(action), *old(self)));
        if t.0 == c && t.1 == r {
            return fx;
        }
        if let Some(w) = self.overview_grabbed_window {
            push_fx(&mut fx, Effect::AnimateMoves);
            self.grid.carry(w, t);
        }
        self.overview_focused = t;
        self.overview_window_idx = 0;
        fx
    }

    #[verifier::rlimit(40)]
    fn ov_activate(&mut self, cfg: &DispatchConfig) -> (fx: Vec<Effect>)
        requires
            old(self).wf(),
            overview_ok(ActionV::OverviewActivate, *old(self)),
        ensures
            final(self).wf(),
            overview_step_spec(ActionV::OverviewActivate, *old(self), *final(self), *cfg, fxv(fx@)),
    {
        let mut fx = no_fx();
        if !self.is_overview {
            return fx;
        }
        if let Some(w) = self.overview_grabbed_window {
            let target = self.overview_focused;
            self.overview_grabbed_window = None;
            self.overview_grab_origin = None;
            push_fx(&mut fx, Effect::AnimateMoves);
            self.grid.carry(w, target);
            return fx;
        }
        let target = self.overview_focused;
        let idx = self.overview_window_idx;
        let shown = self.grid.shown_at(target);
        let selected = if idx < shown.len() {
            Some(shown[idx])
        } else {
            None
        };
        self.is_overview = false;
        self.overview_window_idx = 0;
        proof {
            reveal_strlit("focus");
        }
        self.push_two(Event::OverviewClosed, Event::ViewModeChanged { mode: String::from_str("focus") });
        let ghost s1 = *self;
        let mut f = self.dispatch_nav_to(target, cfg);
        let ghost s2 = *self;
        let ghost f1 = fxv(f@);
        if let Some(id) = selected {
            self.grid.focused_window = Some(id);
            proof {
                assert(self.grid.win_keys() =~= s2.grid.win_keys());
                Grid::lemma_wf_windows_only(&s2.grid, &self.grid);
            }
            self.sync_focus(cfg, &mut f);
        }
        proof {
            assert(switched(s1, s2, target, *cfg, f1, true));
        }
        f
    }

    fn ov_cycle(&mut self, action: Action, cfg: &DispatchConfig) -> (fx: Vec<Effect>)
        requires
            old(self).wf(),
            (view_of(action) is OverviewWindowNext || view_of(action) is OverviewWindowPrev),
        ensures
            final(self).wf(),
            overview_step_spec(view_of(action), *old(self), *final(self), *cfg, fxv(fx@)),
    {
        let fx = no_fx();
        if self.is_overview {
            let k = self.grid.shown_at(self.overview_focused).len();
            if k > 0 {
                let i = self.overview_window_idx as u128;
                let m = k as u128;
                let next = match action {
                    Action::OverviewWindowNext => (i + 1) % m,
                    _ => (i + m - 1) % m,
                };
                self.overview_window_idx = next as usize;
            }
        }
        fx
    }

    fn ov_grab(&mut self, cfg: &DispatchConfig) -> (fx: Vec<Effect>)
        requires
            old(self).wf(),
        ensures
            final(self).wf(),
            overview_step_spec(ActionV::OverviewGrabWindow, *old(self), *final(self), *cfg, fxv(fx@)),
    {
        let fx = no_fx();
        if self.is_overview && self.overview_grabbed_window.is_none() {
            let shown = self.grid.shown_at(self.overview_focused);
            if shown.len() > 0 {
                let idx = if self.overview_window_idx < shown.len() {
                    self.overview_window_idx
                } else {
                    shown.len() - 1
                };
                self.overview_grabbed_window = Some(shown[idx]);
                self.overview_grab_origin = Some(self.overview_focused);
            }
        }
        fx
    }

    fn ov_cancel(&mut self, cfg: &DispatchConfig) -> (fx: Vec<Effect>)
        requires
            old(self).wf(),
        ensures
            final(self).wf(),
            overview_step_spec(ActionV::OverviewCancelGrab, *old(self), *final(self), *cfg, fxv(fx@)),
    {
        let mut fx = no_fx();
        if self.is_overview {
            if let Some(w) = self.overview_grabbed_window {
                self.overview_grabbed_window = None;
                if let Some(origin) = self.overview_grab_origin {
                    self.overview_grab_origin = None;
                    push_fx(&mut fx, Effect::AnimateMoves);
                    self.grid.carry(w, origin);
                }
            }
        }
        fx
    }

    fn ov_peek(&mut self, cfg: &DispatchConfig) -> (fx: Vec<Effect>)
        requires
            old(self).wf(),
        ensures
            final(self).wf(),
            overview_step_spec(ActionV::OverviewPeek, *old(self), *final(self), *cfg, fxv(fx@)),
    {
        let fx = no_fx();
        proof {
            reveal_strlit("overview");
            reveal_strlit("focus");
        }
        self.is_overview_peeking = !self.is_overview_peeking;
        if self.is_overview_peeking {
            self.overview_focused = self.grid.focused;
            self.overview_window_idx = 0;
            self.push_event(Event::ViewModeChanged { mode: String::from_str("overview") });
        } else {
            self.push_event(Event::ViewModeChanged { mode: String::from_str("focus") });
        }
        fx
    }

    /// Run an overview action.
    pub fn dispatch_overview(&mut self, action: Action, cfg: &DispatchConfig) -> (fx: Vec<Effect>)
        requires
            old(self).wf(),
            is_overview_act(view_of(action)),
            overview_ok(view_of(action), *old(self)),
        ensures
            final(self).wf(),
            overview_step_spec(view_of(action), *old(self), *final(self), *cfg, fxv(fx@)),
    {
        match action {
            Action::OverviewToggle => self.ov_toggle(cfg),
            Action::OverviewActivate | Action::OverviewDropWindow => self.ov_activate(cfg),
            Action::OverviewWindowNext | Action::OverviewWindowPrev => self.ov_cycle(action, cfg),
            Action::OverviewGrabWindow => self.ov_grab(cfg),
            Action::OverviewCancelGrab => self.ov_cancel(cfg),
            Action::OverviewPeek => self.ov_peek(cfg),
            _ => self.ov_focus(action, cfg),
        }
    }
}

} // verus!
