//! Actions that run commands, toggle flags, enter submaps, set shaders,
//! rename workspaces and adjust a floating window.
use vstd::prelude::*;

use super::{fxv, no_fx, push_fx, DispatchConfig, DispatchState, Effect, EffectV};
use crate::grid::window::{Rect, Slot, WindowId, WindowState};
use crate::grid::{Grid, PlacementHints, Window};
use crate::ipc::events::{event_view, Event, EventV};
use crate::keybind::action::{view_of, Action, ActionV};
use crate::text::str_eq;
use crate::toplevel::{no_hints, opt_view, HintsV};

verus! {

/// Whether `s` names no shader: empty or `clear`.
pub open spec fn clears(s: Seq<char>) -> bool {
    s.len() == 0 || s == "clear"@
}

fn clears_exec(s: &str) -> (r: bool)
    ensures
        r == clears(s@),
{
    s.unicode_len() == 0 || str_eq(s, "clear")
}

/// Half of `d`, rounded toward zero.
pub open spec fn half_toward_zero(d: int) -> int {
    if d >= 0 {
        d / 2
    } else {
        -((-d) / 2)
    }
}

/// The grid's focused window, when it is floating.
pub open spec fn focused_floating(g: Grid) -> Option<WindowId> {
    match g.focused_known() {
        Some(id) => if g.win(id).current_state == WindowState::Floating {
            Some(id)
        } else {
            None
        },
        None => None,
    }
}

/// The floating geometry of `w` centered on an output of `ow` x `oh`.
pub open spec fn centered(w: Window, ow: i32, oh: i32) -> Rect {
    Rect {
        x: half_toward_zero(ow - w.floating_geom.w) as i32,
        y: half_toward_zero(oh - w.floating_geom.h) as i32,
        ..w.floating_geom
    }
}

/// The floating geometry of `w` grown by (dx, dy), at least 100 x 60.
pub open spec fn grown(w: Window, dx: i32, dy: i32) -> Rect {
    Rect {
        w: (if w.floating_geom.w + dx > 100 { w.floating_geom.w + dx } else { 100 }) as i32,
        h: (if w.floating_geom.h + dy > 60 { w.floating_geom.h + dy } else { 60 }) as i32,
        ..w.floating_geom
    }
}

/// Centering or growing the focused floating window stays in the `i32` range.
pub open spec fn geometry_fits(a: ActionV, g: Grid) -> bool {
    match focused_floating(g) {
        Some(id) => {
            let w = g.win(id);
            match a {
                ActionV::CenterFloating => i32::MIN <= g.output_w - w.floating_geom.w <= i32::MAX && i32::MIN
                    <= g.output_h - w.floating_geom.h <= i32::MAX,
                ActionV::ResizeActive(dx, dy) => i32::MIN <= w.floating_geom.w + dx <= i32::MAX && i32::MIN
                    <= w.floating_geom.h + dy <= i32::MAX,
                _ => true,
            }
        },
        None => true,
    }
}

/// `new` is `old` with the floating geometry of window `id` set to `r` and
/// a configure queued for it.
pub open spec fn regeometried(old: &Grid, new: &Grid, id: WindowId, r: Rect) -> bool {
    &&& new.windows@ == old.windows@.update(old.win_index(id), Window { floating_geom: r, ..old.win(id) })
    &&& new.pending_configures@ == old.pending_configures@.push(id)
    &&& new.workspaces@ == old.workspaces@
    &&& new.focused == old.focused
    &&& new.focused_window == old.focused_window
    &&& new.history@ == old.history@
    &&& new.forward_history@ == old.forward_history@
    &&& new.settings_same(old)
}

/// `new` is `old` with the shader of window `id` set to `s`.
pub open spec fn reshaded(old: &Grid, new: &Grid, id: WindowId, s: Option<Seq<char>>) -> bool {
    &&& new.windows@.len() == old.windows@.len()
    &&& forall|k: int| 0 <= k < old.windows@.len() && k != old.win_index(id) ==> new.windows@[k] == old.windows@[k]
    &&& ({
        let w = new.windows@[old.win_index(id)];
        &&& w == Window { shader: w.shader, ..old.win(id) }
        &&& opt_view(w.shader) == s
    })
    &&& new.pending_configures@ == old.pending_configures@
    &&& new.workspaces@ == old.workspaces@
    &&& new.focused == old.focused
    &&& new.focused_window == old.focused_window
    &&& new.history@ == old.history@
    &&& new.forward_history@ == old.forward_history@
    &&& new.settings_same(old)
}

impl Grid {
    /// Set the floating geometry of window `id` (a known window) and queue a
    /// configure for it.
    pub fn set_floating_geom(&mut self, id: WindowId, r: Rect)
        requires
            old(self).wf(),
            old(self).has_window(id),
        ensures
            final(self).wf(),
            regeometried(old(self), final(self), id, r),
    {
        let i = self.find_window(id).unwrap();
        self.windows[i].floating_geom = r;
        self.pending_configures.push(id);
        proof {
            assert(self.windows@ =~= old(self).windows@.update(i as int, Window { floating_geom: r, ..old(self).win(id) }));
            assert(self.win_keys() =~= old(self).win_keys());
            Grid::lemma_wf_windows_only(old(self), self);
        }
    }

    /// Set the shader of window `id`; whether the window exists.
    pub fn set_window_shader(&mut self, id: WindowId, s: Option<String>) -> (found: bool)
        requires
            old(self).wf(),
        ensures
            final(self).wf(),
            found == old(self).has_window(id),
            found ==> reshaded(old(self), final(self), id, opt_view(s)),
            !found ==> *final(self) == *old(self),
    {
        match self.find_window(id) {
            Some(i) => {
                self.windows[i].shader = s;
                proof {
                    assert(self.win_keys() =~= old(self).win_keys());
                    Grid::lemma_wf_windows_only(old(self), self);
                }
                true
            },
            None => false,
        }
    }
}

/// The command a screenshot mode runs.
pub open spec fn screenshot_cmd(mode: Seq<char>) -> Seq<char> {
    if mode == "region"@ {
        "grim -g \"$(slurp)\" - | wl-copy"@
    } else {
        "grim - | wl-copy"@
    }
}

/// The actions of this group.
pub open spec fn is_misc(a: ActionV) -> bool {
    match a {
        ActionV::Exec(_) | ActionV::CloseWindow | ActionV::Quit | ActionV::ReloadConfig | ActionV::ReloadTheme
        | ActionV::OsdShow(_) | ActionV::CycleShader | ActionV::CheatsheetToggle | ActionV::DebugOverlayToggle
        | ActionV::WorkspaceSync | ActionV::MinimapToggle | ActionV::SpawnFloating(_) | ActionV::SpawnInSlot(_, _)
        | ActionV::SpawnOnWorkspace(_, _, _) | ActionV::SpawnStacked(_) | ActionV::Submap(_) | ActionV::SubmapReset
        | ActionV::StackPeek | ActionV::ScreenShader(_) | ActionV::Screenshot(_) | ActionV::SetWindowShader(_, _)
        | ActionV::WorkspaceRename(_, _, _) | ActionV::CenterFloating | ActionV::ResizeActive(_, _) => true,
        _ => false,
    }
}

/// Whether `names` holds `n`.
pub open spec fn has_name(names: Seq<String>, n: Seq<char>) -> bool {
    exists|i: int| 0 <= i < names.len() && names[i]@ == n
}

/// The spawn hint of a spawn action.
pub open spec fn spawn_hint_of(a: ActionV, g: Grid) -> HintsV {
    match a {
        ActionV::SpawnFloating(_) => HintsV { state: Some(WindowState::Floating), ..no_hints() },
        ActionV::SpawnInSlot(s, _) => HintsV { slot: Some(s), ..no_hints() },
        ActionV::SpawnOnWorkspace(c, r, _) => HintsV { workspace: Some((c, r)), ..no_hints() },
        _ => HintsV {
            slot: match g.focused_known() {
                Some(id) => g.win(id).current_slot,
                None => None,
            },
            ..no_hints()
        },
    }
}

/// What an action of this group does: the state after it (`n`, from `o`),
/// whether the compositor quits, and the effects asked for.
pub open spec fn misc_step(a: ActionV, o: DispatchState, n: DispatchState, cfg: DispatchConfig, quit: bool, fx: Seq<EffectV>) -> bool {
    &&& quit == (a is Quit)
    &&& match a {
        ActionV::Exec(cmd) => n == o && fx == seq![EffectV::Exec(cmd)],
        ActionV::CloseWindow => n == o && fx == match o.grid.focused_known() {
            Some(id) => seq![EffectV::CloseWindow(id)],
            None => Seq::empty(),
        },
        ActionV::Quit => n == o && fx.len() == 0,
        ActionV::ReloadConfig => n == o && fx == seq![EffectV::ReloadConfig],
        ActionV::ReloadTheme => n == o && fx == seq![EffectV::ReloadTheme],
        ActionV::OsdShow(t) => n == o && fx == seq![EffectV::ShowOsd(t)],
        ActionV::DebugOverlayToggle => n == (DispatchState { debug_overlay: !o.debug_overlay, ..o }) && fx.len() == 0,
        ActionV::WorkspaceSync => {
            &&& n == DispatchState { workspace_synced: !o.workspace_synced, events: n.events, ..o }
            &&& n.evs() == o.evs().push(EventV::WorkspaceSyncChanged { synced: !o.workspace_synced })
            &&& fx.len() == 0
        },
        ActionV::MinimapToggle => {
            &&& n == DispatchState { minimap_visible: !o.minimap_visible, events: n.events, ..o }
            &&& n.evs() == o.evs().push(EventV::MinimapToggled { visible: !o.minimap_visible })
            &&& fx.len() == 0
        },
        ActionV::SpawnFloating(cmd) | ActionV::SpawnInSlot(_, cmd) | ActionV::SpawnOnWorkspace(_, _, cmd)
        | ActionV::SpawnStacked(cmd) => {
            &&& n == DispatchState { spawn_hint: n.spawn_hint, ..o }
            &&& n.spawn_hint matches Some(h) && h.view() == spawn_hint_of(a, o.grid)
            &&& fx == seq![EffectV::Exec(cmd)]
        },
        ActionV::Submap(name) => if has_name(cfg.submaps@, name) {
            &&& n == DispatchState { active_submap: n.active_submap, events: n.events, ..o }
            &&& opt_view(n.active_submap) == Some(name)
            &&& n.evs() == o.evs().push(EventV::SubMapChanged { name })
            &&& fx == seq![EffectV::ShowOsd("submap"@)]
        } else {
            n == o && fx.len() == 0
        },
        ActionV::SubmapReset => {
            &&& n == DispatchState { active_submap: None, events: n.events, ..o }
            &&& n.evs() == o.evs().push(EventV::SubMapChanged { name: Seq::empty() })
            &&& fx == seq![EffectV::HideOsd]
        },
        ActionV::StackPeek => n == (DispatchState { is_stack_peeking: !o.is_stack_peeking, ..o }) && fx.len() == 0,
        ActionV::ScreenShader(p) => {
            &&& fx.len() == 0
            &&& if clears(p) {
                n == DispatchState { screen_shader: None, ..o }
            } else {
                &&& n == DispatchState { screen_shader: n.screen_shader, events: n.events, ..o }
                &&& opt_view(n.screen_shader) == Some(p)
                &&& n.evs() == o.evs().push(EventV::ShaderLoaded { category: "screen"@, path: p })
            }
        },
        ActionV::Screenshot(mode) => n == o && fx == seq![EffectV::Exec(screenshot_cmd(mode))],
        ActionV::SetWindowShader(id, p) => {
            &&& fx.len() == 0
            &&& if o.grid.has_window(id) {
                &&& n == DispatchState { grid: n.grid, events: n.events, ..o }
                &&& reshaded(&o.grid, &n.grid, id, if clears(p) { None } else { Some(p) })
                &&& n.evs() == o.evs().push(
                    EventV::ShaderLoaded { category: "window"@, path: if clears(p) { "(cleared)"@ } else { p } },
                )
            } else {
                n == o
            }
        },
        ActionV::WorkspaceRename(col, row, name) => {
            let in_grid = col < o.grid.cols && row < o.grid.rows;
            let old_name = if in_grid && o.grid.ws_at(col as int, row as int).name is Some {
                o.grid.ws_at(col as int, row as int).name->0@
            } else {
                Seq::empty()
            };
            &&& fx.len() == 0
            &&& n == DispatchState { grid: n.grid, events: n.events, ..o }
            &&& exists|s: String| s@ == name && crate::grid::posts::rename_workspace_post(&o.grid, &n.grid, col, row, s)
            &&& n.evs() == o.evs().push(EventV::WorkspaceRenamed { col, row, old: old_name, new: name })
        },
        ActionV::CenterFloating => match focused_floating(o.grid) {
            Some(id) => {
                &&& n == DispatchState { grid: n.grid, ..o }
                &&& regeometried(&o.grid, &n.grid, id, centered(o.grid.win(id), o.grid.output_w, o.grid.output_h))
                &&& fx.len() == 0
            },
            None => n == o && fx.len() == 0,
        },
        ActionV::ResizeActive(dx, dy) => match focused_floating(o.grid) {
            Some(id) => {
                &&& n == DispatchState { grid: n.grid, ..o }
                &&& regeometried(&o.grid, &n.grid, id, grown(o.grid.win(id), dx, dy))
                &&& fx.len() == 0
            },
            None => n == o && fx.len() == 0,
        },
        _ => n == o && fx.len() == 0,
    }
}

fn has_name_exec(names: &Vec<String>, n: &str) -> (r: bool)
    ensures
        r == has_name(names@, n@),
{
    let mut i: usize = 0;
    while i < names.len()
        invariant
            i <= names@.len(),
            forall|k: int| 0 <= k < i ==> names@[k]@ != n@,
        decreases names.len() - i,
    {
        if str_eq(names[i].as_str(), n) {
            return true;
        }
        i += 1;
    }
    false
}

fn focused_floating_exec(g: &Grid) -> (r: Option<usize>)
    requires
        g.wf(),
    ensures
        match r {
            Some(i) => focused_floating(*g) matches Some(id) && i == g.win_index(id) && i < g.windows@.len(),
            None => focused_floating(*g) is None,
        },
{
    let id = match g.focused_window {
        Some(id) => id,
        None => return None,
    };
    match g.find_window(id) {
        Some(i) => if g.windows[i].current_state == WindowState::Floating {
            Some(i)
        } else {
            None
        },
        None => None,
    }
}

fn half_toward_zero_exec(d: i32) -> (r: i32)
    ensures
        r == half_toward_zero(d as int),
{
    if d >= 0 {
        d / 2
    } else {
        let m: i64 = -(d as i64);
        -((m / 2) as i32)
    }
}

/// The actions that `dispatch_flags` runs.
pub open spec fn is_flags(a: ActionV) -> bool {
    match a {
        ActionV::Exec(_) | ActionV::CloseWindow | ActionV::Quit | ActionV::ReloadConfig | ActionV::ReloadTheme | ActionV::OsdShow(_) | ActionV::CycleShader | ActionV::CheatsheetToggle | ActionV::DebugOverlayToggle | ActionV::WorkspaceSync | ActionV::MinimapToggle | ActionV::StackPeek | ActionV::Screenshot(_) => true,
        _ => false,
    }
}

/// The actions that `dispatch_spawn` runs.
pub open spec fn is_spawn(a: ActionV) -> bool {
    match a {
        ActionV::SpawnFloating(_) | ActionV::SpawnInSlot(_, _) | ActionV::SpawnOnWorkspace(_, _, _) | ActionV::SpawnStacked(_) | ActionV::Submap(_) | ActionV::SubmapReset | ActionV::ScreenShader(_) => true,
        _ => false,
    }
}

/// The actions that `dispatch_props` runs.
pub open spec fn is_props(a: ActionV) -> bool {
    match a {
        ActionV::SetWindowShader(_, _) | ActionV::WorkspaceRename(_, _, _) | ActionV::CenterFloating | ActionV::ResizeActive(_, _) => true,
        _ => false,
    }
}

impl DispatchState {
    /// Run an action of this group.
    pub fn dispatch_flags(&mut self, action: Action, cfg: &DispatchConfig) -> (r: (bool, Vec<Effect>))
        requires
            old(self).wf(),
            is_flags(view_of(action)),
            geometry_fits(view_of(action), old(self).grid),
        ensures
            final(self).wf(),
            misc_step(view_of(action), *old(self), *final(self), *cfg, r.0, fxv(r.1@)),
    {
        let mut fx = no_fx();
        let mut quit = false;
        let ghost o = *self;
        let ghost av = view_of(action);
        match action {
            Action::Exec(cmd) => {
                push_fx(&mut fx, Effect::Exec(cmd));
                proof { assert(misc_step(av, o, *self, *cfg, quit, fxv(fx@))); }
            },
            Action::CloseWindow => {
                if let Some(id) = self.grid.focused_window {
                    if self.grid.find_window(id).is_some() {
                        push_fx(&mut fx, Effect::CloseWindow(id));
                    }
                }
                proof { assert(misc_step(av, o, *self, *cfg, quit, fxv(fx@))); }
            },
            Action::Quit => {
                quit = true;
                proof { assert(misc_step(av, o, *self, *cfg, quit, fxv(fx@))); }
            },
            Action::ReloadConfig => {
                push_fx(&mut fx, Effect::ReloadConfig);
                proof { assert(misc_step(av, o, *self, *cfg, quit, fxv(fx@))); }
            },
            Action::ReloadTheme => {
                push_fx(&mut fx, Effect::ReloadTheme);
                proof { assert(misc_step(av, o, *self, *cfg, quit, fxv(fx@))); }
            },
            Action::OsdShow(text) => {
                push_fx(&mut fx, Effect::ShowOsd(text));
                proof { assert(misc_step(av, o, *self, *cfg, quit, fxv(fx@))); }
            },
            Action::DebugOverlayToggle => {
                self.debug_overlay = !self.debug_overlay;
                proof { assert(misc_step(av, o, *self, *cfg, quit, fxv(fx@))); }
            },
            Action::WorkspaceSync => {
                self.workspace_synced = !self.workspace_synced;
                self.push_event(Event::WorkspaceSyncChanged { synced: self.workspace_synced });
                proof { assert(misc_step(av, o, *self, *cfg, quit, fxv(fx@))); }
            },
            Action::MinimapToggle => {
                self.minimap_visible = !self.minimap_visible;
                self.push_event(Event::MinimapToggled { visible: self.minimap_visible });
                proof { assert(misc_step(av, o, *self, *cfg, quit, fxv(fx@))); }
            },
            Action::StackPeek => {
                self.is_stack_peeking = !self.is_stack_peeking;
                proof { assert(misc_step(av, o, *self, *cfg, quit, fxv(fx@))); }
            },
            Action::Screenshot(mode) => {
                let cmd = if str_eq(mode.as_str(), "region") {
                    String::from_str("grim -g \"$(slurp)\" - | wl-copy")
                } else {
                    String::from_str("grim - | wl-copy")
                };
                push_fx(&mut fx, Effect::Exec(cmd));
                proof { assert(misc_step(av, o, *self, *cfg, quit, fxv(fx@))); }
            },
            _ => {},
        }
        (quit, fx)
    }

    /// Run an action of this group.
    pub fn dispatch_spawn(&mut self, action: Action, cfg: &DispatchConfig) -> (r: (bool, Vec<Effect>))
        requires
            old(self).wf(),
            is_spawn(view_of(action)),
            geometry_fits(view_of(action), old(self).grid),
        ensures
            final(self).wf(),
            misc_step(view_of(action), *old(self), *final(self), *cfg, r.0, fxv(r.1@)),
    {
        let mut fx = no_fx();
        let mut quit = false;
        let ghost o = *self;
        let ghost av = view_of(action);
        match action {
            Action::SpawnFloating(cmd) => {
                let mut h = PlacementHints::default();
                h.state = Some(WindowState::Floating);
                self.spawn_hint = Some(h);
                push_fx(&mut fx, Effect::Exec(cmd));
                proof { assert(misc_step(av, o, *self, *cfg, quit, fxv(fx@))); }
            },
            Action::SpawnInSlot(slot, cmd) => {
                let mut h = PlacementHints::default();
                h.slot = Some(slot);
                self.spawn_hint = Some(h);
                push_fx(&mut fx, Effect::Exec(cmd));
                proof { assert(misc_step(av, o, *self, *cfg, quit, fxv(fx@))); }
            },
            Action::SpawnOnWorkspace(c, r, cmd) => {
                let mut h = PlacementHints::default();
                h.workspace = Some((c, r));
                self.spawn_hint = Some(h);
                push_fx(&mut fx, Effect::Exec(cmd));
                proof { assert(misc_step(av, o, *self, *cfg, quit, fxv(fx@))); }
            },
            Action::SpawnStacked(cmd) => {
                let mut h = PlacementHints::default();
                if let Some(id) = self.grid.focused_window {
                    if let Some(i) = self.grid.find_window(id) {
                        h.slot = self.grid.windows[i].current_slot;
                    }
                }
                self.spawn_hint = Some(h);
                push_fx(&mut fx, Effect::Exec(cmd));
                proof { assert(misc_step(av, o, *self, *cfg, quit, fxv(fx@))); }
            },
            Action::Submap(name) => {
                if has_name_exec(&cfg.submaps, name.as_str()) {
                    self.active_submap = Some(name.clone());
                    self.push_event(Event::SubMapChanged { name });
                    push_fx(&mut fx, Effect::ShowOsd(String::from_str("submap")));
                }
                proof { assert(misc_step(av, o, *self, *cfg, quit, fxv(fx@))); }
            },
            Action::SubmapReset => {
                self.active_submap = None;
                self.push_event(Event::SubMapChanged { name: String::new() });
                push_fx(&mut fx, Effect::HideOsd);
                proof { assert(misc_step(av, o, *self, *cfg, quit, fxv(fx@))); }
            },
            Action::ScreenShader(path) => {
                if clears_exec(path.as_str()) {
                    self.screen_shader = None;
                } else {
                    self.screen_shader = Some(path.clone());
                    self.push_event(Event::ShaderLoaded { category: String::from_str("screen"), path });
                }
                proof { assert(misc_step(av, o, *self, *cfg, quit, fxv(fx@))); }
            },
            _ => {},
        }
        (quit, fx)
    }

    /// Run an action of this group.
    #[verifier::spinoff_prover]
    #[verifier::rlimit(50)]
    pub fn dispatch_props(&mut self, action: Action, cfg: &DispatchConfig) -> (r: (bool, Vec<Effect>))
        requires
            old(self).wf(),
            is_props(view_of(action)),
            geometry_fits(view_of(action), old(self).grid),
        ensures
            final(self).wf(),
            misc_step(view_of(action), *old(self), *final(self), *cfg, r.0, fxv(r.1@)),
    {
        let mut fx = no_fx();
        let mut quit = false;
        let ghost o = *self;
        let ghost av = view_of(action);
        match action {
            Action::SetWindowShader(id, path) => {
                let cleared = clears_exec(path.as_str());
                let s = if cleared {
                    None
                } else {
                    Some(path.clone())
                };
                if self.grid.set_window_shader(id, s) {
                    let shown = if cleared {
                        String::from_str("(cleared)")
                    } else {
                        path
                    };
                    self.push_event(Event::ShaderLoaded { category: String::from_str("window"), path: shown });
                }
                proof { assert(misc_step(av, o, *self, *cfg, quit, fxv(fx@))); }
            },
            Action::WorkspaceRename(col, row, name) => {
                let old_name = String::from_str(self.grid.workspace_name(col, row));
                proof {
                    if !(col < o.grid.cols && row < o.grid.rows && o.grid.ws_at(col as int, row as int).name is Some) {
                        assert(old_name@ =~= Seq::<char>::empty());
                    }
                }
                let ghost g0 = self.grid;
                let nm = name.clone();
                self.grid.rename_workspace(col, row, nm);
                proof {
                    assert(crate::grid::posts::rename_workspace_post(&g0, &self.grid, col, row, nm));
                }
                self.push_event(Event::WorkspaceRenamed { col, row, old: old_name, new: name });
                proof { assert(misc_step(av, o, *self, *cfg, quit, fxv(fx@))); }
            },
            Action::CenterFloating => {
                if let Some(i) = focused_floating_exec(&self.grid) {
                    let id = self.grid.windows[i].id;
                    let g = self.grid.windows[i].floating_geom;
                    let x = half_toward_zero_exec(self.grid.output_w - g.w);
                    let y = half_toward_zero_exec(self.grid.output_h - g.h);
                    self.grid.set_floating_geom(id, Rect { x, y, ..g });
                }
                proof { assert(misc_step(av, o, *self, *cfg, quit, fxv(fx@))); }
            },
            Action::ResizeActive(dx, dy) => {
                if let Some(i) = focused_floating_exec(&self.grid) {
                    let id = self.grid.windows[i].id;
                    let g = self.grid.windows[i].floating_geom;
                    let w = if g.w + dx > 100 { g.w + dx } else { 100 };
                    let h = if g.h + dy > 60 { g.h + dy } else { 60 };
                    self.grid.set_floating_geom(id, Rect { w, h, ..g });
                }
                proof { assert(misc_step(av, o, *self, *cfg, quit, fxv(fx@))); }
            },
            _ => {},
        }
        (quit, fx)
    }
}

} // verus!
