//! Running a bound action: the state the compositor keeps besides its
//! surfaces, what each action does to it, the events it reports, and the
//! outside work it asks for (spawning a command, moving keyboard focus,
//! animations), which the caller performs in order.
use vstd::prelude::*;

use crate::grid::window::{Rect, Slot, WindowId, WindowState};
use crate::grid::{FocusDirection, Grid, PlacementHints, Window};
use crate::ipc::commands::{slot_name, slot_name_spec, state_name, state_name_spec};
use crate::ipc::events::{event_view, Event, EventV};
use crate::keybind::action::{view_of, Action, ActionV};
use crate::text::{dec, push_dec};
use crate::toplevel::{opt_view, HintsV};

pub mod misc;
pub mod nav;
pub mod overview;
pub mod special;
pub mod run;
pub mod template;
pub mod window;

verus! {

/// Work outside the library that an action asks for, in order.
#[derive(Debug)]
pub enum Effect {
    /// Spawn a shell-less command line.
    Exec(String),
    /// Ask the window to close.
    CloseWindow(WindowId),
    ReloadConfig,
    ReloadTheme,
    /// Show the on-screen display of this kind.
    ShowOsd(String),
    HideOsd,
    /// Give keyboard focus to the grid's focused window.
    FocusKeyboard,
    /// Move the pointer to the centre of the focused window.
    WarpCursor,
    /// Slide from the cell `from` to the focused one.
    Slide { from: (u8, u8) },
    /// Animate the windows whose rectangles the action changed.
    AnimateMoves,
    /// Tell toplevel-management clients the window states.
    UpdateToplevelStates,
    /// Tell workspace clients the workspaces.
    UpdateWorkspaces,
}

/// An effect with its strings as character sequences.
pub enum EffectV {
    Exec(Seq<char>),
    CloseWindow(WindowId),
    ReloadConfig,
    ReloadTheme,
    ShowOsd(Seq<char>),
    HideOsd,
    FocusKeyboard,
    WarpCursor,
    Slide { from: (u8, u8) },
    AnimateMoves,
    UpdateToplevelStates,
    UpdateWorkspaces,
}

pub open spec fn effect_view(e: Effect) -> EffectV {
    match e {
        Effect::Exec(s) => EffectV::Exec(s@),
        Effect::CloseWindow(id) => EffectV::CloseWindow(id),
        Effect::ReloadConfig => EffectV::ReloadConfig,
        Effect::ReloadTheme => EffectV::ReloadTheme,
        Effect::ShowOsd(s) => EffectV::ShowOsd(s@),
        Effect::HideOsd => EffectV::HideOsd,
        Effect::FocusKeyboard => EffectV::FocusKeyboard,
        Effect::WarpCursor => EffectV::WarpCursor,
        Effect::Slide { from } => EffectV::Slide { from },
        Effect::AnimateMoves => EffectV::AnimateMoves,
        Effect::UpdateToplevelStates => EffectV::UpdateToplevelStates,
        Effect::UpdateWorkspaces => EffectV::UpdateWorkspaces,
    }
}

/// Effects, as plain values.
pub open spec fn fxv(s: Seq<Effect>) -> Seq<EffectV> {
    s.map_values(|e: Effect| effect_view(e))
}

/// Append an effect.
pub fn push_fx(fx: &mut Vec<Effect>, e: Effect)
    ensures
        fxv(final(fx)@) == fxv(old(fx)@).push(effect_view(e)),
{
    fx.push(e);
    proof {
        assert(fxv(fx@) =~= fxv(old(fx)@).push(effect_view(e)));
    }
}

/// No effects.
pub fn no_fx() -> (fx: Vec<Effect>)
    ensures
        fxv(fx@) == Seq::<EffectV>::empty(),
{
    let fx: Vec<Effect> = Vec::new();
    proof {
        assert(fxv(fx@) =~= Seq::<EffectV>::empty());
    }
    fx
}

/// What the caller passes along from the configuration.
pub struct DispatchConfig {
    /// Names of the known submaps.
    pub submaps: Vec<String>,
    /// Warp the pointer to the focused window when focus changes.
    pub warp_on_focus_change: bool,
    /// Warp the pointer to the focused window when the workspace changes.
    pub warp_on_workspace_change: bool,
    /// Switch the power profile when TotalFullscreen is entered or left.
    pub performance_on_total_fullscreen: bool,
    /// The workspace templates.
    pub templates: Vec<crate::config::templates::TemplateConfig>,
}

/// The state that actions change.
pub struct DispatchState {
    pub grid: Grid,
    pub debug_overlay: bool,
    pub workspace_synced: bool,
    pub minimap_visible: bool,
    pub is_overview: bool,
    pub is_overview_peeking: bool,
    pub is_stack_peeking: bool,
    /// The thumbnail with keyboard focus in the overview.
    pub overview_focused: (u8, u8),
    /// The selected window of that thumbnail.
    pub overview_window_idx: usize,
    /// A window picked up in the overview, and the cell it came from.
    pub overview_grabbed_window: Option<WindowId>,
    pub overview_grab_origin: Option<(u8, u8)>,
    pub active_submap: Option<String>,
    /// Placement hints for the next window that opens.
    pub spawn_hint: Option<PlacementHints>,
    pub screen_shader: Option<String>,
    pub active_special: Option<String>,
    /// The named special workspaces and the windows sent to each.
    pub special_workspaces: Vec<(String, Vec<WindowId>)>,
    /// Cells whose template has been applied.
    pub applied_templates: Vec<(u8, u8)>,
    /// Events to send to subscribers, in order.
    pub events: Vec<Event>,
}

impl DispatchState {
    pub open spec fn wf(&self) -> bool {
        &&& self.grid.wf()
    }

    /// The events, as plain values.
    pub open spec fn evs(&self) -> Seq<EventV> {
        self.events@.map_values(|e: Event| event_view(e))
    }
}

// ─── Focus sync and the events that follow an action ─────────────────────────

/// `new` is `old` with the focused window's urgency cleared.
pub open spec fn urgency_cleared(old: &Grid, new: &Grid) -> bool {
    match old.focused_known() {
        Some(id) => {
            &&& new.windows@ == old.windows@.update(old.win_index(id), Window { is_urgent: false, ..old.win(id) })
            &&& new.workspaces@ == old.workspaces@
            &&& new.focused == old.focused
            &&& new.focused_window == old.focused_window
            &&& new.history@ == old.history@
            &&& new.forward_history@ == old.forward_history@
            &&& new.pending_configures@ == old.pending_configures@
            &&& new.settings_same(old)
        },
        None => *new == *old,
    }
}

impl Grid {
    /// Clear the urgency of the focused window.
    pub fn clear_focus_urgency(&mut self)
        requires
            old(self).wf(),
        ensures
            final(self).wf(),
            urgency_cleared(old(self), final(self)),
    {
        let id = match self.focused_window {
            Some(id) => id,
            None => return,
        };
        if let Some(i) = self.find_window(id) {
            self.windows[i].is_urgent = false;
            proof {
                assert(self.windows@ =~= old(self).windows@.update(
                    i as int,
                    Window { is_urgent: false, ..old(self).win(id) },
                ));
                assert(self.win_keys() =~= old(self).win_keys());
                Grid::lemma_wf_windows_only(old(self), self);
            }
        }
    }
}

/// The effects of moving keyboard focus to the grid's focused window.
pub open spec fn sync_fx(cfg: DispatchConfig) -> Seq<EffectV> {
    seq![EffectV::FocusKeyboard] + if cfg.warp_on_focus_change {
        seq![EffectV::WarpCursor]
    } else {
        Seq::empty()
    }
}

/// The effects of a workspace change.
pub open spec fn ws_changed_fx() -> Seq<EffectV> {
    seq![EffectV::ShowOsd("workspace"@), EffectV::UpdateWorkspaces, EffectV::UpdateToplevelStates]
}

/// A slide from `from` when the focused cell moved.
pub open spec fn slide_fx(from: (u8, u8), g: Grid) -> Seq<EffectV> {
    if from != g.focused {
        seq![EffectV::Slide { from }]
    } else {
        Seq::empty()
    }
}

/// A pointer warp when the configuration asks for one on a workspace change.
pub open spec fn warp_ws_fx(cfg: DispatchConfig) -> Seq<EffectV> {
    if cfg.warp_on_workspace_change {
        seq![EffectV::WarpCursor]
    } else {
        Seq::empty()
    }
}

/// The state and slot of the focused window, reported after it changed.
pub open spec fn state_slot_events(g: Grid) -> Seq<EventV> {
    match g.focused_known() {
        Some(id) => {
            let w = g.win(id);
            seq![EventV::WindowStateChanged { id, state: state_name_spec(w.current_state) }] + match w.current_slot {
                Some(s) => seq![EventV::WindowSlotChanged { id, slot: slot_name_spec(s) }],
                None => Seq::empty(),
            }
        },
        None => Seq::empty(),
    }
}

/// The focused window's stack: its slot's name, the window and the size of
/// the stack of that slot on the focused cell.
pub open spec fn stack_changed_events(g: Grid) -> Seq<EventV> {
    match g.focused_known() {
        Some(id) => match g.win(id).current_slot {
            Some(s) => seq![
                EventV::WindowStackChanged {
                    slot: slot_name_spec(s),
                    top_id: id,
                    size: (if g.in_grid(g.focused) { g.ws_at(g.focused.0 as int, g.focused.1 as int).stack(s).len() } else { 0 }) as usize,
                },
            ],
            None => Seq::empty(),
        },
        None => Seq::empty(),
    }
}

/// Window ids joined by commas.
pub open spec fn csv(ids: Seq<WindowId>) -> Seq<char>
    decreases ids.len(),
{
    if ids.len() == 0 {
        Seq::empty()
    } else if ids.len() == 1 {
        dec(ids[0] as nat)
    } else {
        csv(ids.drop_last()) + ","@ + dec(ids.last() as nat)
    }
}

/// The new order of the focused window's stack, when it holds two or more.
pub open spec fn stack_reordered_events(g: Grid) -> Seq<EventV> {
    match g.focused_known() {
        Some(id) => {
            let w = g.win(id);
            match w.current_slot {
                Some(s) => {
                    let ids = if g.in_grid(w.workspace) {
                        g.ws_at(w.workspace.0 as int, w.workspace.1 as int).stack(s)
                    } else {
                        Seq::empty()
                    };
                    if ids.len() >= 2 {
                        seq![EventV::WindowStackReordered { slot: slot_name_spec(s), order_csv: csv(ids) }]
                    } else {
                        Seq::empty()
                    }
                },
                None => Seq::empty(),
            }
        },
        None => Seq::empty(),
    }
}

/// The focus event, when a window has focus.
pub open spec fn focus_events(g: Grid) -> Seq<EventV> {
    match g.focused_window {
        Some(id) => seq![EventV::WindowFocus { id }],
        None => Seq::empty(),
    }
}

pub(crate) fn csv_exec(ids: &Vec<WindowId>) -> (r: String)
    ensures
        r@ == csv(ids@),
{
    let mut s = String::new();
    let mut i: usize = 0;
    while i < ids.len()
        invariant
            i <= ids@.len(),
            s@ == csv(ids@.take(i as int)),
        decreases ids.len() - i,
    {
        proof {
            assert(ids@.take(i as int + 1).drop_last() =~= ids@.take(i as int));
        }
        if i > 0 {
            s.append(",");
            proof {
                reveal_strlit(",");
            }
        } else {
            proof {
                assert(ids@.take(1) =~= seq![ids@[0]]);
            }
        }
        push_dec(&mut s, ids[i]);
        i += 1;
    }
    proof {
        assert(ids@.take(i as int) =~= ids@);
    }
    s
}

impl DispatchState {
    /// Append an event.
    pub fn push_event(&mut self, e: Event)
        ensures
            final(self).evs() == old(self).evs().push(event_view(e)),
            *final(self) == (DispatchState { events: final(self).events, ..*old(self) }),
    {
        self.events.push(e);
        proof {
            assert(self.evs() =~= old(self).evs().push(event_view(e)));
        }
    }

    /// Clear the focused window's urgency and ask for keyboard focus (and a
    /// pointer warp, if configured).
    pub fn sync_focus(&mut self, cfg: &DispatchConfig, fx: &mut Vec<Effect>)
        requires
            old(self).wf(),
        ensures
            final(self).wf(),
            urgency_cleared(&old(self).grid, &final(self).grid),
            *final(self) == (DispatchState { grid: final(self).grid, ..*old(self) }),
            fxv(final(fx)@) == fxv(old(fx)@) + sync_fx(*cfg),
    {
        self.grid.clear_focus_urgency();
        push_fx(fx, Effect::FocusKeyboard);
        if cfg.warp_on_focus_change {
            push_fx(fx, Effect::WarpCursor);
        }
        proof {
            assert(fxv(fx@) =~= fxv(old(fx)@) + sync_fx(*cfg));
        }
    }
}

} // verus!
