use vstd::prelude::*;

use super::theme::ThemeConfig;
use super::rules::Rule;

verus! {

/// Size, wrapping and initial cell of the workspace grid.
#[derive(Debug, Clone)]
pub struct GridConfig {
    pub cols: u8,
    pub rows: u8,
    pub scope: GridScope,
    pub wrap_x: bool,
    pub wrap_y: bool,
    pub default: [u8; 2],
    /// Whether workspace navigation on one monitor moves all monitors.
    pub workspace_sync: WorkspaceSyncMode,
}

impl GridConfig {
    /// Every field holds its default value.
    pub open spec fn is_default(&self) -> bool {
        self.cols == 3
        && self.rows == 3
        && self.scope.is_default()
        && self.wrap_x == false
        && self.wrap_y == false
        && self.default@ == seq![1u8, 1u8]
        && self.workspace_sync.is_default()
    }
}

impl Default for GridConfig {
    fn default() -> (r: Self)
        ensures
            r.is_default(),
    {
        Self {
            cols: 3,
            rows: 3,
            scope: GridScope::default(),
            wrap_x: false,
            wrap_y: false,
            default: [1u8, 1u8],
            workspace_sync: WorkspaceSyncMode::default(),
        }
    }
}

#[derive(Debug, Clone, Copy, PartialEq, Eq, Structural)]
pub enum WorkspaceSyncMode {
    Unsynced,
    Synced,
}

impl WorkspaceSyncMode {
    /// The variant `default` gives.
    pub open spec fn is_default(&self) -> bool {
        *self == WorkspaceSyncMode::Unsynced
    }
}

impl Default for WorkspaceSyncMode {
    fn default() -> (r: Self)
        ensures
            r == WorkspaceSyncMode::Unsynced,
    {
        WorkspaceSyncMode::Unsynced
    }
}

#[derive(Debug, Clone, Copy, PartialEq, Eq, Structural)]
pub enum GridScope {
    PerOutput,
    Global,
    GlobalSlice,
}

impl GridScope {
    /// The variant `default` gives.
    pub open spec fn is_default(&self) -> bool {
        *self == GridScope::PerOutput
    }
}

impl Default for GridScope {
    fn default() -> (r: Self)
        ensures
            r == GridScope::PerOutput,
    {
        GridScope::PerOutput
    }
}

#[derive(Debug, Clone)]
pub struct ViewConfig {
    pub default_mode: ViewMode,
    pub slide_duration_ms: u32,
    pub slide_easing: String,
}

impl ViewConfig {
    /// Every field holds its default value.
    pub open spec fn is_default(&self) -> bool {
        self.default_mode.is_default()
        && self.slide_duration_ms == 220
        && self.slide_easing@ == "ease-out-cubic"@
    }
}

impl Default for ViewConfig {
    fn default() -> (r: Self)
        ensures
            r.is_default(),
    {
        Self {
            default_mode: ViewMode::default(),
            slide_duration_ms: 220,
            slide_easing: String::from_str("ease-out-cubic"),
        }
    }
}

#[derive(Debug, Clone)]
pub struct AnimationsConfig {
    pub open_duration_ms: u32,
    pub close_duration_ms: u32,
    /// Policy when a new animation interrupts an in-progress one.
    pub on_interrupt: String,
    pub crossfade_ms: u32,
    /// Honor the reduced-motion accessibility preference.
    pub respect_prefers_reduced_motion: bool,
}

impl AnimationsConfig {
    /// Every field holds its default value.
    pub open spec fn is_default(&self) -> bool {
        self.open_duration_ms == 160
        && self.close_duration_ms == 120
        && self.on_interrupt@ == "snap-then-start"@
        && self.crossfade_ms == 60
        && self.respect_prefers_reduced_motion == true
    }
}

impl Default for AnimationsConfig {
    fn default() -> (r: Self)
        ensures
            r.is_default(),
    {
        Self {
            open_duration_ms: 160,
            close_duration_ms: 120,
            on_interrupt: String::from_str("snap-then-start"),
            crossfade_ms: 60,
            respect_prefers_reduced_motion: true,
        }
    }
}

/// Paths to GLSL fragment shader files; empty = passthrough.
#[derive(Debug, Clone)]
pub struct ShadersConfig {
    pub screen: String,
    pub open: String,
    pub close: String,
    pub move_: String,
    pub resize: String,
    pub workspace_slide: String,
    pub overview_zoom: String,
}

impl ShadersConfig {
    /// Every field holds its default value.
    pub open spec fn is_default(&self) -> bool {
        self.screen@ == ""@
        && self.open@ == ""@
        && self.close@ == ""@
        && self.move_@ == ""@
        && self.resize@ == ""@
        && self.workspace_slide@ == ""@
        && self.overview_zoom@ == ""@
    }
}

impl Default for ShadersConfig {
    fn default() -> (r: Self)
        ensures
            r.is_default(),
    {
        Self {
            screen: String::from_str(""),
            open: String::from_str(""),
            close: String::from_str(""),
            move_: String::from_str(""),
            resize: String::from_str(""),
            workspace_slide: String::from_str(""),
            overview_zoom: String::from_str(""),
        }
    }
}

#[derive(Debug, Clone, Copy, PartialEq, Eq, Structural)]
pub enum ViewMode {
    Focus,
    Overview,
}

impl ViewMode {
    /// The variant `default` gives.
    pub open spec fn is_default(&self) -> bool {
        *self == ViewMode::Focus
    }
}

impl Default for ViewMode {
    fn default() -> (r: Self)
        ensures
            r == ViewMode::Focus,
    {
        ViewMode::Focus
    }
}

#[derive(Debug, Clone)]
pub struct InputConfig {
    pub mod_key: String,
    pub follow_mouse: FollowMouse,
    pub cross_workspace_focus: bool,
    pub double_click_ms: u32,
    pub natural_scroll: bool,
    pub tap_to_click: bool,
    pub keyboard: KeyboardConfig,
    pub touchpad: TouchpadConfig,
    pub pointer_constraint_break_key: String,
    /// Warp cursor to the focused window center on focus change.
    pub warp_cursor_on_focus_change: bool,
    /// Warp cursor to the focused window center on workspace switch.
    pub warp_cursor_on_workspace_change: bool,
}

impl InputConfig {
    /// Every field holds its default value.
    pub open spec fn is_default(&self) -> bool {
        self.mod_key@ == "Super"@
        && self.follow_mouse.is_default()
        && self.cross_workspace_focus == true
        && self.double_click_ms == 250
        && self.natural_scroll == true
        && self.tap_to_click == true
        && self.keyboard.is_default()
        && self.touchpad.is_default()
        && self.pointer_constraint_break_key@ == "Super+Escape"@
        && self.warp_cursor_on_focus_change == false
        && self.warp_cursor_on_workspace_change == false
    }
}

impl Default for InputConfig {
    fn default() -> (r: Self)
        ensures
            r.is_default(),
    {
        Self {
            mod_key: String::from_str("Super"),
            follow_mouse: FollowMouse::default(),
            cross_workspace_focus: true,
            double_click_ms: 250,
            natural_scroll: true,
            tap_to_click: true,
            keyboard: KeyboardConfig::default(),
            touchpad: TouchpadConfig::default(),
            pointer_constraint_break_key: String::from_str("Super+Escape"),
            warp_cursor_on_focus_change: false,
            warp_cursor_on_workspace_change: false,
        }
    }
}

#[derive(Debug, Clone, Copy, PartialEq, Eq, Structural)]
pub enum FollowMouse {
    Off,
    Loose,
    Strict,
}

impl FollowMouse {
    /// The variant `default` gives.
    pub open spec fn is_default(&self) -> bool {
        *self == FollowMouse::Loose
    }
}

impl Default for FollowMouse {
    fn default() -> (r: Self)
        ensures
            r == FollowMouse::Loose,
    {
        FollowMouse::Loose
    }
}

#[derive(Debug, Clone)]
pub struct KeyboardConfig {
    pub layout: String,
    pub variant: String,
    pub options: String,
    pub repeat_rate: u32,
    pub repeat_delay: u32,
}

impl KeyboardConfig {
    /// Every field holds its default value.
    pub open spec fn is_default(&self) -> bool {
        self.layout@ == "us"@
        && self.variant@ == ""@
        && self.options@ == ""@
        && self.repeat_rate == 35
        && self.repeat_delay == 400
    }
}

impl Default for KeyboardConfig {
    fn default() -> (r: Self)
        ensures
            r.is_default(),
    {
        Self {
            layout: String::from_str("us"),
            variant: String::from_str(""),
            options: String::from_str(""),
            repeat_rate: 35,
            repeat_delay: 400,
        }
    }
}

#[derive(Debug, Clone)]
pub struct TouchpadConfig {
    pub disable_while_typing: bool,
    pub scroll_method: String,
}

impl TouchpadConfig {
    /// Every field holds its default value.
    pub open spec fn is_default(&self) -> bool {
        self.disable_while_typing == true
        && self.scroll_method@ == "two-finger"@
    }
}

impl Default for TouchpadConfig {
    fn default() -> (r: Self)
        ensures
            r.is_default(),
    {
        Self {
            disable_while_typing: true,
            scroll_method: String::from_str("two-finger"),
        }
    }
}

#[derive(Debug, Clone)]
pub struct WindowsConfig {
    pub on_slot_conflict: ConflictPolicy,
    pub slot_adaptation: bool,
    pub fullscreen_adaptation: bool,
    pub fullscreen_adaptation_stack_fallback: bool,
    pub fullscreen_auto_restore: bool,
    pub totalfullscreen_protects_workspace: bool,
    pub absolute_move_skip: bool,
    pub stack_scroll_direction: ScrollDirection,
    pub focus_steals_demotes: bool,
    pub focus_on_close: FocusOnClosePolicy,
    pub min_size_overflow: MinSizeOverflow,
    pub edge_snap_threshold_px: u32,
    pub unsnap_threshold_px: u32,
    pub edge_snap: bool,
    pub edge_snap_preview: bool,
    pub new_window: NewWindowConfig,
    pub floating: FloatingConfig,
}

impl WindowsConfig {
    /// Every field holds its default value.
    pub open spec fn is_default(&self) -> bool {
        self.on_slot_conflict.is_default()
        && self.slot_adaptation == true
        && self.fullscreen_adaptation == true
        && self.fullscreen_adaptation_stack_fallback == false
        && self.fullscreen_auto_restore == true
        && self.totalfullscreen_protects_workspace == true
        && self.absolute_move_skip == false
        && self.stack_scroll_direction.is_default()
        && self.focus_steals_demotes == true
        && self.focus_on_close.is_default()
        && self.min_size_overflow.is_default()
        && self.edge_snap_threshold_px == 24
        && self.unsnap_threshold_px == 40
        && self.edge_snap == true
        && self.edge_snap_preview == true
        && self.new_window.is_default()
        && self.floating.is_default()
    }
}

impl Default for WindowsConfig {
    fn default() -> (r: Self)
        ensures
            r.is_default(),
    {
        Self {
            on_slot_conflict: ConflictPolicy::default(),
            slot_adaptation: true,
            fullscreen_adaptation: true,
            fullscreen_adaptation_stack_fallback: false,
            fullscreen_auto_restore: true,
            totalfullscreen_protects_workspace: true,
            absolute_move_skip: false,
            stack_scroll_direction: ScrollDirection::default(),
            focus_steals_demotes: true,
            focus_on_close: FocusOnClosePolicy::default(),
            min_size_overflow: MinSizeOverflow::default(),
            edge_snap_threshold_px: 24,
            unsnap_threshold_px: 40,
            edge_snap: true,
            edge_snap_preview: true,
            new_window: NewWindowConfig::default(),
            floating: FloatingConfig::default(),
        }
    }
}

/// What happens when a window is assigned to a slot that conflicts with an occupied one.
#[derive(Debug, Clone, Copy, PartialEq, Eq, Structural)]
pub enum ConflictPolicy {
    Stack,
    Swap,
    KickToFloating,
}

impl ConflictPolicy {
    /// The variant `default` gives.
    pub open spec fn is_default(&self) -> bool {
        *self == ConflictPolicy::Stack
    }
}

impl Default for ConflictPolicy {
    fn default() -> (r: Self)
        ensures
            r == ConflictPolicy::Stack,
    {
        ConflictPolicy::Stack
    }
}

#[derive(Debug, Clone, Copy, PartialEq, Eq, Structural)]
pub enum ScrollDirection {
    Natural,
    Inverted,
}

impl ScrollDirection {
    /// The variant `default` gives.
    pub open spec fn is_default(&self) -> bool {
        *self == ScrollDirection::Natural
    }
}

impl Default for ScrollDirection {
    fn default() -> (r: Self)
        ensures
            r == ScrollDirection::Natural,
    {
        ScrollDirection::Natural
    }
}

/// Which window receives focus after the focused one closes.
#[derive(Debug, Clone, Copy, PartialEq, Eq, Structural)]
pub enum FocusOnClosePolicy {
    LastFocused,
    StackNext,
    SlotNeighbor,
    NoFocus,
}

impl FocusOnClosePolicy {
    /// The variant `default` gives.
    pub open spec fn is_default(&self) -> bool {
        *self == FocusOnClosePolicy::LastFocused
    }
}

impl Default for FocusOnClosePolicy {
    fn default() -> (r: Self)
        ensures
            r == FocusOnClosePolicy::LastFocused,
    {
        FocusOnClosePolicy::LastFocused
    }
}

#[derive(Debug, Clone, Copy, PartialEq, Eq, Structural)]
pub enum MinSizeOverflow {
    Float,
    Clip,
    Ignore,
}

impl MinSizeOverflow {
    /// The variant `default` gives.
    pub open spec fn is_default(&self) -> bool {
        *self == MinSizeOverflow::Float
    }
}

impl Default for MinSizeOverflow {
    fn default() -> (r: Self)
        ensures
            r == MinSizeOverflow::Float,
    {
        MinSizeOverflow::Float
    }
}

#[derive(Debug, Clone)]
pub struct NewWindowConfig {
    pub transient: String,
    pub same_app: String,
    pub default: String,
    pub focus_on_open: bool,
    pub focus_steal_prevention: bool,
}

impl NewWindowConfig {
    /// Every field holds its default value.
    pub open spec fn is_default(&self) -> bool {
        self.transient@ == "floating-on-parent"@
        && self.same_app@ == "next-empty-slot"@
        && self.default@ == "next-empty-slot"@
        && self.focus_on_open == true
        && self.focus_steal_prevention == true
    }
}

impl Default for NewWindowConfig {
    fn default() -> (r: Self)
        ensures
            r.is_default(),
    {
        Self {
            transient: String::from_str("floating-on-parent"),
            same_app: String::from_str("next-empty-slot"),
            default: String::from_str("next-empty-slot"),
            focus_on_open: true,
            focus_steal_prevention: true,
        }
    }
}

#[derive(Debug, Clone)]
pub struct FloatingConfig {
    pub default_size: [u32; 2],
    pub center_on_open: bool,
    pub above_total_fullscreen: bool,
}

impl FloatingConfig {
    /// Every field holds its default value.
    pub open spec fn is_default(&self) -> bool {
        self.default_size@ == seq![800u32, 600u32]
        && self.center_on_open == true
        && self.above_total_fullscreen == true
    }
}

impl Default for FloatingConfig {
    fn default() -> (r: Self)
        ensures
            r.is_default(),
    {
        Self {
            default_size: [800u32, 600u32],
            center_on_open: true,
            above_total_fullscreen: true,
        }
    }
}

/// TotalFullscreen behavior.
#[derive(Debug, Clone)]
pub struct FullscreenConfig {
    /// Keysym name that exits TotalFullscreen.
    pub total_release_key: String,
    pub allow_tearing: bool,
    pub tearing_hides_floating: bool,
    pub performance_on_total_fullscreen: bool,
}

impl FullscreenConfig {
    /// Every field holds its default value.
    pub open spec fn is_default(&self) -> bool {
        self.total_release_key@ == "Escape"@
        && self.allow_tearing == true
        && self.tearing_hides_floating == true
        && self.performance_on_total_fullscreen == false
    }
}

impl Default for FullscreenConfig {
    fn default() -> (r: Self)
        ensures
            r.is_default(),
    {
        Self {
            total_release_key: String::from_str("Escape"),
            allow_tearing: true,
            tearing_hides_floating: true,
            performance_on_total_fullscreen: false,
        }
    }
}

#[derive(Debug, Clone)]
pub struct StartupConfig {
    pub exec_once: Vec<String>,
    pub exec_always: Vec<String>,
    pub honor_xdg_autostart: bool,
}

impl StartupConfig {
    /// Every field holds its default value.
    pub open spec fn is_default(&self) -> bool {
        self.exec_once@.len() == 0
        && self.exec_always@.len() == 0
        && self.honor_xdg_autostart == false
    }
}

impl Default for StartupConfig {
    fn default() -> (r: Self)
        ensures
            r.is_default(),
    {
        Self {
            exec_once: Vec::new(),
            exec_always: Vec::new(),
            honor_xdg_autostart: false,
        }
    }
}

#[derive(Debug, Clone)]
pub struct IdleConfig {
    pub enabled: bool,
    pub timeouts: Vec<IdleTimeoutConfig>,
    pub inhibitors: IdleInhibitorsConfig,
}

impl IdleConfig {
    /// Every field holds its default value.
    pub open spec fn is_default(&self) -> bool {
        self.enabled == true
        && self.timeouts@.len() == 0
        && self.inhibitors.is_default()
    }
}

impl Default for IdleConfig {
    fn default() -> (r: Self)
        ensures
            r.is_default(),
    {
        Self {
            enabled: true,
            timeouts: Vec::new(),
            inhibitors: IdleInhibitorsConfig::default(),
        }
    }
}

#[derive(Debug, Clone)]
pub struct IdleTimeoutConfig {
    pub after_seconds: u64,
    pub on_timeout: String,
    pub on_resume: String,
}

#[derive(Debug, Clone)]
pub struct IdleInhibitorsConfig {
    pub honor_app_inhibits: bool,
    pub no_idle_on_game: bool,
    pub no_idle_on_audio: bool,
}

impl IdleInhibitorsConfig {
    /// Every field holds its default value.
    pub open spec fn is_default(&self) -> bool {
        self.honor_app_inhibits == true
        && self.no_idle_on_game == true
        && self.no_idle_on_audio == false
    }
}

impl Default for IdleInhibitorsConfig {
    fn default() -> (r: Self)
        ensures
            r.is_default(),
    {
        Self {
            honor_app_inhibits: true,
            no_idle_on_game: true,
            no_idle_on_audio: false,
        }
    }
}

/// Session persistence.
#[derive(Debug, Clone)]
pub struct SessionConfig {
    /// Save the session every N seconds while running (0 = disabled).
    pub autosave_interval_s: u32,
    pub restore_on_start: bool,
}

impl SessionConfig {
    /// Every field holds its default value.
    pub open spec fn is_default(&self) -> bool {
        self.autosave_interval_s == 60
        && self.restore_on_start == true
    }
}

impl Default for SessionConfig {
    fn default() -> (r: Self)
        ensures
            r.is_default(),
    {
        Self {
            autosave_interval_s: 60,
            restore_on_start: true,
        }
    }
}

/// One key bind entry.
#[derive(Debug, Clone)]
pub struct BindConfig {
    /// Modifier names: "Super", "Alt", "Ctrl", "Shift".
    pub mods: Vec<String>,
    /// XKB key name, e.g. "h", "Return", "Left", "Tab".
    pub key: String,
    pub action: String,
    pub args: Vec<String>,
    pub description: String,
    pub repeat: bool,
    pub locked: bool,
    pub global: bool,
    pub passthrough: bool,
}

impl BindConfig {
    /// Every field holds its default value.
    pub open spec fn is_default(&self) -> bool {
        self.mods@.len() == 0
        && self.key@ == ""@
        && self.action@ == ""@
        && self.args@.len() == 0
        && self.description@ == ""@
        && self.repeat == false
        && self.locked == false
        && self.global == false
        && self.passthrough == false
    }
}

impl Default for BindConfig {
    fn default() -> (r: Self)
        ensures
            r.is_default(),
    {
        Self {
            mods: Vec::new(),
            key: String::from_str(""),
            action: String::from_str(""),
            args: Vec::new(),
            description: String::from_str(""),
            repeat: false,
            locked: false,
            global: false,
            passthrough: false,
        }
    }
}

/// One key binding within a submap.
#[derive(Debug, Clone)]
pub struct SubBindConfig {
    pub mods: Vec<String>,
    pub key: String,
    pub action: String,
    pub args: Vec<String>,
    pub repeat: bool,
}

impl SubBindConfig {
    /// Every field holds its default value.
    pub open spec fn is_default(&self) -> bool {
        self.mods@.len() == 0
        && self.key@ == ""@
        && self.action@ == ""@
        && self.args@.len() == 0
        && self.repeat == false
    }
}

impl Default for SubBindConfig {
    fn default() -> (r: Self)
        ensures
            r.is_default(),
    {
        Self {
            mods: Vec::new(),
            key: String::from_str(""),
            action: String::from_str(""),
            args: Vec::new(),
            repeat: false,
        }
    }
}

/// One multi-finger swipe or pinch bind.
#[derive(Debug, Clone)]
pub struct GestureConfig {
    pub fingers: u8,
    pub direction: String,
    pub action: String,
    pub args: Vec<String>,
}

impl GestureConfig {
    /// Every field holds its default value.
    pub open spec fn is_default(&self) -> bool {
        self.fingers == 0u8
        && self.direction@ == ""@
        && self.action@ == ""@
        && self.args@.len() == 0
    }
}

impl Default for GestureConfig {
    fn default() -> (r: Self)
        ensures
            r.is_default(),
    {
        Self {
            fingers: 0u8,
            direction: String::from_str(""),
            action: String::from_str(""),
            args: Vec::new(),
        }
    }
}

/// A named modal key mode.
#[derive(Debug, Clone)]
pub struct SubmapConfig {
    pub name: String,
    /// Keys that always exit the submap.
    pub exit_keys: Vec<String>,
    /// Exit the submap when an unrecognized key is pressed.
    pub exit_on_unhandled: bool,
    /// Exit the submap after any recognized action fires.
    pub exit_after_action: bool,
    pub binds: Vec<SubBindConfig>,
}

/// Root configuration (the sections without floating-point values).
#[derive(Debug, Clone)]
pub struct Config {
    pub grid: GridConfig,
    pub view: ViewConfig,
    pub animations: AnimationsConfig,
    pub input: InputConfig,
    pub windows: WindowsConfig,
    pub fullscreen: FullscreenConfig,
    pub startup: StartupConfig,
    pub idle: IdleConfig,
    pub session: SessionConfig,
    pub imports: Vec<String>,
    pub binds: Vec<BindConfig>,
    pub bind_releases: Vec<BindConfig>,
    pub submaps: Vec<SubmapConfig>,
    pub gestures: Vec<GestureConfig>,
    /// Window rules.
    pub rules: Vec<Rule>,
    pub shaders: ShadersConfig,
    pub theme: ThemeConfig,
    pub terminal: String,
}

impl Config {
    /// Every field holds its default value.
    pub open spec fn is_default(&self) -> bool {
        self.grid.is_default()
        && self.view.is_default()
        && self.animations.is_default()
        && self.input.is_default()
        && self.windows.is_default()
        && self.fullscreen.is_default()
        && self.startup.is_default()
        && self.idle.is_default()
        && self.session.is_default()
        && self.imports@.len() == 0
        && self.binds@.len() == 0
        && self.bind_releases@.len() == 0
        && self.submaps@.len() == 0
        && self.gestures@.len() == 0
        && self.rules@.len() == 0
        && self.shaders.is_default()
        && self.theme.is_default()
        && self.terminal@ == ""@
    }
}

impl Default for Config {
    fn default() -> (r: Self)
        ensures
            r.is_default(),
    {
        Self {
            grid: GridConfig::default(),
            view: ViewConfig::default(),
            animations: AnimationsConfig::default(),
            input: InputConfig::default(),
            windows: WindowsConfig::default(),
            fullscreen: FullscreenConfig::default(),
            startup: StartupConfig::default(),
            idle: IdleConfig::default(),
            session: SessionConfig::default(),
            imports: Vec::new(),
            binds: Vec::new(),
            bind_releases: Vec::new(),
            submaps: Vec::new(),
            gestures: Vec::new(),
            rules: Vec::new(),
            shaders: ShadersConfig::default(),
            theme: ThemeConfig::default(),
            terminal: String::from_str(""),
        }
    }
}

} // verus!
