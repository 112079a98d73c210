//! The IPC command language: splitting a command line, commands refused
//! while the session is locked, names of slots and states, and runtime
//! configuration overrides (`keyword`).
use vstd::prelude::*;
use vstd::string::StrSliceExecFns;

use super::events::Event;
use crate::config::theme::{GapsConfig, OsdConfig, ThemeConfig, WindowGapConfig};
use crate::config::types::{
    AnimationsConfig, Config, FocusOnClosePolicy, FollowMouse, FullscreenConfig, GridConfig, InputConfig,
    TouchpadConfig, WindowsConfig, WorkspaceSyncMode,
};
use crate::grid::window::{Slot, WindowState};
use crate::grid::Grid;
use crate::text::{parse_i32, parse_signed, parse_u32, parse_u64, parse_unsigned, str_eq, strip_prefix, trim, trimmed};

verus! {

pub open spec fn slot_name_spec(slot: Slot) -> Seq<char> {
    match slot {
        Slot::HalfLeft => "HalfLeft"@,
        Slot::HalfRight => "HalfRight"@,
        Slot::QuarterTL => "QuarterTL"@,
        Slot::QuarterTR => "QuarterTR"@,
        Slot::QuarterBL => "QuarterBL"@,
        Slot::QuarterBR => "QuarterBR"@,
    }
}

pub fn slot_name(slot: Slot) -> (r: &'static str)
    ensures
        r@ == slot_name_spec(slot),
{
    match slot {
        Slot::HalfLeft => "HalfLeft",
        Slot::HalfRight => "HalfRight",
        Slot::QuarterTL => "QuarterTL",
        Slot::QuarterTR => "QuarterTR",
        Slot::QuarterBL => "QuarterBL",
        Slot::QuarterBR => "QuarterBR",
    }
}

pub open spec fn state_name_spec(state: WindowState) -> Seq<char> {
    match state {
        WindowState::Tiled => "Tiled"@,
        WindowState::Floating => "Floating"@,
        WindowState::Fullscreen => "Fullscreen"@,
        WindowState::TotalFullscreen => "TotalFullscreen"@,
    }
}

pub fn state_name(state: WindowState) -> (r: &'static str)
    ensures
        r@ == state_name_spec(state),
{
    match state {
        WindowState::Tiled => "Tiled",
        WindowState::Floating => "Floating",
        WindowState::Fullscreen => "Fullscreen",
        WindowState::TotalFullscreen => "TotalFullscreen",
    }
}

/// The commands that change compositor state or spawn processes.
pub open spec fn locked_blocked_spec(verb: Seq<char>) -> bool {
    verb == "kill"@ || verb == "dispatch"@ || verb == "reload"@ || verb == "keyword"@ || verb == "setprop"@
        || verb == "notify"@ || verb == "plugin"@
}

/// Whether `verb` is refused while the session is locked.
pub fn is_locked_blocked(verb: &str) -> (r: bool)
    ensures
        r == locked_blocked_spec(verb@),
{
    str_eq(verb, "kill") || str_eq(verb, "dispatch") || str_eq(verb, "reload") || str_eq(verb, "keyword")
        || str_eq(verb, "setprop") || str_eq(verb, "notify") || str_eq(verb, "plugin")
}

/// The word before the first space, and the trimmed rest; the whole line
/// and nothing when there is no space.
pub open spec fn split_verb_spec(s: Seq<char>) -> (Seq<char>, Seq<char>) {
    match s.index_of_first(' ') {
        Some(i) => (s.take(i), trimmed(s.skip(i + 1))),
        None => (s, ""@),
    }
}

pub fn split_verb(s: &str) -> (r: (&str, &str))
    ensures
        (r.0@, r.1@) == split_verb_spec(s@),
{
    let n = s.unicode_len();
    let mut i: usize = 0;
    proof {
        s@.index_of_first_ensures(' ');
    }
    while i < n
        invariant
            i <= n,
            n == s@.len(),
            forall|k: int| 0 <= k < i ==> s@[k] != ' ',
            match s@.index_of_first(' ') {
                Some(index) => s@.contains(' ') && 0 <= index < s@.len() && s@[index] == ' '
                    && forall|j: int| 0 <= j < index < s@.len() ==> s@[j] != ' ',
                None => !s@.contains(' '),
            },
        decreases n - i,
    {
        if s.get_char(i) == ' ' {
            let verb = s.substring_char(0, i);
            let rest = trim(s.substring_char(i + 1, n));
            proof {
                let p = s@.index_of_first(' ');
                assert(p == Some(i as int)) by {
                    match p {
                        Some(index) => {
                            if index < i {
                                assert(s@[index] != ' ');
                            }
                            if index > i {
                                assert(s@[i as int] != ' ');
                            }
                        },
                        None => {
                            assert(s@.contains(' ')) by {
                                assert(s@[i as int] == ' ');
                            }
                        },
                    }
                }
                assert(verb@ =~= s@.take(i as int));
                assert(s@.subrange(i as int + 1, n as int) =~= s@.skip(i as int + 1));
            }
            return (verb, rest);
        }
        i += 1;
    }
    proof {
        if s@.contains(' ') {
            let k = choose|k: int| 0 <= k < s@.len() && s@[k] == ' ';
            assert(s@[k] != ' ');
        }
    }
    (s, "")
}

/// A JSON request starts with `j/`: whether it does, and the command after it.
pub open spec fn json_request_spec(cmd: Seq<char>) -> (bool, Seq<char>) {
    if cmd.len() >= "j/"@.len() && cmd.take("j/"@.len() as int) == "j/"@ {
        (true, cmd.skip("j/"@.len() as int))
    } else {
        (false, cmd)
    }
}

pub fn json_request(cmd: &str) -> (r: (bool, &str))
    ensures
        (r.0, r.1@) == json_request_spec(cmd@),
{
    match strip_prefix(cmd, "j/") {
        Some(rest) => (true, rest),
        None => (false, cmd),
    }
}

/// What `bool::from_str` gives: `true` or `false`, else `d`.
pub open spec fn bool_or(v: Seq<char>, d: bool) -> bool {
    if v == "true"@ {
        true
    } else if v == "false"@ {
        false
    } else {
        d
    }
}

pub(crate) fn bool_or_exec(v: &str, d: bool) -> (r: bool)
    ensures
        r == bool_or(v@, d),
{
    if str_eq(v, "true") {
        true
    } else if str_eq(v, "false") {
        false
    } else {
        d
    }
}

pub open spec fn follow_mouse_of(v: Seq<char>) -> FollowMouse {
    if v == "off"@ {
        FollowMouse::Off
    } else if v == "strict"@ {
        FollowMouse::Strict
    } else {
        FollowMouse::Loose
    }
}

pub open spec fn focus_on_close_of(v: Seq<char>) -> FocusOnClosePolicy {
    if v == "stack-next"@ {
        FocusOnClosePolicy::StackNext
    } else if v == "slot-neighbor"@ {
        FocusOnClosePolicy::SlotNeighbor
    } else if v == "none"@ {
        FocusOnClosePolicy::NoFocus
    } else {
        FocusOnClosePolicy::LastFocused
    }
}

/// The configuration keys that `keyword` can override at run time.
#[derive(Clone, Copy, Debug, PartialEq, Eq, Structural)]
pub enum KeywordKey {
    /// `animations.open_duration_ms`
    OpenDuration,
    /// `input.follow_mouse`
    FollowMouse,
    /// `input.cross_workspace_focus`
    CrossWorkspaceFocus,
    /// `general.gaps_in` or `gaps.windows.inner_px`
    InnerGap,
    /// `general.gaps_out` or `gaps.windows.outer_px`
    OuterGap,
    /// `theme.osd.enabled`
    OsdEnabled,
    /// `theme.osd.duration_ms`
    OsdDuration,
    /// `input.warp_cursor_on_focus_change`
    WarpOnFocus,
    /// `input.warp_cursor_on_workspace_change`
    WarpOnWorkspace,
    /// `debug.overlay`
    DebugOverlay,
    /// `fullscreen.performance_on_total_fullscreen`
    PerformanceOnTotalFullscreen,
    /// `shaders.screen`
    ScreenShader,
    /// `animations.enabled`
    AnimationsEnabled,
    /// `animations.close_duration_ms`
    CloseDuration,
    /// `input.natural_scroll`
    NaturalScroll,
    /// `input.tap_to_click`
    TapToClick,
    /// `input.disable_while_typing` or `touchpad.disable_while_typing`
    DisableWhileTyping,
    /// `windows.focus_on_close`
    FocusOnClose,
    /// `grid.workspace_sync`
    WorkspaceSync,
    /// `grid.wrap_x`
    WrapX,
    /// `grid.wrap_y`
    WrapY,
}

/// The key that `k` names, if `keyword` supports it.
pub open spec fn keyword_key_spec(k: Seq<char>) -> Option<KeywordKey> {
    if k == "animations.open_duration_ms"@ {
        Some(KeywordKey::OpenDuration)
    } else if k == "input.follow_mouse"@ {
        Some(KeywordKey::FollowMouse)
    } else if k == "input.cross_workspace_focus"@ {
        Some(KeywordKey::CrossWorkspaceFocus)
    } else if k == "general.gaps_in"@ || k == "gaps.windows.inner_px"@ {
        Some(KeywordKey::InnerGap)
    } else if k == "general.gaps_out"@ || k == "gaps.windows.outer_px"@ {
        Some(KeywordKey::OuterGap)
    } else if k == "theme.osd.enabled"@ {
        Some(KeywordKey::OsdEnabled)
    } else if k == "theme.osd.duration_ms"@ {
        Some(KeywordKey::OsdDuration)
    } else if k == "input.warp_cursor_on_focus_change"@ {
        Some(KeywordKey::WarpOnFocus)
    } else if k == "input.warp_cursor_on_workspace_change"@ {
        Some(KeywordKey::WarpOnWorkspace)
    } else if k == "debug.overlay"@ {
        Some(KeywordKey::DebugOverlay)
    } else if k == "fullscreen.performance_on_total_fullscreen"@ {
        Some(KeywordKey::PerformanceOnTotalFullscreen)
    } else if k == "shaders.screen"@ {
        Some(KeywordKey::ScreenShader)
    } else if k == "animations.enabled"@ {
        Some(KeywordKey::AnimationsEnabled)
    } else if k == "animations.close_duration_ms"@ {
        Some(KeywordKey::CloseDuration)
    } else if k == "input.natural_scroll"@ {
        Some(KeywordKey::NaturalScroll)
    } else if k == "input.tap_to_click"@ {
        Some(KeywordKey::TapToClick)
    } else if k == "input.disable_while_typing"@ || k == "touchpad.disable_while_typing"@ {
        Some(KeywordKey::DisableWhileTyping)
    } else if k == "windows.focus_on_close"@ {
        Some(KeywordKey::FocusOnClose)
    } else if k == "grid.workspace_sync"@ {
        Some(KeywordKey::WorkspaceSync)
    } else if k == "grid.wrap_x"@ {
        Some(KeywordKey::WrapX)
    } else if k == "grid.wrap_y"@ {
        Some(KeywordKey::WrapY)
    } else {
        None
    }
}

pub fn keyword_key(k: &str) -> (r: Option<KeywordKey>)
    ensures
        r == keyword_key_spec(k@),
{
    if str_eq(k, "animations.open_duration_ms") {
        Some(KeywordKey::OpenDuration)
    } else if str_eq(k, "input.follow_mouse") {
        Some(KeywordKey::FollowMouse)
    } else if str_eq(k, "input.cross_workspace_focus") {
        Some(KeywordKey::CrossWorkspaceFocus)
    } else if str_eq(k, "general.gaps_in") || str_eq(k, "gaps.windows.inner_px") {
        Some(KeywordKey::InnerGap)
    } else if str_eq(k, "general.gaps_out") || str_eq(k, "gaps.windows.outer_px") {
        Some(KeywordKey::OuterGap)
    } else if str_eq(k, "theme.osd.enabled") {
        Some(KeywordKey::OsdEnabled)
    } else if str_eq(k, "theme.osd.duration_ms") {
        Some(KeywordKey::OsdDuration)
    } else if str_eq(k, "input.warp_cursor_on_focus_change") {
        Some(KeywordKey::WarpOnFocus)
    } else if str_eq(k, "input.warp_cursor_on_workspace_change") {
        Some(KeywordKey::WarpOnWorkspace)
    } else if str_eq(k, "debug.overlay") {
        Some(KeywordKey::DebugOverlay)
    } else if str_eq(k, "fullscreen.performance_on_total_fullscreen") {
        Some(KeywordKey::PerformanceOnTotalFullscreen)
    } else if str_eq(k, "shaders.screen") {
        Some(KeywordKey::ScreenShader)
    } else if str_eq(k, "animations.enabled") {
        Some(KeywordKey::AnimationsEnabled)
    } else if str_eq(k, "animations.close_duration_ms") {
        Some(KeywordKey::CloseDuration)
    } else if str_eq(k, "input.natural_scroll") {
        Some(KeywordKey::NaturalScroll)
    } else if str_eq(k, "input.tap_to_click") {
        Some(KeywordKey::TapToClick)
    } else if str_eq(k, "input.disable_while_typing") || str_eq(k, "touchpad.disable_while_typing") {
        Some(KeywordKey::DisableWhileTyping)
    } else if str_eq(k, "windows.focus_on_close") {
        Some(KeywordKey::FocusOnClose)
    } else if str_eq(k, "grid.workspace_sync") {
        Some(KeywordKey::WorkspaceSync)
    } else if str_eq(k, "grid.wrap_x") {
        Some(KeywordKey::WrapX)
    } else if str_eq(k, "grid.wrap_y") {
        Some(KeywordKey::WrapY)
    } else {
        None
    }
}

/// The configuration after `keyword <key> <v>`: the supported keys set
/// their field (a number that does not parse leaves it; a boolean that does
/// not parse takes the key's default); other keys change nothing.
pub open spec fn keyword_config(c: Config, key: Seq<char>, v: Seq<char>) -> Config {
    key_config(c, keyword_key_spec(key), v)
}

/// The configuration after the override of `k` by `v`.
pub open spec fn key_config(c: Config, k: Option<KeywordKey>, v: Seq<char>) -> Config {
    Config {
        animations: key_animations(c.animations, k, v),
        input: key_input(c.input, k, v),
        theme: key_theme(c.theme, k, v),
        fullscreen: key_fullscreen(c.fullscreen, k, v),
        windows: key_windows(c.windows, k, v),
        grid: key_grid_config(c.grid, k, v),
        ..c
    }
}

pub open spec fn key_fullscreen(f: FullscreenConfig, k: Option<KeywordKey>, v: Seq<char>) -> FullscreenConfig {
    if k == Some(KeywordKey::PerformanceOnTotalFullscreen) {
        FullscreenConfig { performance_on_total_fullscreen: bool_or(v, false), ..f }
    } else {
        f
    }
}

pub open spec fn key_windows(w: WindowsConfig, k: Option<KeywordKey>, v: Seq<char>) -> WindowsConfig {
    if k == Some(KeywordKey::FocusOnClose) {
        WindowsConfig { focus_on_close: focus_on_close_of(v), ..w }
    } else {
        w
    }
}

pub open spec fn key_animations(a: AnimationsConfig, k: Option<KeywordKey>, v: Seq<char>) -> AnimationsConfig {
    match k {
        Some(KeywordKey::OpenDuration) => match parse_unsigned(v, u32::MAX as int) {
            Some(n) => AnimationsConfig { open_duration_ms: n as u32, ..a },
            None => a,
        },
        Some(KeywordKey::CloseDuration) => match parse_unsigned(v, u32::MAX as int) {
            Some(n) => AnimationsConfig { close_duration_ms: n as u32, ..a },
            None => a,
        },
        Some(KeywordKey::AnimationsEnabled) => if !bool_or(v, true) {
            AnimationsConfig { open_duration_ms: 0, close_duration_ms: 0, ..a }
        } else {
            a
        },
        _ => a,
    }
}

pub open spec fn key_input(i: InputConfig, k: Option<KeywordKey>, v: Seq<char>) -> InputConfig {
    match k {
        Some(KeywordKey::FollowMouse) => InputConfig { follow_mouse: follow_mouse_of(v), ..i },
        Some(KeywordKey::CrossWorkspaceFocus) => InputConfig { cross_workspace_focus: bool_or(v, true), ..i },
        Some(KeywordKey::WarpOnFocus) => InputConfig { warp_cursor_on_focus_change: bool_or(v, false), ..i },
        Some(KeywordKey::WarpOnWorkspace) => InputConfig { warp_cursor_on_workspace_change: bool_or(v, false), ..i },
        Some(KeywordKey::NaturalScroll) => InputConfig { natural_scroll: bool_or(v, true), ..i },
        Some(KeywordKey::TapToClick) => InputConfig { tap_to_click: bool_or(v, true), ..i },
        Some(KeywordKey::DisableWhileTyping) => InputConfig {
            touchpad: TouchpadConfig { disable_while_typing: bool_or(v, true), ..i.touchpad },
            ..i
        },
        _ => i,
    }
}

pub open spec fn key_theme(t: ThemeConfig, k: Option<KeywordKey>, v: Seq<char>) -> ThemeConfig {
    match k {
        Some(KeywordKey::InnerGap) => match parse_signed(v, i32::MIN as int, i32::MAX as int) {
            Some(n) => ThemeConfig {
                gaps: GapsConfig { windows: WindowGapConfig { inner_px: n as i32, ..t.gaps.windows }, ..t.gaps },
                ..t
            },
            None => t,
        },
        Some(KeywordKey::OuterGap) => match parse_signed(v, i32::MIN as int, i32::MAX as int) {
            Some(n) => ThemeConfig {
                gaps: GapsConfig { windows: WindowGapConfig { outer_px: n as i32, ..t.gaps.windows }, ..t.gaps },
                ..t
            },
            None => t,
        },
        Some(KeywordKey::OsdEnabled) => ThemeConfig { osd: OsdConfig { enabled: bool_or(v, true), ..t.osd }, ..t },
        Some(KeywordKey::OsdDuration) => match parse_unsigned(v, u64::MAX as int) {
            Some(n) => ThemeConfig { osd: OsdConfig { duration_ms: n as u64, ..t.osd }, ..t },
            None => t,
        },
        _ => t,
    }
}

pub open spec fn key_grid_config(g: GridConfig, k: Option<KeywordKey>, v: Seq<char>) -> GridConfig {
    match k {
        Some(KeywordKey::WorkspaceSync) => GridConfig {
            workspace_sync: if v == "synced"@ { WorkspaceSyncMode::Synced } else { WorkspaceSyncMode::Unsynced },
            ..g
        },
        Some(KeywordKey::WrapX) => GridConfig { wrap_x: bool_or(v, false), ..g },
        Some(KeywordKey::WrapY) => GridConfig { wrap_y: bool_or(v, false), ..g },
        _ => g,
    }
}

/// The state a `keyword` command reaches besides the configuration.
pub struct KeywordTargets {
    pub debug_overlay: bool,
    pub screen_shader: Option<String>,
    pub workspace_synced: bool,
    /// Events to send to subscribers, in order.
    pub events: Vec<Event>,
}

impl Grid {
    /// The grid after `keyword <key> <v>`, given the configuration `c` it
    /// left: the focus-crossing flag and the window gaps follow the
    /// configuration; the wrap keys reload the grid's settings from it.
    pub open spec fn keyword_grid(&self, old: &Grid, c: &Config, key: Seq<char>, v: Seq<char>) -> bool {
        self.key_grid(old, c, keyword_key_spec(key), v)
    }

    /// The grid after the override of `k` by `v`.
    pub open spec fn key_grid(&self, old: &Grid, c: &Config, k: Option<KeywordKey>, v: Seq<char>) -> bool {
        match k {
            Some(KeywordKey::CrossWorkspaceFocus) => *self == Grid {
                cross_workspace_focus: c.input.cross_workspace_focus,
                ..*old
            },
            Some(KeywordKey::InnerGap) => match parse_signed(v, i32::MIN as int, i32::MAX as int) {
                Some(n) => *self == Grid { inner_gap_px: n as i32, ..*old },
                None => *self == *old,
            },
            Some(KeywordKey::OuterGap) => match parse_signed(v, i32::MIN as int, i32::MAX as int) {
                Some(n) => *self == Grid { outer_gap_px: n as i32, ..*old },
                None => *self == *old,
            },
            Some(KeywordKey::WrapX) | Some(KeywordKey::WrapY) => self.updated_from(old, c),
            _ => *self == *old,
        }
    }
}

/// The other state after `keyword <key> <v>`.
pub open spec fn keyword_targets(t: &KeywordTargets, old: &KeywordTargets, key: Seq<char>, v: Seq<char>) -> bool {
    key_targets(t, old, keyword_key_spec(key), v)
}

/// The other state after the override of `k` by `v`.
pub open spec fn key_targets(t: &KeywordTargets, old: &KeywordTargets, k: Option<KeywordKey>, v: Seq<char>) -> bool {
    &&& t.debug_overlay == (if k == Some(KeywordKey::DebugOverlay) { bool_or(v, false) } else { old.debug_overlay })
    &&& if k == Some(KeywordKey::ScreenShader) {
        if v.len() == 0 || v == "clear"@ {
            t.screen_shader is None
        } else {
            t.screen_shader matches Some(s) && s@ == v
        }
    } else {
        t.screen_shader == old.screen_shader
    }
    &&& if k == Some(KeywordKey::WorkspaceSync) {
        &&& t.workspace_synced == (v == "synced"@)
        &&& t.events@ == old.events@.push(Event::WorkspaceSyncChanged { synced: v == "synced"@ })
    } else {
        &&& t.workspace_synced == old.workspace_synced
        &&& t.events@ == old.events@
    }
}

fn parsed_u32_or(v: &str, d: u32) -> (r: u32)
    ensures
        r == match parse_unsigned(v@, u32::MAX as int) {
            Some(n) => n as u32,
            None => d,
        },
{
    match parse_u32(v) {
        Some(n) => n,
        None => d,
    }
}

fn apply_to_config(k: Option<KeywordKey>, value: &str, config: &mut Config)
    ensures
        *final(config) == key_config(*old(config), k, value@),
{
    let ghost c0 = *config;
    apply_to_animations(k, value, &mut config.animations);
    apply_to_input(k, value, &mut config.input);
    apply_to_theme(k, value, &mut config.theme);
    apply_to_other(k, value, &mut config.fullscreen, &mut config.windows);
    apply_to_grid_config(k, value, &mut config.grid);
    assert(*config == key_config(c0, k, value@));
}

fn apply_to_other(k: Option<KeywordKey>, value: &str, f: &mut FullscreenConfig, w: &mut WindowsConfig)
    ensures
        *final(f) == key_fullscreen(*old(f), k, value@),
        *final(w) == key_windows(*old(w), k, value@),
{
    match k {
        Some(KeywordKey::PerformanceOnTotalFullscreen) => {
            f.performance_on_total_fullscreen = bool_or_exec(value, false);
        },
        Some(KeywordKey::FocusOnClose) => {
            w.focus_on_close = if str_eq(value, "stack-next") {
                FocusOnClosePolicy::StackNext
            } else if str_eq(value, "slot-neighbor") {
                FocusOnClosePolicy::SlotNeighbor
            } else if str_eq(value, "none") {
                FocusOnClosePolicy::NoFocus
            } else {
                FocusOnClosePolicy::LastFocused
            };
        },
        _ => {},
    }
}

fn apply_to_animations(k: Option<KeywordKey>, value: &str, a: &mut AnimationsConfig)
    ensures
        *final(a) == key_animations(*old(a), k, value@),
{
    match k {
        Some(KeywordKey::OpenDuration) => {
            a.open_duration_ms = parsed_u32_or(value, a.open_duration_ms);
        },
        Some(KeywordKey::CloseDuration) => {
            a.close_duration_ms = parsed_u32_or(value, a.close_duration_ms);
        },
        Some(KeywordKey::AnimationsEnabled) => {
            if !bool_or_exec(value, true) {
                a.open_duration_ms = 0;
                a.close_duration_ms = 0;
            }
        },
        _ => {},
    }
}

fn apply_to_input(k: Option<KeywordKey>, value: &str, i: &mut InputConfig)
    ensures
        *final(i) == key_input(*old(i), k, value@),
{
    match k {
        Some(KeywordKey::FollowMouse) => {
            i.follow_mouse = if str_eq(value, "off") {
                FollowMouse::Off
            } else if str_eq(value, "strict") {
                FollowMouse::Strict
            } else {
                FollowMouse::Loose
            };
        },
        Some(KeywordKey::CrossWorkspaceFocus) => {
            i.cross_workspace_focus = bool_or_exec(value, true);
        },
        Some(KeywordKey::WarpOnFocus) => {
            i.warp_cursor_on_focus_change = bool_or_exec(value, false);
        },
        Some(KeywordKey::WarpOnWorkspace) => {
            i.warp_cursor_on_workspace_change = bool_or_exec(value, false);
        },
        Some(KeywordKey::NaturalScroll) => {
            i.natural_scroll = bool_or_exec(value, true);
        },
        Some(KeywordKey::TapToClick) => {
            i.tap_to_click = bool_or_exec(value, true);
        },
        Some(KeywordKey::DisableWhileTyping) => {
            i.touchpad.disable_while_typing = bool_or_exec(value, true);
        },
        _ => {},
    }
}

fn apply_to_theme(k: Option<KeywordKey>, value: &str, t: &mut ThemeConfig)
    ensures
        *final(t) == key_theme(*old(t), k, value@),
{
    match k {
        Some(KeywordKey::InnerGap) => {
            if let Some(v) = parse_i32(value) {
                t.gaps.windows.inner_px = v;
            }
        },
        Some(KeywordKey::OuterGap) => {
            if let Some(v) = parse_i32(value) {
                t.gaps.windows.outer_px = v;
            }
        },
        Some(KeywordKey::OsdEnabled) => {
            t.osd.enabled = bool_or_exec(value, true);
        },
        Some(KeywordKey::OsdDuration) => {
            if let Some(v) = parse_u64(value) {
                t.osd.duration_ms = v;
            }
        },
        _ => {},
    }
}

fn apply_to_grid_config(k: Option<KeywordKey>, value: &str, g: &mut GridConfig)
    ensures
        *final(g) == key_grid_config(*old(g), k, value@),
{
    match k {
        Some(KeywordKey::WorkspaceSync) => {
            g.workspace_sync = if str_eq(value, "synced") {
                WorkspaceSyncMode::Synced
            } else {
                WorkspaceSyncMode::Unsynced
            };
        },
        Some(KeywordKey::WrapX) => {
            g.wrap_x = bool_or_exec(value, false);
        },
        Some(KeywordKey::WrapY) => {
            g.wrap_y = bool_or_exec(value, false);
        },
        _ => {},
    }
}

fn apply_to_grid(k: Option<KeywordKey>, value: &str, config: &Config, grid: &mut Grid)
    ensures
        final(grid).key_grid(old(grid), config, k, value@),
{
    match k {
        Some(KeywordKey::CrossWorkspaceFocus) => {
            grid.cross_workspace_focus = config.input.cross_workspace_focus;
        },
        Some(KeywordKey::InnerGap) => {
            if let Some(v) = parse_i32(value) {
                grid.inner_gap_px = v;
            }
        },
        Some(KeywordKey::OuterGap) => {
            if let Some(v) = parse_i32(value) {
                grid.outer_gap_px = v;
            }
        },
        Some(KeywordKey::WrapX) | Some(KeywordKey::WrapY) => {
            grid.update_from_config(config);
        },
        _ => {},
    }
}

fn apply_to_targets(k: Option<KeywordKey>, value: &str, targets: &mut KeywordTargets)
    ensures
        key_targets(final(targets), old(targets), k, value@),
{
    match k {
        Some(KeywordKey::DebugOverlay) => {
            targets.debug_overlay = bool_or_exec(value, false);
        },
        Some(KeywordKey::ScreenShader) => {
            targets.screen_shader = if value.unicode_len() == 0 || str_eq(value, "clear") {
                None
            } else {
                Some(String::from_str(value))
            };
        },
        Some(KeywordKey::WorkspaceSync) => {
            let synced = str_eq(value, "synced");
            targets.workspace_synced = synced;
            targets.events.push(Event::WorkspaceSyncChanged { synced });
        },
        _ => {},
    }
}

/// Apply `keyword <key> <value>` (`rest` holding key and value) to the
/// configuration and the state it reaches; the reply is `ok`, or an error
/// when no key is given.
pub fn keyword_apply(rest: &str, config: &mut Config, grid: &mut Grid, targets: &mut KeywordTargets) -> (r: String)
    ensures
        ({
            let (key, v) = split_verb_spec(rest@);
            if key.len() == 0 {
                &&& r@ == "error: keyword requires <key> <value>"@
                &&& *final(config) == *old(config)
                &&& *final(grid) == *old(grid)
                &&& *final(targets) == *old(targets)
            } else {
                &&& r@ == "ok"@
                &&& *final(config) == keyword_config(*old(config), key, v)
                &&& final(grid).keyword_grid(old(grid), final(config), key, v)
                &&& keyword_targets(final(targets), old(targets), key, v)
            }
        }),
{
    let (key, value) = split_verb(rest);
    if key.unicode_len() == 0 {
        return String::from_str("error: keyword requires <key> <value>");
    }
    let k = keyword_key(key);
    apply_to_config(k, value, config);
    apply_to_grid(k, value, config, grid);
    apply_to_targets(k, value, targets);
    String::from_str("ok")
}

} // verus!
