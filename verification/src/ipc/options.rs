//! Answers to `getoption`, `animations`, `shaders`, `version`,
//! `cheatsheet` and the session queries.
use vstd::prelude::*;
use vstd::string::StrSliceExecFns;

use super::queries::{join_strings, joined, json_or, push_bool, push_json_or};
use super::window_info::{esc_quotes, push_escaped};
use crate::config::types::{Config, ConflictPolicy, FocusOnClosePolicy, FollowMouse};
use crate::dispatch::DispatchState;
use crate::text::{bool_text, dec, dec_signed, push_dec, push_signed, str_eq, trim, trimmed, views};
use crate::toplevel::opt_view;

verus! {

// ─── getoption ───────────────────────────────────────────────────────────────

pub open spec fn follow_mouse_text(f: FollowMouse) -> Seq<char> {
    match f {
        FollowMouse::Off => "off"@,
        FollowMouse::Loose => "loose"@,
        FollowMouse::Strict => "strict"@,
    }
}

pub open spec fn focus_on_close_text(f: FocusOnClosePolicy) -> Seq<char> {
    match f {
        FocusOnClosePolicy::LastFocused => "lastfocused"@,
        FocusOnClosePolicy::StackNext => "stacknext"@,
        FocusOnClosePolicy::SlotNeighbor => "slotneighbor"@,
        FocusOnClosePolicy::NoFocus => "none"@,
    }
}

pub open spec fn conflict_text(p: ConflictPolicy) -> Seq<char> {
    match p {
        ConflictPolicy::Stack => "stack"@,
        ConflictPolicy::Swap => "swap"@,
        ConflictPolicy::KickToFloating => "kicktofloating"@,
    }
}

fn follow_mouse_str(f: FollowMouse) -> (r: &'static str)
    ensures
        r@ == follow_mouse_text(f),
{
    match f {
        FollowMouse::Off => "off",
        FollowMouse::Loose => "loose",
        FollowMouse::Strict => "strict",
    }
}

fn focus_on_close_str(f: FocusOnClosePolicy) -> (r: &'static str)
    ensures
        r@ == focus_on_close_text(f),
{
    match f {
        FocusOnClosePolicy::LastFocused => "lastfocused",
        FocusOnClosePolicy::StackNext => "stacknext",
        FocusOnClosePolicy::SlotNeighbor => "slotneighbor",
        FocusOnClosePolicy::NoFocus => "none",
    }
}

fn conflict_str(p: ConflictPolicy) -> (r: &'static str)
    ensures
        r@ == conflict_text(p),
{
    match p {
        ConflictPolicy::Stack => "stack",
        ConflictPolicy::Swap => "swap",
        ConflictPolicy::KickToFloating => "kicktofloating",
    }
}

/// The options of the configuration and input sections.
pub open spec fn option_value_a(key: Seq<char>, c: Config) -> Option<Seq<char>> {
    if key == "animations.open_duration_ms"@ {
        Some(dec(c.animations.open_duration_ms as nat))
    } else if key == "input.follow_mouse"@ {
        Some(follow_mouse_text(c.input.follow_mouse))
    } else if key == "input.cross_workspace_focus"@ {
        Some(bool_text(c.input.cross_workspace_focus))
    } else if key == "gaps.windows.inner_px"@ {
        Some(dec_signed(c.theme.gaps.windows.inner_px as int))
    } else if key == "gaps.windows.outer_px"@ {
        Some(dec_signed(c.theme.gaps.windows.outer_px as int))
    } else if key == "theme.osd.enabled"@ {
        Some(bool_text(c.theme.osd.enabled))
    } else if key == "theme.osd.duration_ms"@ {
        Some(dec(c.theme.osd.duration_ms as nat))
    } else if key == "input.warp_cursor_on_focus_change"@ {
        Some(bool_text(c.input.warp_cursor_on_focus_change))
    } else if key == "input.warp_cursor_on_workspace_change"@ {
        Some(bool_text(c.input.warp_cursor_on_workspace_change))
    } else if key == "input.pointer_constraint_break_key"@ {
        Some(c.input.pointer_constraint_break_key@)
    } else if key == "fullscreen.performance_on_total_fullscreen"@ {
        Some(bool_text(c.fullscreen.performance_on_total_fullscreen))
    } else if key == "animations.close_duration_ms"@ {
        Some(dec(c.animations.close_duration_ms as nat))
    } else if key == "input.natural_scroll"@ {
        Some(bool_text(c.input.natural_scroll))
    } else if key == "input.tap_to_click"@ {
        Some(bool_text(c.input.tap_to_click))
    } else if key == "input.disable_while_typing"@ {
        Some(bool_text(c.input.touchpad.disable_while_typing))
    } else {
        None
    }
}

/// The options of the window section and of the running state.
pub open spec fn option_value_b(key: Seq<char>, c: Config, st: DispatchState, safe_mode: bool, version: Seq<char>) -> Option<
    Seq<char>,
> {
    if key == "grid.cols"@ {
        Some(dec(st.grid.cols as nat))
    } else if key == "grid.rows"@ {
        Some(dec(st.grid.rows as nat))
    } else if key == "debug.overlay"@ {
        Some(bool_text(st.debug_overlay))
    } else if key == "shaders.screen"@ {
        Some(
            match opt_view(st.screen_shader) {
                Some(s) => s,
                None => Seq::empty(),
            },
        )
    } else if key == "windows.focus_on_close"@ {
        Some(focus_on_close_text(c.windows.focus_on_close))
    } else if key == "windows.new_window.same_app"@ {
        Some(c.windows.new_window.same_app@)
    } else if key == "windows.new_window.focus_steal_prevention"@ {
        Some(bool_text(c.windows.new_window.focus_steal_prevention))
    } else if key == "safe_mode"@ {
        Some(bool_text(safe_mode))
    } else if key == "version"@ {
        Some(version)
    } else if key == "grid.workspace_sync"@ {
        Some(
            if st.workspace_synced {
                "synced"@
            } else {
                "unsynced"@
            },
        )
    } else if key == "grid.wrap_x"@ {
        Some(bool_text(st.grid.wrap_x))
    } else if key == "grid.wrap_y"@ {
        Some(bool_text(st.grid.wrap_y))
    } else if key == "windows.on_slot_conflict"@ {
        Some(conflict_text(c.windows.on_slot_conflict))
    } else if key == "windows.slot_adaptation"@ {
        Some(bool_text(c.windows.slot_adaptation))
    } else {
        None
    }
}

/// The value of option `key` as text, None for an unknown option.
pub open spec fn option_value(key: Seq<char>, c: Config, st: DispatchState, safe_mode: bool, version: Seq<char>) -> Option<
    Seq<char>,
> {
    match option_value_a(key, c) {
        Some(v) => Some(v),
        None => option_value_b(key, c, st, safe_mode, version),
    }
}

fn bool_string(b: bool) -> (r: String)
    ensures
        r@ == bool_text(b),
{
    let mut s = String::new();
    push_bool(&mut s, b);
    assert(s@ =~= bool_text(b));
    s
}

fn dec_text(n: u64) -> (r: String)
    ensures
        r@ == dec(n as nat),
{
    let mut s = String::new();
    push_dec(&mut s, n);
    assert(s@ =~= dec(n as nat));
    s
}

fn signed_text(n: i32) -> (r: String)
    ensures
        r@ == dec_signed(n as int),
{
    let mut s = String::new();
    push_signed(&mut s, n);
    assert(s@ =~= dec_signed(n as int));
    s
}

#[verifier::spinoff_prover]
fn option_a(key: &str, c: &Config) -> (r: Option<String>)
    ensures
        opt_view(r) == option_value_a(key@, *c),
{
    if str_eq(key, "animations.open_duration_ms") {
        Some(dec_text(c.animations.open_duration_ms as u64))
    } else if str_eq(key, "input.follow_mouse") {
        Some(String::from_str(follow_mouse_str(c.input.follow_mouse)))
    } else if str_eq(key, "input.cross_workspace_focus") {
        Some(bool_string(c.input.cross_workspace_focus))
    } else if str_eq(key, "gaps.windows.inner_px") {
        Some(signed_text(c.theme.gaps.windows.inner_px))
    } else if str_eq(key, "gaps.windows.outer_px") {
        Some(signed_text(c.theme.gaps.windows.outer_px))
    } else if str_eq(key, "theme.osd.enabled") {
        Some(bool_string(c.theme.osd.enabled))
    } else if str_eq(key, "theme.osd.duration_ms") {
        Some(dec_text(c.theme.osd.duration_ms))
    } else if str_eq(key, "input.warp_cursor_on_focus_change") {
        Some(bool_string(c.input.warp_cursor_on_focus_change))
    } else if str_eq(key, "input.warp_cursor_on_workspace_change") {
        Some(bool_string(c.input.warp_cursor_on_workspace_change))
    } else if str_eq(key, "input.pointer_constraint_break_key") {
        Some(String::from_str(c.input.pointer_constraint_break_key.as_str()))
    } else if str_eq(key, "fullscreen.performance_on_total_fullscreen") {
        Some(bool_string(c.fullscreen.performance_on_total_fullscreen))
    } else if str_eq(key, "animations.close_duration_ms") {
        Some(dec_text(c.animations.close_duration_ms as u64))
    } else if str_eq(key, "input.natural_scroll") {
        Some(bool_string(c.input.natural_scroll))
    } else if str_eq(key, "input.tap_to_click") {
        Some(bool_string(c.input.tap_to_click))
    } else if str_eq(key, "input.disable_while_typing") {
        Some(bool_string(c.input.touchpad.disable_while_typing))
    } else {
        None
    }
}

#[verifier::spinoff_prover]
fn option_b(key: &str, c: &Config, st: &DispatchState, safe_mode: bool, version: &str) -> (r: Option<String>)
    ensures
        opt_view(r) == option_value_b(key@, *c, *st, safe_mode, version@),
{
    if str_eq(key, "grid.cols") {
        Some(dec_text(st.grid.cols as u64))
    } else if str_eq(key, "grid.rows") {
        Some(dec_text(st.grid.rows as u64))
    } else if str_eq(key, "debug.overlay") {
        Some(bool_string(st.debug_overlay))
    } else if str_eq(key, "shaders.screen") {
        match &st.screen_shader {
            Some(s) => Some(String::from_str(s.as_str())),
            None => Some(String::new()),
        }
    } else if str_eq(key, "windows.focus_on_close") {
        Some(String::from_str(focus_on_close_str(c.windows.focus_on_close)))
    } else if str_eq(key, "windows.new_window.same_app") {
        Some(String::from_str(c.windows.new_window.same_app.as_str()))
    } else if str_eq(key, "windows.new_window.focus_steal_prevention") {
        Some(bool_string(c.windows.new_window.focus_steal_prevention))
    } else if str_eq(key, "safe_mode") {
        Some(bool_string(safe_mode))
    } else if str_eq(key, "version") {
        Some(String::from_str(version))
    } else if str_eq(key, "grid.workspace_sync") {
        Some(String::from_str(if st.workspace_synced { "synced" } else { "unsynced" }))
    } else if str_eq(key, "grid.wrap_x") {
        Some(bool_string(st.grid.wrap_x()))
    } else if str_eq(key, "grid.wrap_y") {
        Some(bool_string(st.grid.wrap_y()))
    } else if str_eq(key, "windows.on_slot_conflict") {
        Some(String::from_str(conflict_str(c.windows.on_slot_conflict)))
    } else if str_eq(key, "windows.slot_adaptation") {
        Some(bool_string(c.windows.slot_adaptation))
    } else {
        None
    }
}

/// The answer to `getoption <rest>`: the option and its value, or an error
/// for an unknown option.
pub open spec fn getoption_text(rest: Seq<char>, json: bool, c: Config, st: DispatchState, safe_mode: bool, version: Seq<
    char,
>) -> Seq<char> {
    let key = trimmed(rest);
    match option_value(key, c, st, safe_mode, version) {
        None => "error: unknown option '"@ + key + "'"@,
        Some(v) => if json {
            "{\"option\":\""@ + key + "\",\"value\":\""@ + esc_quotes(v) + "\"}"@
        } else {
            key + "="@ + v
        },
    }
}

/// Answer `getoption <rest>`; `safe_mode` and `version` come from the
/// running compositor.
#[verifier::spinoff_prover]
pub fn getoption(rest: &str, json: bool, c: &Config, st: &DispatchState, safe_mode: bool, version: &str) -> (r: String)
    ensures
        r@ == getoption_text(rest@, json, *c, *st, safe_mode, version@),
{
    let key = trim(rest);
    let value = match option_a(key, c) {
        Some(v) => v,
        None => match option_b(key, c, st, safe_mode, version) {
            Some(v) => v,
            None => {
                let mut s = String::new();
                s.append("error: unknown option '");
                s.append(key);
                s.append("'");
                assert(s@ =~= getoption_text(rest@, json, *c, *st, safe_mode, version@));
                return s;
            },
        },
    };
    let mut s = String::new();
    if json {
        s.append("{\"option\":\"");
        s.append(key);
        s.append("\",\"value\":\"");
        push_escaped(&mut s, value.as_str());
        s.append("\"}");
    } else {
        s.append(key);
        s.append("=");
        s.append(value.as_str());
    }
    assert(s@ =~= getoption_text(rest@, json, *c, *st, safe_mode, version@));
    s
}

// ─── animations / shaders / version ──────────────────────────────────────────

/// The answer to `animations`.
pub open spec fn animations_text(json: bool, open_ms: u32) -> Seq<char> {
    if json {
        "{\"open_duration_ms\":"@ + dec(open_ms as nat) + "}"@
    } else {
        "open_duration_ms="@ + dec(open_ms as nat)
    }
}

/// Answer `animations`.
pub fn animations_info(json: bool, c: &Config) -> (r: String)
    ensures
        r@ == animations_text(json, c.animations.open_duration_ms),
{
    let mut s = String::new();
    if json {
        s.append("{\"open_duration_ms\":");
        push_dec(&mut s, c.animations.open_duration_ms as u64);
        s.append("}");
    } else {
        s.append("open_duration_ms=");
        push_dec(&mut s, c.animations.open_duration_ms as u64);
    }
    assert(s@ =~= animations_text(json, c.animations.open_duration_ms));
    s
}

/// The answer to `shaders`: the screen shader (empty when none).
pub open spec fn shaders_text(json: bool, screen: Seq<char>) -> Seq<char> {
    if json {
        "[{\"category\":\"screen\",\"path\":"@ + json_or(screen, Seq::empty()) + "}]"@
    } else if screen.len() == 0 {
        "screen: (none)"@
    } else {
        "screen: "@ + screen
    }
}

/// Answer `shaders`.
pub fn shaders(json: bool, screen_shader: &Option<String>) -> (r: String)
    ensures
        r@ == shaders_text(
            json,
            match opt_view(*screen_shader) {
                Some(s) => s,
                None => Seq::empty(),
            },
        ),
{
    let screen: &str = match screen_shader {
        Some(s) => s.as_str(),
        None => "",
    };
    proof {
        reveal_strlit("");
        assert(""@ =~= Seq::<char>::empty());
        assert(screen@ =~= match opt_view(*screen_shader) {
            Some(s) => s,
            None => Seq::empty(),
        });
    }
    let mut s = String::new();
    if json {
        s.append("[{\"category\":\"screen\",\"path\":");
        push_json_or(&mut s, screen, "");
        s.append("}]");
    } else if screen.unicode_len() == 0 {
        s.append("screen: (none)");
    } else {
        s.append("screen: ");
        s.append(screen);
    }
    assert(s@ =~= shaders_text(json, screen@));
    s
}

/// The answer to `version`.
pub open spec fn version_text(json: bool, v: Seq<char>) -> Seq<char> {
    if json {
        "{\"version\":\""@ + v + "\",\"commit\":\"\",\"branch\":\"main\"}"@
    } else {
        "GriddyWM v"@ + v
    }
}

/// Answer `version`, for version string `v`.
pub fn version(json: bool, v: &str) -> (r: String)
    ensures
        r@ == version_text(json, v@),
{
    let mut s = String::new();
    if json {
        s.append("{\"version\":\"");
        s.append(v);
        s.append("\",\"commit\":\"\",\"branch\":\"main\"}");
    } else {
        s.append("GriddyWM v");
        s.append(v);
    }
    assert(s@ =~= version_text(json, v@));
    s
}

// ─── session ─────────────────────────────────────────────────────────────────

/// The answer to `session status`.
pub open spec fn session_status_text(json: bool, pending: nat, safe_mode: bool) -> Seq<char> {
    if json {
        "{\"pending_restores\":"@ + dec(pending) + ",\"safe_mode\":"@ + bool_text(safe_mode) + "}"@
    } else {
        "pending_restores="@ + dec(pending) + " safe_mode="@ + bool_text(safe_mode)
    }
}

/// Answer `session status`: `pending` saved windows wait to be restored.
pub fn session_status(json: bool, pending: usize, safe_mode: bool) -> (r: String)
    ensures
        r@ == session_status_text(json, pending as nat, safe_mode),
{
    let mut s = String::new();
    if json {
        s.append("{\"pending_restores\":");
        push_dec(&mut s, pending as u64);
        s.append(",\"safe_mode\":");
        push_bool(&mut s, safe_mode);
        s.append("}");
    } else {
        s.append("pending_restores=");
        push_dec(&mut s, pending as u64);
        s.append(" safe_mode=");
        push_bool(&mut s, safe_mode);
    }
    assert(s@ =~= session_status_text(json, pending as nat, safe_mode));
    s
}

/// The answer to `session restore` after `n` saved windows were loaded.
pub open spec fn session_loaded_text(json: bool, n: nat) -> Seq<char> {
    if json {
        "{\"windows_loaded\":"@ + dec(n) + "}"@
    } else {
        "loaded "@ + dec(n) + " window entries"@
    }
}

/// Answer `session restore`.
pub fn session_loaded(json: bool, n: usize) -> (r: String)
    ensures
        r@ == session_loaded_text(json, n as nat),
{
    let mut s = String::new();
    if json {
        s.append("{\"windows_loaded\":");
        push_dec(&mut s, n as u64);
        s.append("}");
    } else {
        s.append("loaded ");
        push_dec(&mut s, n as u64);
        s.append(" window entries");
    }
    assert(s@ =~= session_loaded_text(json, n as nat));
    s
}

} // verus!
