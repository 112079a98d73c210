use griddy::config::types::{Config, FocusOnClosePolicy, FollowMouse, WorkspaceSyncMode};
use griddy::grid::window::{Slot, WindowState};
use griddy::grid::Grid;
use griddy::ipc::commands::{
    is_locked_blocked, json_request, keyword_apply, keyword_key, slot_name, split_verb, state_name, KeywordKey,
    KeywordTargets,
};
use griddy::ipc::events::Event;

#[test]
fn split_verb_with_space() {
    let (verb, rest) = split_verb("dispatch workspace-left");
    assert_eq!(verb, "dispatch");
    assert_eq!(rest, "workspace-left");
}

#[test]
fn split_verb_no_space() {
    let (verb, rest) = split_verb("version");
    assert_eq!(verb, "version");
    assert_eq!(rest, "");
}

#[test]
fn split_verb_multiple_words() {
    let (verb, rest) = split_verb("grid resize 4 4");
    assert_eq!(verb, "grid");
    assert_eq!(rest, "resize 4 4");
}

#[test]
fn split_verb_empty() {
    let (verb, rest) = split_verb("");
    assert_eq!(verb, "");
    assert_eq!(rest, "");
}

#[test]
fn slot_name_roundtrip() {
    assert_eq!(slot_name(Slot::HalfLeft), "HalfLeft");
    assert_eq!(slot_name(Slot::HalfRight), "HalfRight");
    assert_eq!(slot_name(Slot::QuarterTL), "QuarterTL");
    assert_eq!(slot_name(Slot::QuarterTR), "QuarterTR");
    assert_eq!(slot_name(Slot::QuarterBL), "QuarterBL");
    assert_eq!(slot_name(Slot::QuarterBR), "QuarterBR");
}

#[test]
fn state_name_roundtrip() {
    assert_eq!(state_name(WindowState::Tiled), "Tiled");
    assert_eq!(state_name(WindowState::Floating), "Floating");
    assert_eq!(state_name(WindowState::Fullscreen), "Fullscreen");
    assert_eq!(state_name(WindowState::TotalFullscreen), "TotalFullscreen");
}

// The rest after the first space is trimmed (through `str::trim`).
#[test]
fn split_verb_trims_the_rest() {
    let (verb, rest) = split_verb("keyword   a.b   1  ");
    assert_eq!(verb, "keyword");
    assert_eq!(rest, "a.b   1");
    let (verb, rest) = split_verb(" x");
    assert_eq!(verb, "");
    assert_eq!(rest, "x");
}

#[test]
fn locked_verbs() {
    for v in ["kill", "dispatch", "reload", "keyword", "setprop", "notify", "plugin"] {
        assert!(is_locked_blocked(v));
    }
    for v in ["version", "windows", "grid", "session", ""] {
        assert!(!is_locked_blocked(v));
    }
}

#[test]
fn json_prefix() {
    assert_eq!(json_request("j/windows"), (true, "windows"));
    assert_eq!(json_request("windows"), (false, "windows"));
    assert_eq!(json_request("j"), (false, "j"));
}

fn targets() -> KeywordTargets {
    KeywordTargets { debug_overlay: false, screen_shader: None, workspace_synced: false, events: Vec::new() }
}

fn setup() -> (Config, Grid, KeywordTargets) {
    let cfg = Config::default();
    let g = Grid::new(&cfg, 1920, 1080);
    (cfg, g, targets())
}

#[test]
fn keyword_requires_a_key() {
    let (mut c, mut g, mut t) = setup();
    assert_eq!(keyword_apply("", &mut c, &mut g, &mut t), "error: keyword requires <key> <value>");
    assert_eq!(keyword_apply("unknown.key 5", &mut c, &mut g, &mut t), "ok");
}

#[test]
fn keyword_numbers() {
    let (mut c, mut g, mut t) = setup();
    assert_eq!(keyword_apply("animations.open_duration_ms 250", &mut c, &mut g, &mut t), "ok");
    assert_eq!(c.animations.open_duration_ms, 250);
    // A value that does not parse leaves the field.
    keyword_apply("animations.open_duration_ms fast", &mut c, &mut g, &mut t);
    assert_eq!(c.animations.open_duration_ms, 250);
    keyword_apply("general.gaps_in -3", &mut c, &mut g, &mut t);
    assert_eq!(c.theme.gaps.windows.inner_px, -3);
    assert_eq!(g.inner_gap_px, -3);
    keyword_apply("gaps.windows.outer_px +7", &mut c, &mut g, &mut t);
    assert_eq!(c.theme.gaps.windows.outer_px, 7);
    assert_eq!(g.outer_gap_px, 7);
    keyword_apply("theme.osd.duration_ms 18446744073709551615", &mut c, &mut g, &mut t);
    assert_eq!(c.theme.osd.duration_ms, u64::MAX);
}

#[test]
fn keyword_booleans_and_enums() {
    let (mut c, mut g, mut t) = setup();
    keyword_apply("input.cross_workspace_focus false", &mut c, &mut g, &mut t);
    assert!(!c.input.cross_workspace_focus);
    assert!(!g.cross_workspace_focus);
    // A boolean that does not parse takes the key's default.
    keyword_apply("input.cross_workspace_focus maybe", &mut c, &mut g, &mut t);
    assert!(c.input.cross_workspace_focus);
    keyword_apply("input.follow_mouse strict", &mut c, &mut g, &mut t);
    assert_eq!(c.input.follow_mouse, FollowMouse::Strict);
    keyword_apply("input.follow_mouse whatever", &mut c, &mut g, &mut t);
    assert_eq!(c.input.follow_mouse, FollowMouse::Loose);
    keyword_apply("windows.focus_on_close none", &mut c, &mut g, &mut t);
    assert_eq!(c.windows.focus_on_close, FocusOnClosePolicy::NoFocus);
    keyword_apply("animations.enabled false", &mut c, &mut g, &mut t);
    assert_eq!((c.animations.open_duration_ms, c.animations.close_duration_ms), (0, 0));
}

#[test]
fn keyword_other_state() {
    let (mut c, mut g, mut t) = setup();
    keyword_apply("debug.overlay true", &mut c, &mut g, &mut t);
    assert!(t.debug_overlay);
    keyword_apply("shaders.screen /tmp/s.glsl", &mut c, &mut g, &mut t);
    assert_eq!(t.screen_shader.as_deref(), Some("/tmp/s.glsl"));
    keyword_apply("shaders.screen clear", &mut c, &mut g, &mut t);
    assert_eq!(t.screen_shader, None);
    keyword_apply("grid.workspace_sync synced", &mut c, &mut g, &mut t);
    assert!(t.workspace_synced);
    assert_eq!(c.grid.workspace_sync, WorkspaceSyncMode::Synced);
    assert_eq!(t.events.len(), 1);
    assert!(matches!(t.events[0], Event::WorkspaceSyncChanged { synced: true }));
    keyword_apply("grid.wrap_x true", &mut c, &mut g, &mut t);
    assert!(c.grid.wrap_x);
    assert!(g.wrap_x);
}

#[test]
fn keyword_key_names() {
    assert_eq!(keyword_key("general.gaps_in"), Some(KeywordKey::InnerGap));
    assert_eq!(keyword_key("gaps.windows.inner_px"), Some(KeywordKey::InnerGap));
    assert_eq!(keyword_key("touchpad.disable_while_typing"), Some(KeywordKey::DisableWhileTyping));
    assert_eq!(keyword_key("grid.wrap"), None);
}
