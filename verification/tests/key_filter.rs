use griddy::config::types::{BindConfig, Config};
use griddy::dispatch::DispatchState;
use griddy::grid::Grid;
use griddy::keybind::action::Action;
use griddy::keybind::filter::{key_filter, KeyOutcome, KEY_ESCAPE, KEY_LEFT, KEY_RETURN};
use griddy::keybind::table::{BindTable, Mods, SubBindTable};

fn state() -> DispatchState {
    let c = Config::default();
    let grid = Grid::new(&c, 1920, 1080);
    DispatchState {
        overview_focused: grid.focused,
        grid,
        debug_overlay: false,
        workspace_synced: false,
        minimap_visible: false,
        is_overview: false,
        is_overview_peeking: false,
        is_stack_peeking: false,
        overview_window_idx: 0,
        overview_grabbed_window: None,
        overview_grab_origin: None,
        active_submap: None,
        spawn_hint: None,
        screen_shader: None,
        active_special: None,
        special_workspaces: Vec::new(),
        applied_templates: Vec::new(),
        events: Vec::new(),
    }
}

fn bind(mods: &[&str], key: &str, action: &str, args: &[&str], repeat: bool, passthrough: bool) -> BindConfig {
    BindConfig {
        mods: mods.iter().map(|s| s.to_string()).collect(),
        key: key.into(),
        action: action.into(),
        args: args.iter().map(|s| s.to_string()).collect(),
        description: String::new(),
        repeat,
        locked: false,
        global: false,
        passthrough,
    }
}

const SUPER: Mods = Mods { logo: true, alt: false, ctrl: false, shift: false };
const NONE: Mods = Mods { logo: false, alt: false, ctrl: false, shift: false };

fn tables() -> (BindTable, BindTable) {
    let binds = vec![
        bind(&["Super"], "Return", "exec", &["kitty"], false, false),
        bind(&["Super"], "Left", "focus-left", &[], true, false),
        bind(&["Super"], "p", "exec", &["note"], false, true),
    ];
    let binds = BindTable::from_config(&binds, &[KEY_RETURN, KEY_LEFT, 0x70]);
    let releases = BindTable::from_config(&[bind(&[], "Left", "exec", &["up"], false, false)], &[KEY_LEFT]);
    (binds, releases)
}

#[test]
fn press_repeat_and_release() {
    let (binds, releases) = tables();
    let mut st = state();
    let mut held = Vec::new();
    let subs = Vec::new();
    let r = key_filter(&mut st, &mut held, &binds, &releases, &subs, KEY_RETURN, &SUPER, true, None, false, false);
    assert!(matches!(r, KeyOutcome::Intercept(Some(Action::Exec(ref s))) if s == "kitty"));
    assert!(held.contains(&KEY_RETURN));
    // Held again without repeat allowed: the client gets it.
    let r = key_filter(&mut st, &mut held, &binds, &releases, &subs, KEY_RETURN, &SUPER, true, None, false, false);
    assert!(matches!(r, KeyOutcome::Forward));
    let r = key_filter(&mut st, &mut held, &binds, &releases, &subs, KEY_RETURN, &SUPER, false, None, false, false);
    assert!(matches!(r, KeyOutcome::Forward));
    assert!(!held.contains(&KEY_RETURN));
    // A release bind fires on release.
    let r = key_filter(&mut st, &mut held, &binds, &releases, &subs, KEY_LEFT, &NONE, false, None, false, false);
    assert!(matches!(r, KeyOutcome::Intercept(Some(Action::Exec(ref s))) if s == "up"));
    // A repeating bind fires again while held.
    key_filter(&mut st, &mut held, &binds, &releases, &subs, KEY_LEFT, &SUPER, true, None, false, false);
    let r = key_filter(&mut st, &mut held, &binds, &releases, &subs, KEY_LEFT, &SUPER, true, None, false, false);
    assert!(matches!(r, KeyOutcome::Intercept(Some(_))));
}

#[test]
fn locked_inhibited_passthrough_and_break_key() {
    let (binds, releases) = tables();
    let mut st = state();
    let mut held = Vec::new();
    let subs = Vec::new();
    let r = key_filter(&mut st, &mut held, &binds, &releases, &subs, KEY_RETURN, &SUPER, true, None, true, false);
    assert!(matches!(r, KeyOutcome::Forward));
    held.clear();
    let r = key_filter(&mut st, &mut held, &binds, &releases, &subs, KEY_RETURN, &SUPER, true, None, false, true);
    assert!(matches!(r, KeyOutcome::Forward));
    held.clear();
    let r = key_filter(&mut st, &mut held, &binds, &releases, &subs, 0x70, &SUPER, true, None, false, false);
    assert!(matches!(r, KeyOutcome::RunThenForward(Action::Exec(ref s)) if s == "note"));
    held.clear();
    let r = key_filter(&mut st, &mut held, &binds, &releases, &subs, KEY_RETURN, &SUPER, true, Some((KEY_RETURN, 1)), false, false);
    assert!(matches!(r, KeyOutcome::Intercept(None)));
    assert!(held.is_empty());
}

#[test]
fn stack_peek_and_overview_keys() {
    let (binds, releases) = tables();
    let mut st = state();
    let mut held = Vec::new();
    let subs = Vec::new();
    st.is_stack_peeking = true;
    let r = key_filter(&mut st, &mut held, &binds, &releases, &subs, KEY_LEFT, &NONE, false, None, false, false);
    assert!(matches!(r, KeyOutcome::Intercept(None)));
    assert!(!st.is_stack_peeking);
    st.is_overview = true;
    let r = key_filter(&mut st, &mut held, &binds, &releases, &subs, KEY_LEFT, &NONE, true, None, false, false);
    assert!(matches!(r, KeyOutcome::Intercept(Some(Action::OverviewFocusLeft))));
    let r = key_filter(&mut st, &mut held, &binds, &releases, &subs, KEY_ESCAPE, &NONE, true, None, false, false);
    assert!(matches!(r, KeyOutcome::Intercept(Some(Action::OverviewToggle))));
}

#[test]
fn submap_keys() {
    let (binds, releases) = tables();
    let sub = SubBindTable {
        table: BindTable::from_config(&[bind(&[], "Left", "focus-left", &[], false, false)], &[KEY_LEFT]),
        exit_syms: vec![KEY_ESCAPE],
        exit_on_unhandled: false,
        exit_after_action: true,
    };
    let subs = vec![("resize".to_string(), sub)];
    let mut st = state();
    st.active_submap = Some("resize".to_string());
    let mut held = Vec::new();
    let r = key_filter(&mut st, &mut held, &binds, &releases, &subs, KEY_ESCAPE, &NONE, true, None, false, false);
    assert!(matches!(r, KeyOutcome::Intercept(Some(Action::SubmapReset))));
    let r = key_filter(&mut st, &mut held, &binds, &releases, &subs, KEY_LEFT, &NONE, true, None, false, false);
    assert!(matches!(r, KeyOutcome::Intercept(Some(Action::SubmapActionThenReset(_)))));
    let r = key_filter(&mut st, &mut held, &binds, &releases, &subs, KEY_RETURN, &SUPER, true, None, false, false);
    assert!(matches!(r, KeyOutcome::Intercept(None)));
}
