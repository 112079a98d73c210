use griddy::ipc::events::Event;

fn parse(s: &str) -> (&str, &str) {
    let s = s.strip_suffix('\n').unwrap();
    let (name, data) = s.split_once(">>").unwrap();
    (name, data)
}

#[test]
fn workspace_changed_wire() {
    let wire = Event::WorkspaceChanged { col: 1, row: 2 }.format();
    let (name, data) = parse(&wire);
    assert_eq!(name, "workspace_changed");
    assert!(data.starts_with("1,2,"));
}

#[test]
fn window_opened_wire() {
    let wire = Event::WindowOpened {
        id: 42,
        app_id: "kitty".into(),
        workspace_col: 0,
        workspace_row: 0,
        state: "tiled".into(),
        slot: "half-left".into(),
    }
    .format();
    let (name, data) = parse(&wire);
    assert_eq!(name, "window_opened");
    assert!(data.contains("42"));
    assert!(data.contains("kitty"));
}

#[test]
fn window_closed_wire() {
    let wire = Event::WindowClosed { id: 7 }.format();
    let (name, data) = parse(&wire);
    assert_eq!(name, "window_closed");
    assert_eq!(data, "7");
}

#[test]
fn overview_events_have_empty_data() {
    for ev in [Event::OverviewOpened, Event::OverviewClosed] {
        let wire = ev.format();
        let (_, data) = parse(&wire);
        assert_eq!(data, "");
    }
}

#[test]
fn plugin_error_wire() {
    let wire = Event::PluginError { name: "myplugin".into(), message: "abi mismatch".into() }.format();
    let (name, data) = parse(&wire);
    assert_eq!(name, "plugin_error");
    assert!(data.contains("myplugin"));
    assert!(data.contains("abi mismatch"));
}

#[test]
fn session_lock_unlock_wire() {
    assert_eq!(Event::SessionLocked.format(), "lock>>\n");
    assert_eq!(Event::SessionUnlocked.format(), "unlock>>\n");
}

#[test]
fn wire_always_ends_with_newline() {
    let events = vec![
        Event::WorkspaceChanged { col: 0, row: 0 },
        Event::WindowFocus { id: 1 },
        Event::SubMapChanged { name: "resize".into() },
        Event::ConfigReloaded { which: "config.toml".into() },
    ];
    for ev in events {
        assert!(ev.format().ends_with('\n'), "missing newline in {:?}", ev);
    }
}

#[test]
fn window_slot_adapted_wire() {
    let wire = Event::WindowSlotAdapted { id: 5, requested: "half-left".into(), actual: "quarter-bl".into() }.format();
    let (name, data) = parse(&wire);
    assert_eq!(name, "window_slot_adapted");
    assert!(data.contains("5"));
    assert!(data.contains("half-left"));
    assert!(data.contains("quarter-bl"));
}

#[test]
fn window_state_adapted_wire() {
    let wire = Event::WindowStateAdapted {
        id: 9,
        requested_state: "fullscreen".into(),
        actual_state: "tiled".into(),
        actual_slot: "half-right".into(),
    }
    .format();
    let (name, data) = parse(&wire);
    assert_eq!(name, "window_state_adapted");
    assert!(data.contains("9"));
    assert!(data.contains("fullscreen"));
    assert!(data.contains("half-right"));
}

#[test]
fn window_stack_reordered_wire() {
    let wire = Event::WindowStackReordered { slot: "half-left".into(), order_csv: "3,1,2".into() }.format();
    let (name, data) = parse(&wire);
    assert_eq!(name, "window_stack_reordered");
    assert!(data.starts_with("half-left,"));
    assert!(data.contains("3,1,2"));
}

#[test]
fn window_move_refused_wire() {
    let wire = Event::WindowMoveRefused { id: 7, requested_col: 2, requested_row: 1, reason: "tf-protected".into() }
        .format();
    let (name, data) = parse(&wire);
    assert_eq!(name, "window_move_refused");
    assert!(data.contains("7"));
    assert!(data.contains("tf-protected"));
}

#[test]
fn notification_daemon_missing_wire() {
    let wire = Event::NotificationDaemonMissing.format();
    let (name, _data) = parse(&wire);
    assert_eq!(name, "notification_daemon_missing");
}

#[test]
fn safe_mode_entered_wire() {
    let wire = Event::SafeModeEntered { reason: "3 crashes in 30s".into() }.format();
    let (name, data) = parse(&wire);
    assert_eq!(name, "safe_mode_entered");
    assert!(data.contains("crashes"));
}

#[test]
fn config_error_wire() {
    let wire = Event::ConfigError { message: "parse error on line 5".into() }.format();
    let (name, data) = parse(&wire);
    assert_eq!(name, "config_error");
    assert!(data.contains("parse error"));
}

#[test]
fn config_reloaded_wire() {
    let wire = Event::ConfigReloaded { which: "theme".into() }.format();
    let (name, data) = parse(&wire);
    assert_eq!(name, "config_reloaded");
    assert_eq!(data, "theme");
}

#[test]
fn wire_exact_forms() {
    assert_eq!(Event::WindowClosed { id: 0 }.format(), "window_closed>>0\n");
    assert_eq!(Event::WorkspaceChanged { col: 3, row: 10 }.format(), "workspace_changed>>3,10,winit\n");
    assert_eq!(Event::WorkspaceSyncChanged { synced: false }.format(), "workspace_sync_changed>>unsynced\n");
    assert_eq!(Event::WindowClosed { id: u64::MAX }.format(), "window_closed>>18446744073709551615\n");
    assert_eq!(Event::WindowFocus { id: 12 }.wire_name(), "window_focus");
}
