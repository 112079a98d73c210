use griddy::config::types::{
    AnimationsConfig, Config, FullscreenConfig, GridConfig, IdleConfig, SessionConfig, ViewConfig, ViewMode,
    WorkspaceSyncMode,
};

#[test]
fn workspace_sync_mode_default_is_unsynced() {
    let cfg = GridConfig::default();
    assert_eq!(cfg.workspace_sync, WorkspaceSyncMode::Unsynced);
}

#[test]
fn animations_config_default_durations() {
    let cfg = AnimationsConfig::default();
    assert_eq!(cfg.open_duration_ms, 160);
    assert_eq!(cfg.close_duration_ms, 120);
    assert_eq!(cfg.on_interrupt, "snap-then-start");
}

#[test]
fn full_config_default_round_trips() {
    let cfg = Config::default();
    assert_eq!(cfg.grid.cols, 3);
    assert_eq!(cfg.grid.rows, 3);
    assert!(!cfg.grid.wrap_x);
    assert!(!cfg.grid.wrap_y);
    assert_eq!(cfg.grid.workspace_sync, WorkspaceSyncMode::Unsynced);
}

#[test]
fn fullscreen_config_defaults() {
    let cfg = FullscreenConfig::default();
    assert_eq!(cfg.total_release_key, "Escape");
    assert!(cfg.allow_tearing);
    assert!(cfg.tearing_hides_floating);
    assert!(!cfg.performance_on_total_fullscreen);
}

#[test]
fn view_config_default_mode_is_focus() {
    let cfg = ViewConfig::default();
    assert_eq!(cfg.default_mode, ViewMode::Focus);
    assert_eq!(cfg.slide_duration_ms, 220);
}

#[test]
fn session_config_defaults() {
    let cfg = SessionConfig::default();
    assert_eq!(cfg.autosave_interval_s, 60);
    assert!(cfg.restore_on_start);
}

#[test]
fn idle_config_defaults() {
    let cfg = IdleConfig::default();
    assert!(cfg.enabled);
    assert!(cfg.timeouts.is_empty());
    assert!(cfg.inhibitors.honor_app_inhibits);
}

#[test]
fn config_default_has_no_lists() {
    let cfg = Config::default();
    assert!(cfg.binds.is_empty());
    assert!(cfg.rules.is_empty());
    assert!(cfg.submaps.is_empty());
    assert!(cfg.gestures.is_empty());
    assert_eq!(cfg.terminal, "");
}
