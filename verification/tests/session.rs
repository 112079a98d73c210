use griddy::config::types::Config;
use griddy::grid::window::{Slot, WindowState};
use griddy::grid::{Grid, PlacementHints};
use griddy::session::{SessionState, SessionWindow};

fn make_state(entries: Vec<(&str, &str, u8, u8)>) -> SessionState {
    SessionState {
        version: 1,
        windows: entries
            .into_iter()
            .map(|(app_id, title, col, row)| SessionWindow {
                app_id: app_id.into(),
                title: title.into(),
                slot: Some("HalfLeft".into()),
                state: "Tiled".into(),
                workspace_col: col,
                workspace_row: row,
            })
            .collect(),
    }
}

#[test]
fn take_hint_exact_match() {
    let mut s = make_state(vec![("kitty", "Terminal", 0, 0), ("firefox", "Browser", 1, 0)]);
    let h = s.take_hint("kitty", "Terminal").unwrap();
    assert_eq!(h.workspace_col, 0);
    assert_eq!(s.windows.len(), 1);
}

#[test]
fn take_hint_app_id_fallback() {
    let mut s = make_state(vec![("kitty", "Terminal", 0, 0)]);
    let h = s.take_hint("kitty", "Other Title").unwrap();
    assert_eq!(h.workspace_col, 0);
}

#[test]
fn take_hint_no_match() {
    let mut s = make_state(vec![("kitty", "Terminal", 0, 0)]);
    assert!(s.take_hint("firefox", "Browser").is_none());
}

#[test]
fn take_hint_prefers_exact_over_appid() {
    let mut s = make_state(vec![("kitty", "Terminal A", 0, 0), ("kitty", "Terminal B", 1, 0)]);
    let h = s.take_hint("kitty", "Terminal B").unwrap();
    assert_eq!(h.workspace_col, 1);
}

#[test]
fn take_hint_consumed_only_once() {
    let mut s = make_state(vec![("kitty", "Terminal", 0, 0)]);
    let first = s.take_hint("kitty", "Terminal");
    let second = s.take_hint("kitty", "Terminal");
    assert!(first.is_some());
    assert!(second.is_none());
}

// Each entry is handed out once: n windows of one app take the n entries
// in order, then nothing.
#[test]
fn take_hint_each_entry_once() {
    let mut s = make_state(vec![("a", "x", 0, 0), ("b", "y", 1, 1), ("a", "z", 2, 0)]);
    assert_eq!(s.take_hint("a", "q").unwrap().title, "x");
    assert_eq!(s.take_hint("a", "q").unwrap().title, "z");
    assert!(s.take_hint("a", "q").is_none());
    assert_eq!(s.windows.len(), 1);
    assert_eq!(s.windows[0].app_id, "b");
    assert_eq!(s.version, 1);
}

#[test]
fn session_from_grid_skips_swallowed_and_special() {
    let mut cfg = Config::default();
    cfg.grid.cols = 2;
    cfg.grid.rows = 2;
    let mut g = Grid::new(&cfg, 1920, 1080);
    let mut h = PlacementHints::default();
    h.workspace = Some((1, 0));
    h.slot = Some(Slot::HalfRight);
    h.state = Some(WindowState::Tiled);
    let a = g.add_window(h).id;
    g.update_window_metadata(a, "kitty".into(), "Terminal".into());
    let mut f = PlacementHints::default();
    f.state = Some(WindowState::Floating);
    let b = g.add_window(f).id;
    g.update_window_metadata(b, "pavucontrol".into(), "Volume".into());
    let s = SessionState::from_grid(&g);
    assert_eq!(s.version, 1);
    assert_eq!(s.windows.len(), 2);
    assert_eq!(s.windows[0].app_id, "kitty");
    assert_eq!(s.windows[0].slot.as_deref(), Some("HalfRight"));
    assert_eq!(s.windows[0].state, "Tiled");
    assert_eq!((s.windows[0].workspace_col, s.windows[0].workspace_row), (1, 0));
    assert_eq!(s.windows[1].state, "Floating");
    // A window moved to the special workspace is not saved.
    g.focused_window = Some(b);
    g.detach_window_to_special(b);
    let s = SessionState::from_grid(&g);
    assert_eq!(s.windows.len(), 1);
}
