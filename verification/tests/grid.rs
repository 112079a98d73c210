use griddy::config::types::Config;
use griddy::grid::window::Slot;
use griddy::grid::{FocusDirection, Grid};

fn make_grid(cols: u8, rows: u8) -> Grid {
    let mut cfg = Config::default();
    cfg.grid.cols = cols;
    cfg.grid.rows = rows;
    Grid::new(&cfg, 1920, 1080)
}

#[test]
fn resize_grid_grows() {
    let mut g = make_grid(3, 3);
    assert_eq!((g.cols, g.rows), (3, 3));
    let (old_c, old_r) = g.resize_grid(4, 4);
    assert_eq!((old_c, old_r), (3, 3));
    assert_eq!((g.cols, g.rows), (4, 4));
}

#[test]
fn resize_grid_shrinks_and_clamps_focus() {
    let mut g = make_grid(3, 3);
    g.focused = (2, 2);
    g.resize_grid(2, 2);
    assert_eq!((g.cols, g.rows), (2, 2));
    assert_eq!(g.focused, (1, 1));
}

#[test]
fn resize_grid_min_1x1() {
    let mut g = make_grid(2, 2);
    g.resize_grid(0, 0);
    assert_eq!((g.cols, g.rows), (1, 1));
}

#[test]
fn slot_stack_ids_empty_slot() {
    let g = make_grid(3, 3);
    let ids = g.slot_stack_ids((0, 0), Slot::HalfLeft);
    assert!(ids.is_empty());
}

#[test]
fn workspace_has_total_fullscreen_false_for_empty() {
    let g = make_grid(3, 3);
    assert!(!g.workspace_has_total_fullscreen((0, 0)));
    assert!(!g.workspace_has_total_fullscreen((99, 99)));
}

#[test]
fn navigate_stops_at_boundary_without_wrap() {
    let mut g = make_grid(3, 3);
    g.focused = (0, 0);
    g.navigate(FocusDirection::Left);
    assert_eq!(g.focused, (0, 0), "should not move left past col=0 without wrap");
}

#[test]
fn navigate_wraps_horizontally_when_enabled() {
    let mut cfg = Config::default();
    cfg.grid.cols = 3;
    cfg.grid.rows = 3;
    cfg.grid.wrap_x = true;
    let mut g = Grid::new(&cfg, 1920, 1080);
    g.focused = (0, 1);
    g.navigate(FocusDirection::Left);
    assert_eq!(g.focused.0, 2, "should wrap left to last column");
}

#[test]
fn navigate_wraps_vertically_when_enabled() {
    let mut cfg = Config::default();
    cfg.grid.cols = 3;
    cfg.grid.rows = 3;
    cfg.grid.wrap_y = true;
    let mut g = Grid::new(&cfg, 1920, 1080);
    g.focused = (1, 0);
    g.navigate(FocusDirection::Up);
    assert_eq!(g.focused.1, 2, "should wrap up to last row");
}

#[test]
fn grid_resize_preserves_focus_within_bounds() {
    let mut g = make_grid(3, 3);
    g.focused = (1, 1);
    g.resize_grid(4, 4);
    assert_eq!(g.focused, (1, 1), "focus should be preserved when still in bounds");
}

#[test]
fn navigate_right_from_last_col_stops_without_wrap() {
    let mut g = make_grid(3, 3);
    g.focused = (2, 0);
    g.navigate(FocusDirection::Right);
    assert_eq!(g.focused, (2, 0), "should not move right past last column without wrap");
}
