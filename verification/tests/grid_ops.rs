use griddy::config::types::Config;
use griddy::grid::window::{Slot, WindowState};
use griddy::grid::{FocusDirection, Grid, MoveDirectionResult, PlacementHints};

fn make_grid(cols: u8, rows: u8) -> Grid {
    let mut cfg = Config::default();
    cfg.grid.cols = cols;
    cfg.grid.rows = rows;
    Grid::new(&cfg, 1920, 1080)
}

fn tiled(slot: Slot) -> PlacementHints {
    let mut h = PlacementHints::default();
    h.state = Some(WindowState::Tiled);
    h.slot = Some(slot);
    h
}

fn win<'a>(g: &'a Grid, id: u64) -> &'a griddy::grid::Window {
    g.windows.iter().find(|w| w.id == id).unwrap()
}

// Law: going back right after a switch returns to the cell left and offers
// the switched-to cell for going forward; forward then redoes it.
#[test]
fn back_undoes_switch_and_forward_redoes() {
    let mut g = make_grid(3, 3);
    let start = g.focused;
    g.switch_workspace((2, 1));
    assert_eq!(g.focused, (2, 1));
    g.workspace_back();
    assert_eq!(g.focused, start);
    assert_eq!(g.forward_history.first(), Some(&(2, 1)));
    g.workspace_forward();
    assert_eq!(g.focused, (2, 1));
}

// Law: an added window is registered under a fresh id on the cell chosen.
#[test]
fn added_window_is_registered() {
    let mut g = make_grid(2, 2);
    let before = g.next_id;
    let res = g.add_window(PlacementHints::default());
    assert_eq!(res.id, before);
    assert_eq!(g.next_id, before + 1);
    let w = win(&g, res.id);
    assert_eq!(w.workspace, g.focused);
    // The first window of an empty workspace is fullscreen.
    assert_eq!(w.current_state, WindowState::Fullscreen);
    assert_eq!(g.focused_window, Some(res.id));
    let mut h = PlacementHints::default();
    h.workspace = Some((1, 1));
    h.no_focus = true;
    let res2 = g.add_window(h);
    assert!(res2.id > res.id);
    assert_eq!(win(&g, res2.id).workspace, (1, 1));
    assert_eq!(g.focused_window, Some(res.id));
}

// Law: a removed window is no longer registered.
#[test]
fn removed_window_is_gone() {
    let mut g = make_grid(2, 2);
    let a = g.add_window(tiled(Slot::HalfLeft)).id;
    let b = g.add_window(tiled(Slot::HalfRight)).id;
    g.remove_window(a);
    assert!(g.windows.iter().all(|w| w.id != a));
    assert!(g.windows.iter().any(|w| w.id == b));
    assert!(g.slot_stack_ids(g.focused, Slot::HalfLeft).is_empty());
    // Removing an unknown id changes nothing.
    let n = g.windows.len();
    g.remove_window(999);
    assert_eq!(g.windows.len(), n);
}

// Law: after a resize every window lies in the new grid or the special
// workspace, and no id changes.
#[test]
fn resize_moves_windows_inside() {
    let mut g = make_grid(3, 3);
    let mut h = tiled(Slot::HalfLeft);
    h.workspace = Some((2, 2));
    let id = g.add_window(h).id;
    g.resize_grid(2, 2);
    let w = win(&g, id);
    assert!(w.workspace.0 < 2 && w.workspace.1 < 2);
    assert_eq!(w.workspace, (1, 1));
    assert_eq!(w.current_state, WindowState::Floating);
}

#[test]
fn resize_clamps_to_sixteen() {
    let mut g = make_grid(3, 3);
    let old = g.resize_grid(40, 17);
    assert_eq!(old, (3, 3));
    assert_eq!((g.cols, g.rows), (16, 16));
}

#[test]
fn second_tiled_window_takes_a_free_slot() {
    let mut g = make_grid(2, 2);
    let a = g.add_window(tiled(Slot::HalfLeft)).id;
    let b = g.add_window(PlacementHints::default()).id;
    assert_eq!(win(&g, a).current_slot, Some(Slot::HalfLeft));
    assert_eq!(win(&g, b).current_state, WindowState::Tiled);
    assert_eq!(win(&g, b).current_slot, Some(Slot::HalfRight));
}

#[test]
fn fullscreen_then_second_window_splits() {
    let mut g = make_grid(2, 2);
    let a = g.add_window(PlacementHints::default()).id;
    let b = g.add_window(PlacementHints::default()).id;
    assert_eq!(win(&g, a).current_state, WindowState::Tiled);
    assert_eq!(win(&g, a).current_slot, Some(Slot::HalfLeft));
    assert_eq!(win(&g, b).current_slot, Some(Slot::HalfRight));
}

#[test]
fn toggle_floating_round_trip() {
    let mut g = make_grid(2, 2);
    let a = g.add_window(tiled(Slot::HalfLeft)).id;
    g.toggle_floating();
    assert_eq!(win(&g, a).current_state, WindowState::Floating);
    g.toggle_floating();
    assert_eq!(win(&g, a).current_state, WindowState::Tiled);
    assert_eq!(win(&g, a).current_slot, Some(Slot::HalfLeft));
}

#[test]
fn move_window_to_other_cell() {
    let mut g = make_grid(2, 2);
    let a = g.add_window(tiled(Slot::HalfLeft)).id;
    g.move_window_to((1, 0));
    assert_eq!(win(&g, a).workspace, (1, 0));
    assert!(g.slot_stack_ids((0, 0), Slot::HalfLeft).is_empty());
}

#[test]
fn move_window_direction_results() {
    let mut g = make_grid(2, 1);
    let mut h = tiled(Slot::HalfLeft);
    h.workspace = Some((0, 0));
    let a = g.add_window(h).id;
    let r = g.move_window_direction_ex(FocusDirection::Right);
    assert!(matches!(r, Some(MoveDirectionResult::MovedDirect { target: (1, 0) })));
    assert_eq!(win(&g, a).workspace, (1, 0));
    // Nothing above the only row without wrap.
    let r = g.move_window_direction_ex(FocusDirection::Up);
    assert!(r.is_none());
    assert_eq!(win(&g, a).workspace, (1, 0));
}

#[test]
fn stack_next_cycles_focus() {
    let mut g = make_grid(1, 1);
    let a = g.add_window(tiled(Slot::HalfLeft)).id;
    let b = g.add_window(tiled(Slot::HalfLeft)).id;
    assert_eq!(g.slot_stack_ids((0, 0), Slot::HalfLeft).len(), 2);
    assert_eq!(g.focused_window, Some(b));
    g.stack_next();
    assert_eq!(g.focused_window, Some(a));
}

#[test]
fn rename_and_read_workspace_name() {
    let mut g = make_grid(2, 2);
    assert_eq!(g.workspace_name(1, 1), "");
    g.rename_workspace(1, 1, "web".into());
    assert_eq!(g.workspace_name(1, 1), "web");
    assert_eq!(g.workspace_name(9, 9), "");
}
