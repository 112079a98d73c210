use griddy::config::templates::{TemplateConfig, TemplateWindowConfig};
use griddy::config::types::Config;
use griddy::dispatch::run::{action_allowed, dispatch};
use griddy::dispatch::{DispatchConfig, DispatchState, Effect};
use griddy::grid::window::{Slot, WindowState};
use griddy::grid::{Grid, PlacementHints};
use griddy::ipc::events::Event;
use griddy::keybind::action::Action;

fn cfg() -> DispatchConfig {
    DispatchConfig {
        submaps: vec!["resize".to_string()],
        warp_on_focus_change: false,
        warp_on_workspace_change: false,
        performance_on_total_fullscreen: false,
        templates: Vec::new(),
    }
}

fn state(cols: u8, rows: u8) -> DispatchState {
    let mut c = Config::default();
    c.grid.cols = cols;
    c.grid.rows = rows;
    let grid = Grid::new(&c, 1920, 1080);
    DispatchState {
        overview_focused: grid.focused,
        grid,
        debug_overlay: false,
        workspace_synced: false,
        minimap_visible: false,
        is_overview: false,
        is_overview_peeking: false,
        is_stack_peeking: false,
        overview_window_idx: 0,
        overview_grabbed_window: None,
        overview_grab_origin: None,
        active_submap: None,
        spawn_hint: None,
        screen_shader: None,
        active_special: None,
        special_workspaces: Vec::new(),
        applied_templates: Vec::new(),
        events: Vec::new(),
    }
}

fn run(st: &mut DispatchState, a: Action, c: &DispatchConfig) -> (bool, Vec<Effect>) {
    assert!(action_allowed(&a, st));
    dispatch(a, st, c)
}

#[test]
fn quit_and_exec() {
    let mut st = state(2, 2);
    let c = cfg();
    let (quit, fx) = run(&mut st, Action::Quit, &c);
    assert!(quit && fx.is_empty());
    let (quit, fx) = run(&mut st, Action::Exec("kitty".into()), &c);
    assert!(!quit);
    assert!(matches!(&fx[..], [Effect::Exec(s)] if s == "kitty"));
}

#[test]
fn workspace_move_reports_and_slides() {
    let mut st = state(3, 3);
    let c = cfg();
    assert_eq!(st.grid.focused, (1, 1));
    let (_, fx) = run(&mut st, Action::WorkspaceRight, &c);
    assert_eq!(st.grid.focused, (2, 1));
    assert!(matches!(st.events.last(), Some(Event::WorkspaceChanged { col: 2, row: 1 })));
    assert!(matches!(fx[0], Effect::Slide { from: (1, 1) }));
    assert!(matches!(fx[1], Effect::FocusKeyboard));
    // At the edge, nothing moves and no slide is asked for.
    let (_, fx) = run(&mut st, Action::WorkspaceRight, &c);
    assert_eq!(st.grid.focused, (2, 1));
    assert!(matches!(fx[0], Effect::FocusKeyboard));
    run(&mut st, Action::WorkspaceBack, &c);
    assert_eq!(st.grid.focused, (1, 1));
}

#[test]
fn diagonal_and_index() {
    let mut st = state(3, 3);
    let c = cfg();
    run(&mut st, Action::WorkspaceNW, &c);
    assert_eq!(st.grid.focused, (0, 0));
    run(&mut st, Action::WorkspaceNW, &c);
    assert_eq!(st.grid.focused, (0, 0));
    run(&mut st, Action::WorkspaceIndex(6), &c);
    assert_eq!(st.grid.focused, (2, 1));
    run(&mut st, Action::WorkspaceTo(0, 2), &c);
    assert_eq!(st.grid.focused, (0, 2));
    assert!(!action_allowed(&Action::WorkspaceTo(9, 9), &st));
}

#[test]
fn toggles_and_sync() {
    let mut st = state(2, 2);
    let c = cfg();
    run(&mut st, Action::WorkspaceSync, &c);
    assert!(st.workspace_synced);
    assert!(matches!(st.events.last(), Some(Event::WorkspaceSyncChanged { synced: true })));
    run(&mut st, Action::MinimapToggle, &c);
    assert!(st.minimap_visible);
    run(&mut st, Action::DebugOverlayToggle, &c);
    assert!(st.debug_overlay);
}

#[test]
fn submap_enter_and_leave() {
    let mut st = state(2, 2);
    let c = cfg();
    let (_, fx) = run(&mut st, Action::Submap("resize".into()), &c);
    assert_eq!(st.active_submap.as_deref(), Some("resize"));
    assert!(matches!(&fx[..], [Effect::ShowOsd(k)] if k == "submap"));
    run(&mut st, Action::Submap("unknown".into()), &c);
    assert_eq!(st.active_submap.as_deref(), Some("resize"));
    run(&mut st, Action::SubmapActionThenReset(Box::new(Action::MinimapToggle)), &c);
    assert_eq!(st.active_submap, None);
    assert!(st.minimap_visible);
    let (_, fx) = run(&mut st, Action::SubmapReset, &c);
    assert!(matches!(&fx[..], [Effect::HideOsd]));
}

#[test]
fn spawn_hints() {
    let mut st = state(2, 2);
    let c = cfg();
    run(&mut st, Action::SpawnInSlot(Slot::QuarterTL, "foot".into()), &c);
    assert_eq!(st.spawn_hint.as_ref().unwrap().slot, Some(Slot::QuarterTL));
    run(&mut st, Action::SpawnFloating("foot".into()), &c);
    assert_eq!(st.spawn_hint.as_ref().unwrap().state, Some(WindowState::Floating));
    assert_eq!(st.spawn_hint.as_ref().unwrap().slot, None);
    run(&mut st, Action::SpawnOnWorkspace(1, 0, "foot".into()), &c);
    assert_eq!(st.spawn_hint.as_ref().unwrap().workspace, Some((1, 0)));
}

#[test]
fn slot_and_state_events() {
    let mut st = state(2, 2);
    let c = cfg();
    let mut h = PlacementHints::default();
    h.state = Some(WindowState::Tiled);
    h.slot = Some(Slot::HalfLeft);
    let id = st.grid.add_window(h).id;
    run(&mut st, Action::SlotHalfRight, &c);
    assert!(matches!(&st.events[..], [Event::WindowStateChanged { .. }, Event::WindowSlotChanged { slot, .. }] if slot == "HalfRight"));
    run(&mut st, Action::StateFloatingToggle, &c);
    let w = st.grid.windows.iter().find(|w| w.id == id).unwrap();
    assert_eq!(w.current_state, WindowState::Floating);
    run(&mut st, Action::CenterFloating, &c);
    run(&mut st, Action::ResizeActive(-10_000, 5), &c);
    let w = st.grid.windows.iter().find(|w| w.id == id).unwrap();
    assert_eq!(w.floating_geom.w, 100);
}

#[test]
fn move_window_to_reports() {
    let mut st = state(2, 2);
    let c = cfg();
    let mut h = PlacementHints::default();
    h.state = Some(WindowState::Tiled);
    h.slot = Some(Slot::HalfLeft);
    let id = st.grid.add_window(h).id;
    let (_, fx) = run(&mut st, Action::MoveWindowTo(0, 0), &c);
    assert!(matches!(st.events.last(), Some(Event::WindowMoved { col: 0, row: 0, .. })));
    assert!(matches!(fx[0], Effect::AnimateMoves));
    let w = st.grid.windows.iter().find(|w| w.id == id).unwrap();
    assert_eq!(w.workspace, (0, 0));
}

#[test]
fn overview_cycle() {
    let mut st = state(2, 2);
    let c = cfg();
    run(&mut st, Action::OverviewToggle, &c);
    assert!(st.is_overview);
    assert!(matches!(&st.events[..], [Event::OverviewOpened, Event::ViewModeChanged { mode }] if mode == "overview"));
    run(&mut st, Action::OverviewFocusLeft, &c);
    assert_eq!(st.overview_focused, (0, 1));
    run(&mut st, Action::OverviewActivate, &c);
    assert!(!st.is_overview);
    assert_eq!(st.grid.focused, (0, 1));
}

#[test]
fn special_workspace_round_trip() {
    let mut st = state(2, 2);
    let c = cfg();
    let mut h = PlacementHints::default();
    h.state = Some(WindowState::Floating);
    let id = st.grid.add_window(h).id;
    run(&mut st, Action::MoveToSpecial("scratch".into()), &c);
    assert_eq!(st.grid.windows.iter().find(|w| w.id == id).unwrap().workspace, (255, 255));
    assert_eq!(st.special_workspaces.len(), 1);
    run(&mut st, Action::ToggleSpecial("scratch".into()), &c);
    assert_eq!(st.active_special.as_deref(), Some("scratch"));
    run(&mut st, Action::ToggleSpecial("scratch".into()), &c);
    assert_eq!(st.active_special, None);
    assert_eq!(st.grid.windows.iter().find(|w| w.id == id).unwrap().workspace, st.grid.focused);
}

#[test]
fn template_spawns_and_gathers() {
    let mut st = state(2, 2);
    let mut c = cfg();
    c.templates = vec![TemplateConfig {
        cell: [0, 0],
        name: None,
        windows: vec![
            TemplateWindowConfig { slot: "HalfLeft".into(), command: "kitty".into(), app_id: Some("kit*".into()) },
            TemplateWindowConfig { slot: "HalfRight".into(), command: "firefox".into(), app_id: None },
        ],
    }];
    let mut h = PlacementHints::default();
    h.state = Some(WindowState::Floating);
    let k = st.grid.add_window(h).id;
    st.grid.update_window_metadata(k, "kitty".into(), "t".into());
    let (_, fx) = run(&mut st, Action::WorkspaceTo(0, 0), &c);
    assert_eq!(st.applied_templates, vec![(0, 0)]);
    assert_eq!(st.grid.windows.iter().find(|w| w.id == k).unwrap().workspace, (0, 0));
    assert!(fx.iter().any(|e| matches!(e, Effect::Exec(s) if s == "firefox")));
    assert_eq!(st.spawn_hint.as_ref().unwrap().slot, Some(Slot::HalfRight));
    assert_eq!(st.spawn_hint.as_ref().unwrap().workspace, Some((0, 0)));
    // A second visit does not apply it again.
    run(&mut st, Action::WorkspaceTo(1, 1), &c);
    let (_, fx) = run(&mut st, Action::WorkspaceTo(0, 0), &c);
    assert!(!fx.iter().any(|e| matches!(e, Effect::Exec(_))));
}
