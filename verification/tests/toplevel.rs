use griddy::config::rules::Rule;
use griddy::commit::commit_metadata;
use griddy::config::types::{Config, MinSizeOverflow};
use griddy::grid::window::{Rect, Slot, WindowState};
use griddy::grid::{Grid, PlacementHints};
use griddy::ipc::events::Event;
use griddy::session::{SessionState, SessionWindow};
use griddy::toplevel::{finish_new_window, plan_new_window};

fn grid() -> Grid {
    let mut cfg = Config::default();
    cfg.grid.cols = 2;
    cfg.grid.rows = 2;
    Grid::new(&cfg, 1920, 1080)
}

#[test]
fn plan_without_anything_is_default() {
    let g = grid();
    let mut sess = None;
    let (h, decided) = plan_new_window(&g, &Vec::new(), "kitty", "t", None, None, &mut sess, "", None, None);
    assert_eq!(decided, "default");
    assert_eq!(h.slot, None);
    assert_eq!(h.workspace, None);
}

#[test]
fn plan_rule_then_spawn_hint() {
    let g = grid();
    let mut r = Rule::default();
    r.action.slot = Some("half-right".into());
    r.action.state = Some("tiled".into());
    let mut sh = PlacementHints::default();
    sh.slot = Some(Slot::QuarterTL);
    let mut sess = None;
    let (h, decided) = plan_new_window(&g, &vec![r], "kitty", "t", Some(sh), None, &mut sess, "", Some(9), None);
    assert_eq!(decided, "rule");
    assert_eq!(h.slot, Some(Slot::QuarterTL));
    assert_eq!(h.state, Some(WindowState::Tiled));
    assert_eq!(h.pid, Some(9));
}

#[test]
fn plan_takes_session_entry() {
    let g = grid();
    let mut sess = Some(SessionState {
        version: 1,
        windows: vec![SessionWindow {
            app_id: "kitty".into(),
            title: "x".into(),
            slot: Some("QuarterBR".into()),
            state: "Tiled".into(),
            workspace_col: 1,
            workspace_row: 1,
        }],
    });
    let (h, decided) = plan_new_window(&g, &Vec::new(), "kitty", "y", None, None, &mut sess, "", None, None);
    assert_eq!(h.workspace, Some((1, 1)));
    assert_eq!(h.slot, Some(Slot::QuarterBR));
    assert_eq!(decided, "rule");
    assert!(sess.unwrap().windows.is_empty());
}

#[test]
fn plan_dialog_centers_on_parent() {
    let mut g = grid();
    let p = g.add_window(PlacementHints::default()).id;
    let parent_rect = g.compute_rect(p).unwrap();
    let mut sess = None;
    let (h, _) = plan_new_window(&g, &Vec::new(), "d", "t", None, Some(p), &mut sess, "", None, None);
    assert_eq!(h.state, Some(WindowState::Floating));
    let r = h.floating_geom.unwrap();
    assert_eq!((r.w, r.h), (600, 400));
    assert_eq!(r.x, parent_rect.x + (parent_rect.w - 600) / 2);
    assert_eq!(h.workspace, Some(g.focused));
}

#[test]
fn plan_same_app_stacks() {
    let mut g = grid();
    let mut h0 = PlacementHints::default();
    h0.state = Some(WindowState::Tiled);
    h0.slot = Some(Slot::HalfRight);
    let a = g.add_window(h0).id;
    g.update_window_metadata(a, "kitty".into(), "one".into());
    let mut sess = None;
    let (h, decided) =
        plan_new_window(&g, &Vec::new(), "kitty", "two", None, None, &mut sess, "stack-with-focused", None, None);
    assert_eq!(decided, "same_app");
    assert_eq!(h.slot, Some(Slot::HalfRight));
    let (h, decided) = plan_new_window(&g, &Vec::new(), "kitty", "two", None, None, &mut sess, "", None, None);
    assert_eq!(decided, "default");
    assert_eq!(h.slot, None);
}

#[test]
fn plan_swallows_parent_process_window() {
    let mut g = grid();
    let mut h0 = PlacementHints::default();
    h0.state = Some(WindowState::Tiled);
    h0.slot = Some(Slot::HalfLeft);
    h0.pid = Some(100);
    let term = g.add_window(h0).id;
    g.update_window_metadata(term, "foot".into(), "sh".into());
    let mut r = Rule::default();
    r.match_.app_id = Some("mpv".into());
    r.action.swallow = Some("fo*".into());
    let mut sess = None;
    let (h, _) = plan_new_window(&g, &vec![r], "mpv", "video", None, None, &mut sess, "", Some(200), Some(100));
    assert_eq!(h.swallows, Some(term));
    assert_eq!(h.slot, Some(Slot::HalfLeft));
    assert_eq!(h.pid, Some(200));
    let mut sess = None;
    let r2 = Rule::default();
    let (h, _) = plan_new_window(&g, &vec![r2], "mpv", "video", None, None, &mut sess, "", Some(200), Some(100));
    assert_eq!(h.swallows, None);
}

#[test]
fn finish_emits_events_and_blocks_steal() {
    let mut g = grid();
    let first = g.add_window(PlacementHints::default()).id;
    let prev = g.focused_window;
    assert_eq!(prev, Some(first));
    let res = g.add_window(PlacementHints::default());
    let events = finish_new_window(&mut g, &res, "kitty", "Term", "default", true, prev, false);
    assert!(matches!(&events[0], Event::WindowOpened { app_id, .. } if app_id == "kitty"));
    assert!(matches!(&events[1], Event::WindowPlaced { policy_matched, .. } if policy_matched == "default"));
    assert!(matches!(events.last(), Some(Event::Urgent { id }) if *id == res.id));
    assert_eq!(g.focused_window, Some(first));
    let w = g.windows.iter().find(|w| w.id == res.id).unwrap();
    assert!(w.is_urgent);
    assert_eq!(w.title, "Term");
}

#[test]
fn finish_without_prevention_keeps_focus() {
    let mut g = grid();
    let first = g.add_window(PlacementHints::default()).id;
    let res = g.add_window(PlacementHints::default());
    let events = finish_new_window(&mut g, &res, "a", "b", "rule", false, Some(first), false);
    assert_eq!(g.focused_window, Some(res.id));
    assert!(events.iter().all(|e| !matches!(e, Event::Urgent { .. })));
    let _ = Rect::new(0, 0, 1, 1);
}

#[test]
fn commit_updates_metadata_and_floats_small_slots() {
    let mut cfg = griddy::config::types::Config::default();
    cfg.grid.cols = 2;
    cfg.grid.rows = 2;
    let mut g = griddy::grid::Grid::new(&cfg, 1920, 1080);
    g.switch_workspace((0, 0));
    let mut h = griddy::grid::PlacementHints::default();
    h.state = Some(griddy::grid::window::WindowState::Tiled);
    h.slot = Some(griddy::grid::window::Slot::HalfLeft);
    let a = g.add_window(h).id;
    let ev = commit_metadata(&mut g, a, "kitty".into(), "shell".into(), 0, 0, MinSizeOverflow::Float);
    assert!(matches!(&ev[..], [Event::WindowTitle { id: i1, title }, Event::WindowAppId { id: i2, app_id }]
        if *i1 == a && *i2 == a && title == "shell" && app_id == "kitty"));
    // Nothing changed: no events.
    assert!(commit_metadata(&mut g, a, "kitty".into(), "shell".into(), 0, 0, MinSizeOverflow::Float).is_empty());
    // An empty title is not reported.
    assert!(commit_metadata(&mut g, a, "kitty".into(), String::new(), 0, 0, MinSizeOverflow::Float).is_empty());
    // Too wide for its slot, but the policy is Clip: it stays tiled.
    assert!(commit_metadata(&mut g, a, "kitty".into(), String::new(), 5000, 0, MinSizeOverflow::Clip).is_empty());
    let ev = commit_metadata(&mut g, a, "kitty".into(), String::new(), 5000, 0, MinSizeOverflow::Float);
    assert!(matches!(&ev[..], [Event::WindowSizeConstraintFloat { id, slot, min_w: 5000, min_h: 0, .. }]
        if *id == a && slot == "HalfLeft"));
    let w = g.windows.iter().find(|w| w.id == a).unwrap();
    assert_eq!(w.current_state, griddy::grid::window::WindowState::Floating);
}
