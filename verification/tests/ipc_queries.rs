use griddy::crash::record_start;
use griddy::config::types::Config;
use griddy::dispatch::{DispatchConfig, DispatchState};
use griddy::grid::window::{Slot, WindowState};
use griddy::grid::{Grid, PlacementHints};
use griddy::ipc::options::{animations_info, getoption, session_loaded, session_status, shaders, version};
use griddy::ipc::queries::{
    active_workspace, grid_cmd, grid_info, grid_resize, monitors, resize_args, workspaces, ResizeArgError,
};
use griddy::ipc::requests::{cheatsheet, dispatch_cmd, keyword_reply, locked_reply, unknown_command};
use griddy::ipc::window_info::{active_window, push_escaped, setprop, windows, SetpropReply};
use griddy::text::{split_words, trim};

fn make_grid(cols: u8, rows: u8) -> (Config, Grid) {
    let mut cfg = Config::default();
    cfg.grid.cols = cols;
    cfg.grid.rows = rows;
    let g = Grid::new(&cfg, 1920, 1080);
    (cfg, g)
}

fn tiled(slot: Slot) -> PlacementHints {
    let mut h = PlacementHints::default();
    h.state = Some(WindowState::Tiled);
    h.slot = Some(slot);
    h
}

fn state(cols: u8, rows: u8) -> DispatchState {
    let (_, grid) = make_grid(cols, rows);
    DispatchState {
        overview_focused: grid.focused,
        grid,
        debug_overlay: false,
        workspace_synced: false,
        minimap_visible: false,
        is_overview: false,
        is_overview_peeking: false,
        is_stack_peeking: false,
        overview_window_idx: 0,
        overview_grabbed_window: None,
        overview_grab_origin: None,
        active_submap: None,
        spawn_hint: None,
        screen_shader: None,
        active_special: None,
        special_workspaces: Vec::new(),
        applied_templates: Vec::new(),
        events: Vec::new(),
    }
}

fn dcfg() -> DispatchConfig {
    DispatchConfig {
        submaps: vec!["resize".to_string()],
        warp_on_focus_change: false,
        warp_on_workspace_change: false,
        performance_on_total_fullscreen: false,
        templates: Vec::new(),
    }
}

#[test]
fn resize_arguments() {
    assert_eq!(resize_args("4 4"), Ok((4, 4)));
    assert_eq!(resize_args("4x3"), Ok((4, 3)));
    assert_eq!(resize_args(" 5,2 "), Ok((5, 2)));
    assert_eq!(resize_args("4"), Err(ResizeArgError::Usage));
    assert_eq!(resize_args(""), Err(ResizeArgError::Usage));
    assert_eq!(resize_args("a b"), Err(ResizeArgError::NotNumbers));
    // `x` separates fields, so "x y" holds one field only.
    assert_eq!(resize_args("x y"), Err(ResizeArgError::Usage));
    assert_eq!(resize_args("300 2"), Err(ResizeArgError::NotNumbers));
}

#[test]
fn grid_resize_replies() {
    let (_, mut g) = make_grid(2, 2);
    assert_eq!(grid_resize("3x2", false, &mut g), "grid resized to 3x2");
    assert_eq!((g.cols, g.rows), (3, 2));
    // Each side is clamped to 1..=16.
    assert_eq!(grid_resize("20 0", true, &mut g), r#"{"ok":true,"cols":16,"rows":1}"#);
    assert_eq!(grid_resize("7", false, &mut g), "error: usage: grid resize <cols> <rows>");
    assert_eq!(grid_resize("a b", true, &mut g), r#"{"ok":false,"error":"cols and rows must be 1–16"}"#);
    assert_eq!((g.cols, g.rows), (16, 1));
}

#[test]
fn grid_info_and_routing() {
    let (cfg, mut g) = make_grid(3, 2);
    let f = g.focused;
    assert_eq!(grid_info(false, &g, &cfg), format!("grid 3x2  focused {},{}", f.0, f.1));
    assert_eq!(
        grid_info(true, &g, &cfg),
        format!(
            r#"{{"cols":3,"rows":2,"scope":"per-output","wrap_x":false,"wrap_y":false,"active":{{"col":{},"row":{},"monitor":"winit"}}}}"#,
            f.0, f.1
        )
    );
    assert_eq!(grid_cmd("", false, &mut g, &cfg), format!("grid 3x2  focused {},{}", f.0, f.1));
    assert_eq!(grid_cmd("resize 2 2", false, &mut g, &cfg), "grid resized to 2x2");
}

#[test]
fn monitors_reply() {
    let (_, g) = make_grid(2, 2);
    assert_eq!(monitors(false, &g), "winit 1920x1080 scale=1.0 *");
    assert_eq!(monitors(true, &g), r#"[{"name":"winit","width":1920,"height":1080,"scale":1.0,"focused":true}]"#);
}

#[test]
fn workspaces_listing() {
    let (_, mut g) = make_grid(2, 1);
    g.switch_workspace((0, 0));
    g.add_window(tiled(Slot::HalfLeft));
    g.rename_workspace(1, 0, "dev".to_string());
    assert_eq!(workspaces(false, &g), "0,0 [1 windows] *\n1,0 \"dev\" [0 windows]");
    assert_eq!(
        workspaces(true, &g),
        r#"[{"id":"winit:0,0","col":0,"row":0,"monitor":"winit","name":"","windows":1,"focused":true},{"id":"winit:1,0","col":1,"row":0,"monitor":"winit","name":"dev","windows":0,"focused":false}]"#
    );
    assert_eq!(active_workspace(false, &g), "0,0 [1 windows]");
}

#[test]
fn windows_listing() {
    let (_, mut g) = make_grid(2, 2);
    g.switch_workspace((0, 0));
    assert_eq!(active_window(false, &g, &Vec::new()), "no focused window");
    assert_eq!(active_window(true, &g, &Vec::new()), "null");
    let id = g.add_window(tiled(Slot::HalfLeft)).id;
    g.update_window_metadata(id, "kitty".to_string(), "say \"hi\"".to_string());
    assert_eq!(
        windows(false, &g, &Vec::new()),
        format!("id={id} app_id=kitty title=say \"hi\" ws=0,0 state=Tiled slot=HalfLeft")
    );
    let json = active_window(true, &g, &vec![(id, "0.5".to_string())]);
    assert!(json.starts_with(&format!(r#"{{"id":{id},"app_id":"kitty","title":"say \"hi\"","workspace""#)));
    assert!(json.contains(r#""opacity":0.5,"#));
    assert!(json.contains(r#""current_slot":"HalfLeft","requested_slot":"HalfLeft""#));
    assert!(json.ends_with(r#""shader":null,"xwayland":false}"#));
    assert!(windows(true, &g, &Vec::new()).contains(r#""opacity":1,"#));
}

#[test]
fn setprop_command() {
    let (_, mut g) = make_grid(2, 2);
    let id = g.add_window(tiled(Slot::HalfLeft)).id;
    let text = |r: SetpropReply| match r {
        SetpropReply::Text(t) => t,
        SetpropReply::Opacity(_, _) => panic!("opacity"),
    };
    assert_eq!(text(setprop("x sticky true", &mut g)), "error: invalid window id");
    assert_eq!(text(setprop("999 sticky true", &mut g)), "error: window 999 not found");
    assert_eq!(text(setprop(&format!("{id} sticky true"), &mut g)), "ok");
    assert!(g.windows[0].sticky);
    assert_eq!(text(setprop(&format!("{id} shader a b.glsl"), &mut g)), "ok");
    assert_eq!(g.windows[0].shader.as_deref(), Some("a b.glsl"));
    assert_eq!(text(setprop(&format!("{id} shader"), &mut g)), "ok");
    assert_eq!(g.windows[0].shader, None);
    assert_eq!(text(setprop(&format!("{id} wobble 1"), &mut g)), "error: unknown property 'wobble'");
    match setprop(&format!("{id} opacity 0.5"), &mut g) {
        SetpropReply::Opacity(i, v) => assert_eq!((i, v.as_str()), (id, "0.5")),
        SetpropReply::Text(t) => panic!("{t}"),
    }
}

#[test]
fn getoption_values() {
    let cfg = Config::default();
    let st = state(3, 2);
    assert_eq!(getoption("grid.cols", false, &cfg, &st, false, "1.0"), "grid.cols=3");
    assert_eq!(getoption(" input.follow_mouse ", false, &cfg, &st, false, "1.0"), "input.follow_mouse=loose");
    assert_eq!(getoption("version", true, &cfg, &st, false, "1.0"), r#"{"option":"version","value":"1.0"}"#);
    assert_eq!(getoption("grid.workspace_sync", false, &cfg, &st, true, "1.0"), "grid.workspace_sync=unsynced");
    assert_eq!(getoption("safe_mode", false, &cfg, &st, true, "1.0"), "safe_mode=true");
    assert_eq!(getoption("nope", true, &cfg, &st, false, "1.0"), "error: unknown option 'nope'");
}

#[test]
fn small_replies() {
    let cfg = Config::default();
    assert_eq!(animations_info(false, &cfg), format!("open_duration_ms={}", cfg.animations.open_duration_ms));
    assert_eq!(shaders(false, &None), "screen: (none)");
    assert_eq!(shaders(false, &Some("crt.glsl".to_string())), "screen: crt.glsl");
    assert_eq!(shaders(true, &Some("crt.glsl".to_string())), r#"[{"category":"screen","path":"crt.glsl"}]"#);
    assert_eq!(version(false, "0.1.0"), "GriddyWM v0.1.0");
    assert_eq!(version(true, "0.1.0"), r#"{"version":"0.1.0","commit":"","branch":"main"}"#);
    assert_eq!(session_status(false, 2, false), "pending_restores=2 safe_mode=false");
    assert_eq!(session_loaded(true, 3), r#"{"windows_loaded":3}"#);
    assert_eq!(locked_reply(true), r#"{"ok":false,"error":"session is locked"}"#);
    assert_eq!(unknown_command("frob"), "error: unknown command 'frob'");
    assert_eq!(keyword_reply(true, "ok".to_string()), r#"{"ok":true}"#);
    assert_eq!(keyword_reply(true, "bad \"x\"".to_string()), r#"{"ok":false,"error":"bad \"x\""}"#);
    assert_eq!(keyword_reply(false, "ok".to_string()), "ok");
}

#[test]
fn escaping_and_words() {
    let mut s = String::from(">");
    push_escaped(&mut s, "a\"b");
    assert_eq!(s, ">a\\\"b");
    assert_eq!(split_words("  move-window  1\t2 "), vec!["move-window", "1", "2"]);
    assert!(split_words(" \n ").is_empty());
}

#[test]
fn dispatch_from_socket() {
    let mut st = state(3, 3);
    let c = dcfg();
    st.grid.switch_workspace((0, 0));
    let (r, quit, _) = dispatch_cmd("workspace-right", false, &mut st, &c);
    assert_eq!((r.as_str(), quit), ("ok", false));
    assert_eq!(st.grid.focused, (1, 0));
    let (r, _, _) = dispatch_cmd("frobnicate 1", true, &mut st, &c);
    assert_eq!(r, r#"{"ok":false,"error":"unknown action 'frobnicate'"}"#);
    let (r, quit, fx) = dispatch_cmd("quit", true, &mut st, &c);
    assert_eq!((r.as_str(), quit, fx.len()), (r#"{"ok":true}"#, true, 0));
    let (r, _, _) = dispatch_cmd("", false, &mut st, &c);
    assert_eq!(r, "error: unknown action ''");
}

#[test]
fn cheatsheet_lines() {
    let rows = vec![
        ("SUPER".to_string(), "Return".to_string(), "exec kitty".to_string(), false, false),
        (String::new(), "Print".to_string(), "screenshot".to_string(), true, true),
    ];
    let text = cheatsheet(false, &rows);
    assert_eq!(text, format!("{:<30} exec kitty\n{:<30} screenshot [locked,global]", "SUPER+Return", "Print"));
    assert_eq!(
        cheatsheet(true, &rows[..1].to_vec()),
        r#"[{"combo":"SUPER+Return","mods":"SUPER","key":"Return","action":"exec kitty","locked":false,"global":false}]"#
    );
}

#[test]
fn crash_history_window() {
    let (kept, safe) = record_start(&vec![100, 170, 175], 200);
    assert_eq!(kept, vec![170, 175, 200]);
    assert!(safe);
    let (kept, safe) = record_start(&vec![10, 250], 200);
    // A stamp in the future counts as age 0 and stays.
    assert_eq!(kept, vec![250, 200]);
    assert!(!safe);
    let (kept, safe) = record_start(&Vec::new(), 5);
    assert_eq!((kept, safe), (vec![5], false));
}

#[test]
fn json_names_are_escaped() {
    let (_, mut g) = make_grid(1, 1);
    g.rename_workspace(0, 0, "a\"b\\c\n\u{1}é".to_string());
    assert_eq!(
        active_workspace(true, &g),
        r#"{"id":"winit:0,0","col":0,"row":0,"monitor":"winit","name":"a\"b\\c\n\u0001é","windows":0,"focused":true}"#
    );
}

#[test]
fn trim_removes_unicode_space() {
    assert_eq!(trim("  \u{3000}x y\t\n"), "x y");
    assert_eq!(trim(" \u{a0} "), "");
    assert_eq!(trim("abc"), "abc");
}
