use griddy::config::types::BindConfig;
use griddy::grid::window::Slot;
use griddy::grid::FocusDirection;
use griddy::keybind::action::Action;
use griddy::keybind::defaults::default_binds;
use griddy::keybind::parse::{parse_action, parse_coord, parse_direction, parse_slot};
use griddy::keybind::table::{mask_to_mods_str, modset_from_vec, mods_to_mask, BindTable, Mods};

fn s(v: &[&str]) -> Vec<String> {
    v.iter().map(|x| x.to_string()).collect()
}

#[test]
fn parse_simple_actions() {
    assert!(matches!(parse_action("close-window", &[]), Some(Action::CloseWindow)));
    assert!(matches!(parse_action("quit", &[]), Some(Action::Quit)));
    assert!(matches!(parse_action("workspace-back", &[]), Some(Action::WorkspaceBack)));
    assert!(parse_action("no-such-action", &[]).is_none());
}

#[test]
fn parse_exec_forms() {
    match parse_action("exec   kitty -e htop  ", &[]) {
        Some(Action::Exec(c)) => assert_eq!(c, "kitty -e htop"),
        other => panic!("{:?}", other),
    }
    match parse_action("exec", &s(&["foot", "--server"])) {
        Some(Action::Exec(c)) => assert_eq!(c, "foot --server"),
        other => panic!("{:?}", other),
    }
    assert!(parse_action("exec", &[]).is_none());
}

#[test]
fn parse_coordinates() {
    assert!(matches!(parse_action("workspace", &s(&["2,1"])), Some(Action::WorkspaceTo(2, 1))));
    assert!(parse_action("workspace", &s(&["2;1"])).is_none());
    assert!(parse_action("workspace", &s(&["256,1"])).is_none());
    assert!(parse_action("workspace", &[]).is_none());
    assert!(matches!(parse_action("move-window-to", &s(&["0,3"])), Some(Action::MoveWindowTo(0, 3))));
    assert_eq!(parse_coord(&s(&["4,5"])), Some((4, 5)));
}

#[test]
fn parse_arguments() {
    assert!(matches!(parse_action("workspace-index", &s(&["7"])), Some(Action::WorkspaceIndex(7))));
    assert!(matches!(parse_action("resize-active", &s(&["-10"])), Some(Action::ResizeActive(-10, 0))));
    assert!(matches!(parse_action("resize-active", &s(&["x", "5"])), Some(Action::ResizeActive(0, 5))));
    assert!(matches!(
        parse_action("move-window-direction", &s(&["left"])),
        Some(Action::MoveWindowDirection(FocusDirection::Left))
    ));
    assert!(matches!(parse_action("submap", &s(&["reset"])), Some(Action::SubmapReset)));
    match parse_action("spawn-in-slot", &s(&["quarter-tl", "kitty", "-1"])) {
        Some(Action::SpawnInSlot(Slot::QuarterTL, c)) => assert_eq!(c, "kitty -1"),
        other => panic!("{:?}", other),
    }
    assert!(parse_action("spawn-in-slot", &s(&["quarter-tl"])).is_none());
}

#[test]
fn slot_and_direction_names() {
    assert_eq!(parse_slot("half-left"), Some(Slot::HalfLeft));
    assert_eq!(parse_slot("QuarterBR"), Some(Slot::QuarterBR));
    assert_eq!(parse_slot("fullscreen"), None);
    assert_eq!(parse_direction("down"), Some(FocusDirection::Down));
    assert_eq!(parse_direction("Down"), None);
}

#[test]
fn modifier_masks() {
    let m = Mods { logo: true, alt: false, ctrl: true, shift: false };
    assert_eq!(mods_to_mask(&m), 0b0101);
    assert_eq!(modset_from_vec(&s(&["Super", "Ctrl"])), 0b0101);
    assert_eq!(modset_from_vec(&s(&["Shift", "Mod1", "shift"])), 0b1010);
    assert_eq!(mask_to_mods_str(0b1111), "Super+Alt+Ctrl+Shift");
    assert_eq!(mask_to_mods_str(0), "");
}

fn bind(mods: &[&str], key: &str, action: &str, args: &[&str]) -> BindConfig {
    BindConfig {
        mods: s(mods),
        key: key.into(),
        action: action.into(),
        args: s(args),
        description: String::new(),
        repeat: false,
        locked: false,
        global: false,
        passthrough: false,
    }
}

#[test]
fn table_lookup_by_sym_and_mods() {
    let binds = vec![bind(&["Super"], "q", "close-window", &[]), bind(&["Super", "Shift"], "q", "quit", &[])];
    let t = BindTable::from_config(&binds, &[113, 113]);
    let sup = Mods { logo: true, alt: false, ctrl: false, shift: false };
    let sup_shift = Mods { logo: true, alt: false, ctrl: false, shift: true };
    assert!(matches!(t.lookup(113, &sup), Some(Action::CloseWindow)));
    assert!(matches!(t.lookup(113, &sup_shift), Some(Action::Quit)));
    assert!(t.lookup(114, &sup).is_none());
}

#[test]
fn default_binds_all_parse() {
    let binds = default_binds("Super");
    assert!(!binds.is_empty());
    for b in &binds {
        assert!(parse_action(&b.action, &b.args).is_some(), "{}", b.action);
    }
}

// Law: the cheatsheet is sorted by modifiers then key, and binds with the
// same modifiers and key keep their table order.
#[test]
fn cheatsheet_sort_is_stable() {
    let binds = vec![
        bind(&["Super"], "b", "exec", &["second"]),
        bind(&["Super"], "a", "exec", &["one"]),
        bind(&["Super"], "b", "exec", &["third"]),
        bind(&["Super"], "a", "exec", &["two"]),
    ];
    let t = BindTable::from_config(&binds, &[1, 2, 1, 2]);
    let rows = t.for_cheatsheet();
    let actions: Vec<&str> = rows.iter().map(|r| r.2.as_str()).collect();
    assert_eq!(actions, vec!["exec one", "exec two", "exec second", "exec third"]);
}
