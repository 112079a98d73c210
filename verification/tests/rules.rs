use griddy::config::rules::{glob_match, glob_match_pub, Rule, RuleAction};
use griddy::toplevel::{evaluate_rules, parse_rule_state};
use griddy::grid::window::{Rect, Slot, WindowState};

fn make_rule(app_id: Option<&str>, title: Option<&str>) -> Rule {
    let mut r = Rule::default();
    r.match_.app_id = app_id.map(|s| s.to_owned());
    r.match_.title = title.map(|s| s.to_owned());
    r
}

#[test]
fn exact() {
    assert!(glob_match("kitty", "kitty"));
    assert!(!glob_match("kitty", "alacritty"));
}

#[test]
fn star_prefix() {
    assert!(glob_match("*terminal*", "foot-terminal-app"));
    assert!(glob_match("org.gnome.*", "org.gnome.Files"));
}

#[test]
fn question_mark() {
    assert!(glob_match("k?tty", "kitty"));
    assert!(!glob_match("k?tty", "ktty"));
}

#[test]
fn matches_no_criteria_always_true() {
    let r = make_rule(None, None);
    assert!(r.matches("anything", "anything", false, None, false));
}

#[test]
fn matches_app_id() {
    let r = make_rule(Some("kitty"), None);
    assert!(r.matches("kitty", "", false, None, false));
    assert!(!r.matches("alacritty", "", false, None, false));
}

#[test]
fn matches_workspace() {
    let mut r = Rule::default();
    r.match_.workspace = Some([1, 2]);
    assert!(r.matches("", "", false, Some((1, 2)), false));
    assert!(!r.matches("", "", false, Some((0, 0)), false));
    assert!(!r.matches("", "", false, None, false));
}

#[test]
fn matches_title_regex() {
    let mut r = Rule::default();
    r.match_.title_regex = Some("Friends List".to_owned());
    assert!(r.matches("Steam", "Friends List", false, None, false));
    assert!(!r.matches("Steam", "Library", false, None, false));
}

#[test]
fn matches_is_xwayland() {
    let mut r = Rule::default();
    r.match_.is_xwayland = Some(true);
    assert!(r.matches("", "", true, None, false));
    assert!(!r.matches("", "", false, None, false));
}

#[test]
fn glob_edge_cases() {
    assert!(glob_match("", ""));
    assert!(!glob_match("", "a"));
    assert!(glob_match("*", ""));
    assert!(glob_match("*", "anything at all"));
    assert!(!glob_match("?", ""));
    assert!(glob_match("a*b*c", "aXXbYYc"));
    assert!(!glob_match("a*b*c", "aXXbYY"));
    assert!(glob_match_pub("fire*", "firefox"));
    // `?` matches one character, also one written with several bytes.
    assert!(glob_match("?", "é"));
    assert!(!glob_match("??", "é"));
    assert!(glob_match_pub("caf?", "café"));
}

#[test]
fn title_regex_is_a_real_regex() {
    let mut r = Rule::default();
    r.match_.title_regex = Some("^Fr.*List$".to_owned());
    assert!(r.matches("x", "Friends List", false, None, false));
    assert!(!r.matches("x", "My Friends List!", false, None, false));
}

#[test]
fn invalid_title_regex_matches_nothing() {
    let mut r = Rule::default();
    r.match_.title_regex = Some("(unclosed".to_owned());
    assert!(!r.matches("x", "(unclosed", false, None, false));
}

#[test]
fn fullscreen_request_criterion() {
    let mut r = Rule::default();
    r.match_.fullscreen_request = Some(true);
    assert!(r.matches("", "", false, None, true));
    assert!(!r.matches("", "", false, None, false));
}

#[test]
fn all_criteria_must_hold() {
    let mut r = make_rule(Some("kitty"), Some("*vim*"));
    r.match_.workspace = Some([0, 0]);
    assert!(r.matches("kitty", "nvim main.rs", false, Some((0, 0)), false));
    assert!(!r.matches("kitty", "bash", false, Some((0, 0)), false));
    assert!(!r.matches("kitty", "nvim", false, Some((1, 0)), false));
}

#[test]
fn rule_state_names() {
    assert_eq!(parse_rule_state("tiled"), Some(WindowState::Tiled));
    assert_eq!(parse_rule_state("floating"), Some(WindowState::Floating));
    assert_eq!(parse_rule_state("fullscreen"), Some(WindowState::Fullscreen));
    assert_eq!(parse_rule_state("total-fullscreen"), Some(WindowState::TotalFullscreen));
    assert_eq!(parse_rule_state("Tiled"), None);
}

#[test]
fn later_matching_rule_wins() {
    let mut a = make_rule(Some("kitty"), None);
    a.action.slot = Some("half-left".to_owned());
    a.action.no_focus = true;
    let mut b = make_rule(Some("kit*"), None);
    b.action.slot = Some("quarter-br".to_owned());
    b.action.state = Some("floating".to_owned());
    b.action.floating_geom = Some([1, 2, 3, 4]);
    let mut c = make_rule(Some("firefox"), None);
    c.action.slot = Some("half-right".to_owned());
    let h = evaluate_rules(&vec![a, b, c], "kitty", "t", false, Some((0, 0)), false);
    assert_eq!(h.slot, Some(Slot::QuarterBR));
    assert_eq!(h.state, Some(WindowState::Floating));
    assert_eq!(h.floating_geom, Some(Rect::new(1, 2, 3, 4)));
    assert!(h.no_focus);
    assert_eq!(h.workspace, None);
}

#[test]
fn rule_flags_and_strings() {
    let mut a = Rule::default();
    a.action.sticky = true;
    a.action.above_total_fullscreen = false;
    a.action.border_color = Some("#ff0000".to_owned());
    a.action.workspace = Some([2, 1]);
    let mut b = Rule::default();
    b.action.steal_focus = true;
    b.action.shader = Some("x.glsl".to_owned());
    let h = evaluate_rules(&vec![a, b], "any", "any", false, None, false);
    assert!(h.pin);
    assert!(!h.sticky);
    assert_eq!(h.above_total_fullscreen, Some(false));
    assert_eq!(h.border_color.as_deref(), Some("#ff0000"));
    assert_eq!(h.shader.as_deref(), Some("x.glsl"));
    assert_eq!(h.workspace, Some((2, 1)));
    assert!(h.steal_focus);
    let none = evaluate_rules(&Vec::new(), "any", "any", false, None, false);
    assert_eq!(none.above_total_fullscreen, None);
    assert!(!none.pin);
    let _ = RuleAction::default();
}
