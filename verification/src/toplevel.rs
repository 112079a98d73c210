//! Opening a toplevel: the placement hints a new window gets from the
//! window rules, a pending spawn hint, its parent, the saved session, the
//! same-app policy and swallowing; and what follows the placement (events,
//! focus-steal prevention).
use vstd::prelude::*;

use crate::config::rules::{criteria_hold, glob_chars, glob_match, regex_outcome, Rule, RuleAction};
use crate::grid::window::{Rect, Slot, WindowId, WindowState};
use crate::grid::{AddWindowResult, Grid, PlacementHints, Window};
use crate::ipc::commands::{slot_name, slot_name_spec, state_name, state_name_spec};
use crate::ipc::events::{event_view, Event, EventV};
use crate::session::{took_hint, SessionState, SessionWindow};
use crate::keybind::parse::{parse_slot, slot_spec};
use crate::text::str_eq;

verus! {

/// A state name of a rule.
pub open spec fn rule_state_spec(s: Seq<char>) -> Option<WindowState> {
    if s == "tiled"@ {
        Some(WindowState::Tiled)
    } else if s == "floating"@ {
        Some(WindowState::Floating)
    } else if s == "fullscreen"@ {
        Some(WindowState::Fullscreen)
    } else if s == "total-fullscreen"@ {
        Some(WindowState::TotalFullscreen)
    } else {
        None
    }
}

pub fn parse_rule_state(s: &str) -> (r: Option<WindowState>)
    ensures
        r == rule_state_spec(s@),
{
    if str_eq(s, "tiled") {
        Some(WindowState::Tiled)
    } else if str_eq(s, "floating") {
        Some(WindowState::Floating)
    } else if str_eq(s, "fullscreen") {
        Some(WindowState::Fullscreen)
    } else if str_eq(s, "total-fullscreen") {
        Some(WindowState::TotalFullscreen)
    } else {
        None
    }
}

/// What placement hints hold, as plain values.
pub struct HintsV {
    pub workspace: Option<(u8, u8)>,
    pub slot: Option<Slot>,
    pub state: Option<WindowState>,
    pub floating_geom: Option<Rect>,
    pub no_focus: bool,
    pub pid: Option<u32>,
    pub swallows: Option<WindowId>,
    pub pin: bool,
    pub sticky: bool,
    pub no_animations: bool,
    pub above_total_fullscreen: Option<bool>,
    pub border_color: Option<Seq<char>>,
    pub shader: Option<Seq<char>>,
    pub min_size_overflow: Option<Seq<char>>,
    pub steal_focus: bool,
}

pub open spec fn opt_view(o: Option<String>) -> Option<Seq<char>> {
    match o {
        Some(s) => Some(s@),
        None => None,
    }
}

impl PlacementHints {
    pub open spec fn view(&self) -> HintsV {
        HintsV {
            workspace: self.workspace,
            slot: self.slot,
            state: self.state,
            floating_geom: self.floating_geom,
            no_focus: self.no_focus,
            pid: self.pid,
            swallows: self.swallows,
            pin: self.pin,
            sticky: self.sticky,
            no_animations: self.no_animations,
            above_total_fullscreen: self.above_total_fullscreen,
            border_color: opt_view(self.border_color),
            shader: opt_view(self.shader),
            min_size_overflow: opt_view(self.min_size_overflow),
            steal_focus: self.steal_focus,
        }
    }
}

/// Hints that set nothing.
pub open spec fn no_hints() -> HintsV {
    HintsV {
        workspace: None,
        slot: None,
        state: None,
        floating_geom: None,
        no_focus: false,
        pid: None,
        swallows: None,
        pin: false,
        sticky: false,
        no_animations: false,
        above_total_fullscreen: None,
        border_color: None,
        shader: None,
        min_size_overflow: None,
        steal_focus: false,
    }
}

/// `h` after the action `a` of a matching rule: what the action sets
/// overrides, its flags add to those already set.
pub open spec fn apply_action(h: HintsV, a: RuleAction) -> HintsV {
    apply_flags(apply_placement(h, a), a)
}

/// The slot, state, workspace and geometry that the action `a` sets.
pub open spec fn apply_placement(h: HintsV, a: RuleAction) -> HintsV {
    HintsV {
        slot: match a.slot {
            Some(s) => slot_spec(s@),
            None => h.slot,
        },
        state: match a.state {
            Some(s) => rule_state_spec(s@),
            None => h.state,
        },
        workspace: match a.workspace {
            Some(w) => Some((w[0], w[1])),
            None => h.workspace,
        },
        floating_geom: match a.floating_geom {
            Some(g) => Some(Rect { x: g[0], y: g[1], w: g[2], h: g[3] }),
            None => h.floating_geom,
        },
        ..h
    }
}

/// The flags and strings that the action `a` sets.
pub open spec fn apply_flags(h: HintsV, a: RuleAction) -> HintsV {
    HintsV {
        no_focus: h.no_focus || a.no_focus,
        pin: h.pin || a.pin || a.sticky,
        no_animations: h.no_animations || a.no_animations,
        above_total_fullscreen: if !a.above_total_fullscreen { Some(false) } else { h.above_total_fullscreen },
        border_color: match a.border_color {
            Some(s) => Some(s@),
            None => h.border_color,
        },
        shader: match a.shader {
            Some(s) => Some(s@),
            None => h.shader,
        },
        min_size_overflow: match a.min_size_overflow {
            Some(s) => Some(s@),
            None => h.min_size_overflow,
        },
        steal_focus: h.steal_focus || a.steal_focus,
        ..h
    }
}

/// The hints of the rules `rules` for a window: the actions of the
/// matching rules applied in order, so that the last one wins.
pub open spec fn rules_hints(
    rules: Seq<Rule>,
    app_id: Seq<char>,
    title: Seq<char>,
    is_xwayland: bool,
    workspace: Option<(u8, u8)>,
    fullscreen_request: bool,
) -> HintsV
    decreases rules.len(),
{
    if rules.len() == 0 {
        no_hints()
    } else {
        let h = rules_hints(rules.drop_last(), app_id, title, is_xwayland, workspace, fullscreen_request);
        let r = rules.last();
        if criteria_hold(r.match_, app_id, title, is_xwayland, workspace, fullscreen_request, regex_outcome(r.match_, title)) {
            apply_action(h, r.action)
        } else {
            h
        }
    }
}

fn clone_opt(o: &Option<String>) -> (r: Option<String>)
    ensures
        opt_view(r) == opt_view(*o),
{
    match o {
        Some(s) => Some(s.clone()),
        None => None,
    }
}

fn apply_rule_action(h: &mut PlacementHints, a: &RuleAction)
    ensures
        final(h).view() == apply_action(old(h).view(), *a),
{
    apply_rule_placement(h, a);
    apply_rule_flags(h, a);
}

fn apply_rule_placement(h: &mut PlacementHints, a: &RuleAction)
    ensures
        final(h).view() == apply_placement(old(h).view(), *a),
{
    if let Some(s) = &a.slot {
        h.slot = parse_slot(s.as_str());
    }
    if let Some(s) = &a.state {
        h.state = parse_rule_state(s.as_str());
    }
    if let Some(w) = a.workspace {
        h.workspace = Some((w[0], w[1]));
    }
    if let Some(g) = a.floating_geom {
        h.floating_geom = Some(Rect::new(g[0], g[1], g[2], g[3]));
    }
}

fn apply_rule_flags(h: &mut PlacementHints, a: &RuleAction)
    ensures
        final(h).view() == apply_flags(old(h).view(), *a),
{
    h.no_focus = h.no_focus || a.no_focus;
    h.pin = h.pin || a.pin || a.sticky;
    h.no_animations = h.no_animations || a.no_animations;
    if !a.above_total_fullscreen {
        h.above_total_fullscreen = Some(false);
    }
    if a.border_color.is_some() {
        h.border_color = clone_opt(&a.border_color);
    }
    if a.shader.is_some() {
        h.shader = clone_opt(&a.shader);
    }
    if a.min_size_overflow.is_some() {
        h.min_size_overflow = clone_opt(&a.min_size_overflow);
    }
    h.steal_focus = h.steal_focus || a.steal_focus;
}

/// The placement hints that the window rules give a window.
pub fn evaluate_rules(
    rules: &Vec<Rule>,
    app_id: &str,
    title: &str,
    is_xwayland: bool,
    workspace: Option<(u8, u8)>,
    fullscreen_request: bool,
) -> (h: PlacementHints)
    ensures
        h.view() == rules_hints(rules@, app_id@, title@, is_xwayland, workspace, fullscreen_request),
{
    let mut h = PlacementHints::default();
    let mut i: usize = 0;
    while i < rules.len()
        invariant
            i <= rules@.len(),
            h.view() == rules_hints(rules@.take(i as int), app_id@, title@, is_xwayland, workspace, fullscreen_request),
        decreases rules.len() - i,
    {
        proof {
            assert(rules@.take(i as int + 1).drop_last() =~= rules@.take(i as int));
        }
        let rule = &rules[i];
        if rule.matches(app_id, title, is_xwayland, workspace, fullscreen_request) {
            apply_rule_action(&mut h, &rule.action);
        }
        i += 1;
    }
    proof {
        assert(rules@.take(i as int) =~= rules@);
    }
    h
}

// ─── Spawn hint, parent, session ─────────────────────────────────────────────

/// `h` under a pending spawn hint `sh`, which wins: its state, slot,
/// workspace and geometry replace those it sets, and its no-focus adds.
pub open spec fn with_spawn_hint(h: HintsV, sh: Option<HintsV>) -> HintsV {
    match sh {
        Some(s) => HintsV {
            state: if s.state is Some { s.state } else { h.state },
            slot: if s.slot is Some { s.slot } else { h.slot },
            workspace: if s.workspace is Some { s.workspace } else { h.workspace },
            floating_geom: if s.floating_geom is Some { s.floating_geom } else { h.floating_geom },
            no_focus: h.no_focus || s.no_focus,
            ..h
        },
        None => h,
    }
}

fn overlay_spawn_hint(h: &mut PlacementHints, sh: Option<PlacementHints>)
    ensures
        final(h).view() == with_spawn_hint(old(h).view(), match sh {
            Some(s) => Some(s.view()),
            None => None,
        }),
{
    if let Some(s) = sh {
        if s.state.is_some() {
            h.state = s.state;
        }
        if s.slot.is_some() {
            h.slot = s.slot;
        }
        if s.workspace.is_some() {
            h.workspace = s.workspace;
        }
        if s.floating_geom.is_some() {
            h.floating_geom = s.floating_geom;
        }
        if s.no_focus {
            h.no_focus = true;
        }
    }
}

/// A dialog of at most 600x400 centered on its parent's rectangle `p`.
pub open spec fn dialog_rect(p: Rect) -> Rect {
    let dw: int = if 600 < p.w { 600 } else { p.w as int };
    let dh: int = if 400 < p.h { 400 } else { p.h as int };
    Rect { x: (p.x + (p.w - dw) / 2) as i32, y: (p.y + (p.h - dh) / 2) as i32, w: dw as i32, h: dh as i32 }
}

/// The dialog rectangle does not leave the `i32` range.
pub open spec fn dialog_fits(p: Rect) -> bool {
    let dw: int = if 600 < p.w { 600 } else { p.w as int };
    let dh: int = if 400 < p.h { 400 } else { p.h as int };
    &&& p.x + (p.w - dw) / 2 <= i32::MAX
    &&& p.y + (p.h - dh) / 2 <= i32::MAX
}

fn dialog_geometry(p: Rect) -> (r: Rect)
    requires
        dialog_fits(p),
    ensures
        r == dialog_rect(p),
{
    let dw: i32 = if 600 < p.w { 600 } else { p.w };
    let dh: i32 = if 400 < p.h { 400 } else { p.h };
    assert(p.w - dw >= 0 && p.h - dh >= 0);
    Rect::new(p.x + (p.w - dw) / 2, p.y + (p.h - dh) / 2, dw, dh)
}

/// A window with a parent, and no state yet, floats as a dialog centered
/// on the parent, on the parent's workspace.
pub open spec fn with_parent(h: HintsV, g: Grid, parent: Option<WindowId>) -> HintsV {
    match parent {
        Some(p) => if h.state is None && g.rect_spec(p) is Some {
            HintsV {
                state: Some(WindowState::Floating),
                floating_geom: Some(dialog_rect(g.rect_spec(p).unwrap())),
                workspace: Some(g.win(p).workspace),
                ..h
            }
        } else {
            h
        },
        None => h,
    }
}

/// `h` with the workspace, and the slot if any, of a saved session entry.
pub open spec fn with_session(h: HintsV, e: Option<SessionWindow>) -> HintsV {
    match e {
        Some(e) => HintsV {
            workspace: Some((e.workspace_col, e.workspace_row)),
            slot: match e.slot {
                Some(n) => slot_spec(n@),
                None => h.slot,
            },
            ..h
        },
        None => h,
    }
}

// ─── Same-app policy and swallowing ──────────────────────────────────────────

/// The slot of the first window in `ws` on workspace `at` with this app_id
/// and a slot.
pub open spec fn same_app_slot(ws: Seq<Window>, at: (u8, u8), app_id: Seq<char>) -> Option<Slot>
    decreases ws.len(),
{
    if ws.len() == 0 {
        None
    } else {
        let w = ws.last();
        match same_app_slot(ws.drop_last(), at, app_id) {
            Some(s) => Some(s),
            None => if w.workspace == at && w.app_id@ == app_id && w.current_slot is Some {
                w.current_slot
            } else {
                None
            },
        }
    }
}

/// The same-app policy: with nothing else placing the window, the policy
/// "stack-with-focused" puts it in the slot of a window of the same app on
/// the focused workspace. Also names what decided the placement.
pub open spec fn with_same_app(h: HintsV, g: Grid, app_id: Seq<char>, policy: Seq<char>) -> (HintsV, Seq<char>) {
    if h.state is None && h.slot is None && h.workspace is None {
        if policy == "stack-with-focused"@ && same_app_slot(g.windows@, g.focused, app_id) is Some {
            (HintsV { slot: same_app_slot(g.windows@, g.focused, app_id), ..h }, "same_app"@)
        } else {
            (h, "default"@)
        }
    } else {
        (h, "rule"@)
    }
}

/// The swallow pattern of the first rule that matches the window (with no
/// workspace, no fullscreen request, not XWayland) and has one.
pub open spec fn swallow_pattern(rules: Seq<Rule>, app_id: Seq<char>, title: Seq<char>) -> Option<Seq<char>>
    decreases rules.len(),
{
    if rules.len() == 0 {
        None
    } else {
        match swallow_pattern(rules.drop_last(), app_id, title) {
            Some(p) => Some(p),
            None => {
                let r = rules.last();
                if criteria_hold(r.match_, app_id, title, false, None, false, regex_outcome(r.match_, title))
                    && r.action.swallow is Some {
                    Some(r.action.swallow.unwrap()@)
                } else {
                    None
                }
            },
        }
    }
}

/// The first window in `ws` owned by process `ppid` whose app_id matches
/// the glob `pat`.
pub open spec fn swallow_victim(ws: Seq<Window>, ppid: u32, pat: Seq<char>) -> Option<Window>
    decreases ws.len(),
{
    if ws.len() == 0 {
        None
    } else {
        match swallow_victim(ws.drop_last(), ppid, pat) {
            Some(w) => Some(w),
            None => {
                let w = ws.last();
                if w.pid == Some(ppid) && glob_chars(pat, w.app_id@) {
                    Some(w)
                } else {
                    None
                }
            },
        }
    }
}

/// `h` with the client's process id, and, when a rule asks the window to
/// swallow and a window of the parent process matches, that window's slot
/// and workspace and the window to swallow.
pub open spec fn with_swallow(
    h: HintsV,
    g: Grid,
    rules: Seq<Rule>,
    app_id: Seq<char>,
    title: Seq<char>,
    pid: Option<u32>,
    ppid: Option<u32>,
) -> HintsV {
    let h = HintsV { pid, ..h };
    match (swallow_pattern(rules, app_id, title), pid, ppid) {
        (Some(pat), Some(_), Some(pp)) => match swallow_victim(g.windows@, pp, pat) {
            Some(v) => if v.current_slot is Some {
                HintsV { slot: v.current_slot, workspace: Some(v.workspace), swallows: Some(v.id), ..h }
            } else {
                h
            },
            None => h,
        },
        _ => h,
    }
}

fn find_same_app_slot(g: &Grid, app_id: &str) -> (r: Option<Slot>)
    ensures
        r == same_app_slot(g.windows@, g.focused, app_id@),
{
    let mut i: usize = 0;
    let mut found: Option<Slot> = None;
    while i < g.windows.len()
        invariant
            i <= g.windows@.len(),
            found == same_app_slot(g.windows@.take(i as int), g.focused, app_id@),
        decreases g.windows.len() - i,
    {
        proof {
            assert(g.windows@.take(i as int + 1).drop_last() =~= g.windows@.take(i as int));
        }
        if found.is_none() {
            let w = &g.windows[i];
            if w.workspace.0 == g.focused.0 && w.workspace.1 == g.focused.1 && str_eq(w.app_id.as_str(), app_id) && w.current_slot.is_some() {
                found = w.current_slot;
            }
        }
        i += 1;
    }
    proof {
        assert(g.windows@.take(i as int) =~= g.windows@);
    }
    found
}

fn find_swallow_pattern(rules: &Vec<Rule>, app_id: &str, title: &str) -> (r: Option<String>)
    ensures
        opt_view(r) == swallow_pattern(rules@, app_id@, title@),
{
    let mut i: usize = 0;
    let mut found: Option<String> = None;
    while i < rules.len()
        invariant
            i <= rules@.len(),
            opt_view(found) == swallow_pattern(rules@.take(i as int), app_id@, title@),
        decreases rules.len() - i,
    {
        proof {
            assert(rules@.take(i as int + 1).drop_last() =~= rules@.take(i as int));
        }
        if found.is_none() {
            let r = &rules[i];
            if r.matches(app_id, title, false, None, false) && r.action.swallow.is_some() {
                found = clone_opt(&r.action.swallow);
            }
        }
        i += 1;
    }
    proof {
        assert(rules@.take(i as int) =~= rules@);
    }
    found
}

fn find_swallow_victim(g: &Grid, ppid: u32, pat: &str) -> (r: Option<usize>)
    ensures
        match r {
            Some(i) => i < g.windows@.len() && swallow_victim(g.windows@, ppid, pat@) == Some(g.windows@[i as int]),
            None => swallow_victim(g.windows@, ppid, pat@) is None,
        },
{
    let mut i: usize = 0;
    while i < g.windows.len()
        invariant
            i <= g.windows@.len(),
            swallow_victim(g.windows@.take(i as int), ppid, pat@) is None,
        decreases g.windows.len() - i,
    {
        proof {
            assert(g.windows@.take(i as int + 1).drop_last() =~= g.windows@.take(i as int));
        }
        let w = &g.windows[i];
        if w.pid == Some(ppid) && glob_match(pat, w.app_id.as_str()) {
            proof {
                lemma_victim_prefix(g.windows@, ppid, pat@, i as int + 1);
            }
            return Some(i);
        }
        i += 1;
    }
    proof {
        assert(g.windows@.take(i as int) =~= g.windows@);
    }
    None
}

/// A victim found in a prefix is the victim of the whole sequence.
proof fn lemma_victim_prefix(ws: Seq<Window>, ppid: u32, pat: Seq<char>, k: int)
    requires
        0 <= k <= ws.len(),
        swallow_victim(ws.take(k), ppid, pat) is Some,
    ensures
        swallow_victim(ws, ppid, pat) == swallow_victim(ws.take(k), ppid, pat),
    decreases ws.len() - k,
{
    if k < ws.len() {
        assert(ws.take(k + 1).drop_last() =~= ws.take(k));
        lemma_victim_prefix(ws, ppid, pat, k + 1);
    } else {
        assert(ws.take(k) =~= ws);
    }
}

// ─── The plan ────────────────────────────────────────────────────────────────

/// The hints after the session step: the same-app policy, the process id
/// and swallowing; and what decided the placement.
pub open spec fn later_hints(
    h: HintsV,
    g: Grid,
    rules: Seq<Rule>,
    app_id: Seq<char>,
    title: Seq<char>,
    policy: Seq<char>,
    pid: Option<u32>,
    ppid: Option<u32>,
) -> (HintsV, Seq<char>) {
    let (h2, decided) = with_same_app(h, g, app_id, policy);
    (with_swallow(h2, g, rules, app_id, title, pid, ppid), decided)
}

/// The hints before the session step: the rules (evaluated for the focused
/// workspace), the spawn hint, the parent.
pub open spec fn early_hints(
    g: Grid,
    rules: Seq<Rule>,
    app_id: Seq<char>,
    title: Seq<char>,
    spawn_hint: Option<HintsV>,
    parent: Option<WindowId>,
) -> HintsV {
    with_parent(with_spawn_hint(rules_hints(rules, app_id, title, false, Some(g.focused), false), spawn_hint), g, parent)
}

pub open spec fn opt_hints_view(o: Option<PlacementHints>) -> Option<HintsV> {
    match o {
        Some(h) => Some(h.view()),
        None => None,
    }
}

/// The parent's dialog rectangle stays in range.
pub open spec fn parent_fits(g: Grid, parent: Option<WindowId>) -> bool {
    match parent {
        Some(p) => g.rect_spec(p) is Some ==> dialog_fits(g.rect_spec(p).unwrap()),
        None => true,
    }
}

/// The placement hints of a new toplevel with this app_id and title, and
/// what decided its placement ("rule", "same_app" or "default"). The rules
/// come first, a pending spawn hint wins over them, a parent makes a
/// stateless window a centered dialog; with no workspace and no slot yet, a
/// saved session entry is taken; then the same-app policy; then the process
/// id and swallowing (`ppid` is the parent process of `pid`).
pub fn plan_new_window(
    g: &Grid,
    rules: &Vec<Rule>,
    app_id: &str,
    title: &str,
    spawn_hint: Option<PlacementHints>,
    parent: Option<WindowId>,
    session: &mut Option<SessionState>,
    same_app_policy: &str,
    pid: Option<u32>,
    ppid: Option<u32>,
) -> (r: (PlacementHints, &'static str))
    requires
        g.wf(),
        g.layout_ok(),
        parent_fits(*g, parent),
    ensures
        ({
            let h = early_hints(*g, rules@, app_id@, title@, opt_hints_view(spawn_hint), parent);
            if h.workspace is None && h.slot is None && (*old(session)) is Some {
                exists|e: Option<SessionWindow>|
                    {
                        &&& (*final(session)) is Some
                        &&& final(session).unwrap().version == old(session).unwrap().version
                        &&& took_hint(old(session).unwrap().windows@, final(session).unwrap().windows@, app_id@, title@, e)
                        &&& (r.0.view(), r.1@) == later_hints(
                            with_session(h, e),
                            *g,
                            rules@,
                            app_id@,
                            title@,
                            same_app_policy@,
                            pid,
                            ppid,
                        )
                    }
            } else {
                &&& *final(session) == *old(session)
                &&& (r.0.view(), r.1@) == later_hints(h, *g, rules@, app_id@, title@, same_app_policy@, pid, ppid)
            }
        }),
{
    let mut h = evaluate_rules(rules, app_id, title, false, Some(g.focused), false);
    overlay_spawn_hint(&mut h, spawn_hint);
    if h.state.is_none() {
        if let Some(p) = parent {
            if let Some(pr) = g.compute_rect(p) {
                let i = g.find_window(p).unwrap();
                h.state = Some(WindowState::Floating);
                h.floating_geom = Some(dialog_geometry(pr));
                h.workspace = Some(g.windows[i].workspace);
            }
        }
    }
    assert(h.view() == early_hints(*g, rules@, app_id@, title@, opt_hints_view(spawn_hint), parent));
    let ghost h3 = h.view();
    let ghost mut taken: Option<SessionWindow> = None;
    if h.workspace.is_none() && h.slot.is_none() {
        if let Some(sess) = session {
            let entry = sess.take_hint(app_id, title);
            proof {
                taken = entry;
            }
            if let Some(e) = entry {
                h.workspace = Some((e.workspace_col, e.workspace_row));
                if let Some(n) = &e.slot {
                    h.slot = parse_slot(n.as_str());
                }
            }
        }
    }
    assert(h.view() == with_session(h3, taken));
    let ghost h4 = h.view();
    let decided: &'static str;
    if h.state.is_none() && h.slot.is_none() && h.workspace.is_none() {
        let existing = find_same_app_slot(g, app_id);
        if str_eq(same_app_policy, "stack-with-focused") && existing.is_some() {
            h.slot = existing;
            decided = "same_app";
        } else {
            decided = "default";
        }
    } else {
        decided = "rule";
    }
    proof {
        reveal_strlit("same_app");
        reveal_strlit("default");
        reveal_strlit("rule");
    }
    assert((h.view(), decided@) == with_same_app(h4, *g, app_id@, same_app_policy@));
    proof {
        if h3.workspace is None && h3.slot is None && (*old(session)) is Some {
            assert((*session) is Some);
            assert(session.unwrap().version == old(session).unwrap().version);
            assert(took_hint(old(session).unwrap().windows@, session.unwrap().windows@, app_id@, title@, taken));
        } else {
            assert(*session == *old(session));
        }
    }
    let ghost h5 = h.view();
    h.pid = pid;
    let pat = find_swallow_pattern(rules, app_id, title);
    if let (Some(pat), Some(_), Some(pp)) = (pat, pid, ppid) {
        if let Some(i) = find_swallow_victim(g, pp, pat.as_str()) {
            let v = &g.windows[i];
            if v.current_slot.is_some() {
                h.slot = v.current_slot;
                h.workspace = Some(v.workspace);
                h.swallows = Some(v.id);
            }
        }
    }
    assert(h.view() == with_swallow(h5, *g, rules@, app_id@, title@, pid, ppid));
    (h, decided)
}

// ─── After the placement ─────────────────────────────────────────────────────

/// A slot's name, or nothing.
pub open spec fn opt_slot_name(s: Option<Slot>) -> Seq<char> {
    match s {
        Some(s) => slot_name_spec(s),
        None => ""@,
    }
}

fn opt_slot_string(s: Option<Slot>) -> (r: String)
    ensures
        r@ == opt_slot_name(s),
{
    match s {
        Some(s) => String::from_str(slot_name(s)),
        None => {
            proof {
                reveal_strlit("");
            }
            String::from_str("")
        },
    }
}

/// The events of a window `w` just opened: opened, placed (with what
/// decided the placement), then the slot and state adaptations that the
/// conflict resolution made.
pub open spec fn opened_events(w: Window, app_id: Seq<char>, decided: Seq<char>, res: AddWindowResult) -> Seq<EventV> {
    let id = res.id;
    let slot = opt_slot_name(w.current_slot);
    seq![
        EventV::WindowOpened {
            id,
            app_id,
            workspace_col: w.workspace.0,
            workspace_row: w.workspace.1,
            state: state_name_spec(w.current_state),
            slot,
        },
        EventV::WindowPlaced { id, policy_matched: decided, slot_assigned: slot },
    ] + match res.slot_adapted {
        Some((a, b)) => seq![EventV::WindowSlotAdapted { id, requested: slot_name_spec(a), actual: slot_name_spec(b) }],
        None => Seq::empty(),
    } + match res.state_adapted {
        Some((a, b, s)) => seq![
            EventV::WindowStateAdapted {
                id,
                requested_state: state_name_spec(a),
                actual_state: state_name_spec(b),
                actual_slot: opt_slot_name(s),
            },
        ],
        None => Seq::empty(),
    }
}

/// Focus-steal prevention blocks the focus that window `id` took on
/// opening: the prevention is on, another window had focus, the window
/// neither asked not to be focused nor may steal focus, and it has focus.
pub open spec fn steal_blocked(g: Grid, id: WindowId, prevention: bool, prev: Option<WindowId>, no_focus_hint: bool) -> bool {
    &&& prevention
    &&& prev is Some
    &&& !no_focus_hint
    &&& !(g.has_window(id) && g.win(id).steal_focus)
    &&& g.focused_window == Some(id)
}

impl Grid {
    /// Hand the focus back to `prev` and mark window `id` urgent.
    pub fn block_focus_steal(&mut self, id: WindowId, prev: Option<WindowId>)
        requires
            old(self).wf(),
        ensures
            final(self).wf(),
            final(self).focused_window == prev,
            old(self).has_window(id) ==> final(self).windows@ == old(self).windows@.update(
                old(self).win_index(id),
                Window { is_urgent: true, ..old(self).win(id) },
            ),
            !old(self).has_window(id) ==> final(self).windows@ == old(self).windows@,
            final(self).workspaces@ == old(self).workspaces@,
            final(self).focused == old(self).focused,
            final(self).history@ == old(self).history@,
            final(self).forward_history@ == old(self).forward_history@,
            final(self).pending_configures@ == old(self).pending_configures@,
            final(self).settings_same(old(self)),
    {
        self.focused_window = prev;
        if let Some(i) = self.find_window(id) {
            self.windows[i].is_urgent = true;
            proof {
                assert(self.windows@ =~= old(self).windows@.update(
                    i as int,
                    Window { is_urgent: true, ..old(self).win(id) },
                ));
                assert(self.win_keys() =~= old(self).win_keys());
            }
        }
        proof {
            assert(self.win_keys() =~= old(self).win_keys());
            Grid::lemma_wf_windows_only(old(self), self);
        }
    }
}

fn opening_events(w: &Window, app_id: &str, decided: &str, res: &AddWindowResult) -> (events: Vec<Event>)
    ensures
        events@.map_values(|e: Event| event_view(e)) == opened_events(*w, app_id@, decided@, *res),
{
    let id = res.id;
    let mut events: Vec<Event> = Vec::new();
    let slot = opt_slot_string(w.current_slot);
    events.push(Event::WindowOpened {
        id,
        app_id: String::from_str(app_id),
        workspace_col: w.workspace.0,
        workspace_row: w.workspace.1,
        state: String::from_str(state_name(w.current_state)),
        slot: slot.clone(),
    });
    events.push(Event::WindowPlaced { id, policy_matched: String::from_str(decided), slot_assigned: slot });
    if let Some((a, b)) = res.slot_adapted {
        events.push(Event::WindowSlotAdapted {
            id,
            requested: String::from_str(slot_name(a)),
            actual: String::from_str(slot_name(b)),
        });
    }
    if let Some((a, b, s)) = res.state_adapted {
        events.push(Event::WindowStateAdapted {
            id,
            requested_state: String::from_str(state_name(a)),
            actual_state: String::from_str(state_name(b)),
            actual_slot: opt_slot_string(s),
        });
    }
    proof {
        assert(events@.map_values(|e: Event| event_view(e)) =~= opened_events(*w, app_id@, decided@, *res));
    }
    events
}

/// Record the app_id and title of window `id`; its position, if it exists.
fn record_opened(g: &mut Grid, id: WindowId, app_id: &str, title: &str) -> (r: Option<usize>)
    requires
        old(g).wf(),
    ensures
        final(g).wf(),
        match r {
            Some(i) => {
                let fw = final(g).windows@[i as int];
                &&& old(g).has_window(id)
                &&& i == old(g).win_index(id)
                &&& final(g).has_window(id)
                &&& i == final(g).win_index(id)
                &&& final(g).windows@ == old(g).windows@.update(i as int, fw)
                &&& fw == (Window { app_id: fw.app_id, title: fw.title, ..old(g).win(id) })
                &&& fw.app_id@ == app_id@
                &&& fw.title@ == title@
            },
            None => !old(g).has_window(id) && final(g).windows@ == old(g).windows@,
        },
        final(g).workspaces@ == old(g).workspaces@,
        final(g).focused == old(g).focused,
        final(g).focused_window == old(g).focused_window,
        final(g).history@ == old(g).history@,
        final(g).forward_history@ == old(g).forward_history@,
        final(g).pending_configures@ == old(g).pending_configures@,
        final(g).settings_same(old(g)),
{
    let ghost g0 = *g;
    g.update_window_metadata(id, String::from_str(app_id), String::from_str(title));
    let ghost g1 = *g;
    let i = match g.find_window(id) {
        Some(i) => i,
        None => {
            proof {
                if g0.has_window(id) {
                    let k = g0.win_index(id);
                    assert(g1.windows@[k].id == id);
                }
            }
            return None;
        },
    };
    proof {
        let k = g0.win_index(id);
        if g0.has_window(id) {
            if i as int != k {
                assert(g0.windows@[i as int] == g1.windows@[i as int]);
            }
        }
        g0.lemma_index_unique(i as int, id);
    }
    Some(i)
}

/// After a new toplevel is placed (`res` from `add_window`): record its
/// app_id and title, give the events of its opening, and block a focus
/// steal (focus back to `prev_focused`, the window marked urgent, an
/// urgent event).
pub fn finish_new_window(
    g: &mut Grid,
    res: &AddWindowResult,
    app_id: &str,
    title: &str,
    decided: &str,
    focus_steal_prevention: bool,
    prev_focused: Option<WindowId>,
    no_focus_hint: bool,
) -> (events: Vec<Event>)
    requires
        old(g).wf(),
    ensures
        final(g).wf(),
        old(g).has_window(res.id) ==> {
            let k = old(g).win_index(res.id);
            let w = old(g).win(res.id);
            let fw = final(g).windows@[k];
            let blocked = steal_blocked(*old(g), res.id, focus_steal_prevention, prev_focused, no_focus_hint);
            &&& final(g).windows@ == old(g).windows@.update(k, fw)
            &&& fw == (Window { app_id: fw.app_id, title: fw.title, is_urgent: blocked || w.is_urgent, ..w })
            &&& fw.app_id@ == app_id@
            &&& fw.title@ == title@
            &&& events@.map_values(|e: Event| event_view(e)) == opened_events(w, app_id@, decided@, *res) + if blocked {
                seq![EventV::Urgent { id: res.id }]
            } else {
                Seq::empty()
            }
            &&& final(g).focused_window == if blocked {
                prev_focused
            } else {
                old(g).focused_window
            }
        },
        !old(g).has_window(res.id) ==> events@.len() == 0 && final(g).windows@ == old(g).windows@
            && final(g).focused_window == old(g).focused_window,
        final(g).workspaces@ == old(g).workspaces@,
        final(g).focused == old(g).focused,
        final(g).pending_configures@ == old(g).pending_configures@,
        final(g).settings_same(old(g)),
{
    let id = res.id;
    let i = match record_opened(g, id, app_id, title) {
        Some(i) => i,
        None => return Vec::new(),
    };
    let mut events = opening_events(&g.windows[i], app_id, decided, res);
    let steal_allowed = g.windows[i].steal_focus;
    if focus_steal_prevention && prev_focused.is_some() && !no_focus_hint && !steal_allowed && g.focused_window
        == Some(id) {
        g.block_focus_steal(id, prev_focused);
        events.push(Event::Urgent { id });
    }
    events
}

} // verus!
