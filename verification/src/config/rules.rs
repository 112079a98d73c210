//! Window rules: match windows by app_id, title, workspace and a few flags,
//! and turn the actions of the matching rules into placement hints.
use vstd::prelude::*;
use vstd::string::StrSliceExecFns;

use crate::grid::window::{Rect, Slot, WindowState};
use crate::grid::PlacementHints;
use crate::text::str_eq;

verus! {

// ─── Glob matching ───────────────────────────────────────────────────────────

/// Glob matching on characters: `*` matches any run of characters, `?`
/// any one character, every other character itself.
pub open spec fn glob_chars(pat: Seq<char>, s: Seq<char>) -> bool
    decreases pat.len() + s.len(),
{
    if pat.len() == 0 {
        s.len() == 0
    } else if pat[0] == '*' {
        glob_chars(pat.drop_first(), s) || (s.len() > 0 && glob_chars(pat, s.drop_first()))
    } else if s.len() == 0 {
        false
    } else if pat[0] == '?' || pat[0] == s[0] {
        glob_chars(pat.drop_first(), s.drop_first())
    } else {
        false
    }
}

fn glob_at(pat: &str, s: &str, i: usize, j: usize) -> (r: bool)
    requires
        i <= pat@.len(),
        j <= s@.len(),
    ensures
        r == glob_chars(pat@.skip(i as int), s@.skip(j as int)),
    decreases pat@.len() - i + s@.len() - j,
{
    let ghost p = pat@.skip(i as int);
    let ghost t = s@.skip(j as int);
    proof {
        if p.len() > 0 {
            assert(p.drop_first() =~= pat@.skip(i as int + 1));
        }
        if t.len() > 0 {
            assert(t.drop_first() =~= s@.skip(j as int + 1));
        }
    }
    if i == pat.unicode_len() {
        j == s.unicode_len()
    } else if pat.get_char(i) == '*' {
        glob_at(pat, s, i + 1, j) || (j < s.unicode_len() && glob_at(pat, s, i, j + 1))
    } else if j == s.unicode_len() {
        false
    } else if pat.get_char(i) == '?' || pat.get_char(i) == s.get_char(j) {
        glob_at(pat, s, i + 1, j + 1)
    } else {
        false
    }
}

/// Whether `s` matches the glob `pat`, character by character.
pub fn glob_match(pat: &str, s: &str) -> (r: bool)
    ensures
        r == glob_chars(pat@, s@),
{
    proof {
        assert(pat@.skip(0) =~= pat@);
        assert(s@.skip(0) =~= s@);
    }
    glob_at(pat, s, 0, 0)
}

/// `glob_match`, for the swallowing logic.
pub fn glob_match_pub(pat: &str, s: &str) -> (r: bool)
    ensures
        r == glob_chars(pat@, s@),
{
    glob_match(pat, s)
}

// ─── Title regex ─────────────────────────────────────────────────────────────

/// Whether `text` matches the regular expression `pattern`; `None` when the
/// pattern does not compile.
pub uninterp spec fn regex_match(pattern: Seq<char>, text: Seq<char>) -> Option<bool>;

/// Compiles `pattern` with `regex::Regex::new` and tests `text` with
/// `Regex::is_match`. The contract names the outcome, a function of the two
/// strings alone, and says nothing of what it is.
#[verifier::external_body]
fn title_regex_match(pattern: &str, text: &str) -> (r: Option<bool>)
    ensures
        r == regex_match(pattern@, text@),
{
    match regex::Regex::new(pattern) {
        Ok(re) => Some(re.is_match(text)),
        Err(_) => None,
    }
}

// ─── Rule ────────────────────────────────────────────────────────────────────

/// Match criteria: every criterion that is set must hold.
#[derive(Clone, Debug)]
pub struct RuleMatch {
    /// Glob matched against the window's app_id.
    pub app_id: Option<String>,
    /// Glob matched against the window's title.
    pub title: Option<String>,
    /// Regular expression matched against the window's title.
    pub title_regex: Option<String>,
    /// Only windows on this workspace [col, row].
    pub workspace: Option<[u8; 2]>,
    /// Only when the window asks for fullscreen at creation.
    pub fullscreen_request: Option<bool>,
    /// Only XWayland windows (true) or only Wayland-native ones (false).
    pub is_xwayland: Option<bool>,
}

impl Default for RuleMatch {
    fn default() -> (r: Self)
        ensures
            r.app_id is None,
            r.title is None,
            r.title_regex is None,
            r.workspace is None,
            r.fullscreen_request is None,
            r.is_xwayland is None,
    {
        RuleMatch {
            app_id: None,
            title: None,
            title_regex: None,
            workspace: None,
            fullscreen_request: None,
            is_xwayland: None,
        }
    }
}

/// Properties that a matching rule applies.
#[derive(Clone, Debug)]
pub struct RuleAction {
    /// Initial slot: "half-left" | "half-right" | "quarter-tl" | ...
    pub slot: Option<String>,
    /// Initial state: "tiled" | "floating" | "fullscreen" | "total-fullscreen"
    pub state: Option<String>,
    /// Place on this workspace [col, row].
    pub workspace: Option<[u8; 2]>,
    /// Initial floating geometry [x, y, w, h].
    pub floating_geom: Option<[i32; 4]>,
    pub no_focus: bool,
    pub pin: bool,
    /// Alias for pin.
    pub sticky: bool,
    pub no_animations: bool,
    pub no_shadow: bool,
    pub no_blur: bool,
    /// Render above TotalFullscreen on the same workspace.
    pub above_total_fullscreen: bool,
    pub shader: Option<String>,
    pub border_color: Option<String>,
    /// "server" | "client" | "none"
    pub decorations: Option<String>,
    /// "float" | "clip" | "ignore"
    pub min_size_overflow: Option<String>,
    pub allow_tearing: bool,
    /// Glob matched against the app_id of the window this one swallows.
    pub swallow: Option<String>,
    pub steal_focus: bool,
}

impl Default for RuleAction {
    fn default() -> (r: Self)
        ensures
            r.slot is None,
            r.state is None,
            r.workspace is None,
            r.floating_geom is None,
            !r.no_focus,
            !r.pin,
            !r.sticky,
            !r.no_animations,
            !r.no_shadow,
            !r.no_blur,
            r.above_total_fullscreen,
            r.shader is None,
            r.border_color is None,
            r.decorations is None,
            r.min_size_overflow is None,
            !r.allow_tearing,
            r.swallow is None,
            !r.steal_focus,
    {
        RuleAction {
            slot: None,
            state: None,
            workspace: None,
            floating_geom: None,
            no_focus: false,
            pin: false,
            sticky: false,
            no_animations: false,
            no_shadow: false,
            no_blur: false,
            above_total_fullscreen: true,
            shader: None,
            border_color: None,
            decorations: None,
            min_size_overflow: None,
            allow_tearing: false,
            swallow: None,
            steal_focus: false,
        }
    }
}

/// A `[[rule]]` entry.
#[derive(Clone, Debug)]
pub struct Rule {
    pub match_: RuleMatch,
    pub action: RuleAction,
}

impl Default for Rule {
    fn default() -> (r: Self)
        ensures
            r.match_.app_id is None,
            r.match_.title is None,
            r.match_.title_regex is None,
            r.match_.workspace is None,
            r.match_.fullscreen_request is None,
            r.match_.is_xwayland is None,
            r.action.slot is None,
            r.action.state is None,
            r.action.workspace is None,
            r.action.floating_geom is None,
            !r.action.no_focus,
            !r.action.pin,
            !r.action.sticky,
            !r.action.no_animations,
            r.action.above_total_fullscreen,
            r.action.shader is None,
            r.action.border_color is None,
            r.action.min_size_overflow is None,
            r.action.swallow is None,
            !r.action.steal_focus,
    {
        Rule { match_: RuleMatch::default(), action: RuleAction::default() }
    }
}

/// Whether the criteria `m` hold for a window, given what the title regex
/// gave (`re`; read only when `m` has a title regex): each criterion that
/// is set holds, and an invalid regex matches nothing.
pub open spec fn criteria_hold(
    m: RuleMatch,
    app_id: Seq<char>,
    title: Seq<char>,
    is_xwayland: bool,
    workspace: Option<(u8, u8)>,
    fullscreen_request: bool,
    re: Option<bool>,
) -> bool {
    &&& (m.app_id matches Some(p) ==> glob_chars(p@, app_id))
    &&& (m.title matches Some(p) ==> glob_chars(p@, title))
    &&& (m.title_regex is Some ==> re == Some(true))
    &&& (m.workspace matches Some(ws) ==> workspace == Some((ws[0], ws[1])))
    &&& (m.fullscreen_request matches Some(f) ==> fullscreen_request == f)
    &&& (m.is_xwayland matches Some(x) ==> is_xwayland == x)
}

/// What the title regex of `m` gives on `title` (nothing when `m` has none).
pub open spec fn regex_outcome(m: RuleMatch, title: Seq<char>) -> Option<bool> {
    match m.title_regex {
        Some(p) => regex_match(p@, title),
        None => None,
    }
}

impl RuleMatch {
    /// The criteria, given the outcome `re` of the title regex.
    pub fn holds_given(
        &self,
        app_id: &str,
        title: &str,
        is_xwayland: bool,
        workspace: Option<(u8, u8)>,
        fullscreen_request: bool,
        re: Option<bool>,
    ) -> (r: bool)
        ensures
            r == criteria_hold(*self, app_id@, title@, is_xwayland, workspace, fullscreen_request, re),
    {
        if let Some(p) = &self.app_id {
            if !glob_match(p.as_str(), app_id) {
                return false;
            }
        }
        if let Some(p) = &self.title {
            if !glob_match(p.as_str(), title) {
                return false;
            }
        }
        if self.title_regex.is_some() {
            match re {
                Some(true) => {},
                _ => {
                    return false;
                },
            }
        }
        if let Some(ws) = self.workspace {
            match workspace {
                Some((wc, wr)) => {
                    if ws[0] != wc || ws[1] != wr {
                        return false;
                    }
                },
                None => {
                    return false;
                },
            }
        }
        if let Some(req) = self.fullscreen_request {
            if fullscreen_request != req {
                return false;
            }
        }
        if let Some(x) = self.is_xwayland {
            if is_xwayland != x {
                return false;
            }
        }
        true
    }
}

impl Rule {
    /// Whether this rule matches the given window: all criteria that are
    /// set must hold (AND); an invalid title regex matches nothing.
    pub fn matches(
        &self,
        app_id: &str,
        title: &str,
        is_xwayland: bool,
        workspace: Option<(u8, u8)>,
        fullscreen_request: bool,
    ) -> (r: bool)
        ensures
            r == criteria_hold(
                self.match_,
                app_id@,
                title@,
                is_xwayland,
                workspace,
                fullscreen_request,
                regex_outcome(self.match_, title@),
            ),
    {
        let re = match &self.match_.title_regex {
            Some(p) => title_regex_match(p.as_str(), title),
            None => None,
        };
        self.match_.holds_given(app_id, title, is_xwayland, workspace, fullscreen_request, re)
    }
}

} // verus!
