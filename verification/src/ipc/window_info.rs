//! Answers to the window queries (`windows`, `activewindow`) and the
//! `setprop` command.
use vstd::prelude::*;
use vstd::string::StrSliceExecFns;

use super::commands::{bool_or, bool_or_exec, slot_name, slot_name_spec, state_name, state_name_spec};
use super::queries::{join_strings, joined, push_bool};
use crate::grid::window::{Rect, Slot, WindowId};
use crate::grid::{Grid, Window};
use crate::text::{bool_text, dec, dec_signed, parse_u64, parse_unsigned, push_dec, push_signed, str_eq, views};
use crate::toplevel::opt_view;

verus! {

// ─── Pieces of a window's description ────────────────────────────────────────

/// `s` with each `"` written as `\"`.
pub open spec fn esc_quotes(s: Seq<char>) -> Seq<char>
    decreases s.len(),
{
    if s.len() == 0 {
        Seq::empty()
    } else {
        esc_quotes(s.drop_last()) + if s.last() == '"' {
            seq!['\\', '"']
        } else {
            seq![s.last()]
        }
    }
}

/// Append `s` with each `"` written as `\"`.
pub fn push_escaped(out: &mut String, s: &str)
    ensures
        final(out)@ == old(out)@ + esc_quotes(s@),
{
    let n = s.unicode_len();
    let mut i: usize = 0;
    while i < n
        invariant
            n == s@.len(),
            i <= n,
            out@ == old(out)@ + esc_quotes(s@.take(i as int)),
        decreases n - i,
    {
        let ghost before = out@;
        let c = s.get_char(i);
        assert(s@.take(i + 1).drop_last() =~= s@.take(i as int));
        assert(s@.take(i + 1).last() == c);
        if c == '"' {
            out.append("\\\"");
            proof {
                reveal_strlit("\\\"");
            }
        } else {
            let one = s.substring_char(i, i + 1);
            out.append(one);
            assert(one@ =~= seq![c]);
        }
        assert(out@ =~= old(out)@ + esc_quotes(s@.take(i + 1)));
        i += 1;
    }
    assert(s@.take(n as int) =~= s@);
}

/// A slot as JSON: its name in quotes, or `null`.
pub open spec fn slot_json(s: Option<Slot>) -> Seq<char> {
    match s {
        Some(x) => "\""@ + slot_name_spec(x) + "\""@,
        None => "null"@,
    }
}

/// A process id as JSON: the number, or `null`.
pub open spec fn pid_json(p: Option<u32>) -> Seq<char> {
    match p {
        Some(v) => dec(v as nat),
        None => "null"@,
    }
}

/// A shader path as JSON: the path in quotes with `"` escaped, or `null`.
pub open spec fn shader_json(s: Option<Seq<char>>) -> Seq<char> {
    match s {
        Some(t) => "\""@ + esc_quotes(t) + "\""@,
        None => "null"@,
    }
}

fn push_slot_json(out: &mut String, s: Option<Slot>)
    ensures
        final(out)@ == old(out)@ + slot_json(s),
{
    match s {
        Some(x) => {
            out.append("\"");
            out.append(slot_name(x));
            out.append("\"");
        },
        None => out.append("null"),
    }
    assert(out@ =~= old(out)@ + slot_json(s));
}

/// The opacity text of window `id` in `table`: the first entry for `id`,
/// else `1` (opaque).
pub open spec fn opacity_of(table: Seq<(WindowId, String)>, id: WindowId) -> Seq<char>
    decreases table.len(),
{
    if table.len() == 0 {
        "1"@
    } else if table[0].0 == id {
        table[0].1@
    } else {
        opacity_of(table.drop_first(), id)
    }
}

fn opacity_text(table: &Vec<(WindowId, String)>, id: WindowId) -> (r: &str)
    ensures
        r@ == opacity_of(table@, id),
{
    let mut i: usize = 0;
    assert(table@.skip(0) =~= table@);
    while i < table.len()
        invariant
            i <= table@.len(),
            opacity_of(table@.skip(i as int), id) == opacity_of(table@, id),
        decreases table.len() - i,
    {
        assert(table@.skip(i as int)[0] == table@[i as int]);
        if table[i].0 == id {
            return table[i].1.as_str();
        }
        assert(table@.skip(i as int).drop_first() =~= table@.skip(i + 1));
        i += 1;
    }
    assert(table@.skip(i as int).len() == 0);
    "1"
}

/// The rectangle a window is shown in, or all zeros when it has none.
pub open spec fn geometry_of(g: Grid, w: Window) -> Rect {
    match g.rect_of(w) {
        Some(r) => r,
        None => Rect { x: 0, y: 0, w: 0, h: 0 },
    }
}

// ─── One window ──────────────────────────────────────────────────────────────

/// The start of a window's JSON object: id, app id, title and cell.
pub open spec fn window_json_ids(w: Window) -> Seq<char> {
    "{\"id\":"@ + dec(w.id as nat) + ",\"app_id\":\""@ + w.app_id@ + "\",\"title\":\""@ + esc_quotes(w.title@)
        + "\",\"workspace\":{\"col\":"@ + dec(w.workspace.0 as nat) + ",\"row\":"@ + dec(w.workspace.1 as nat)
}

/// The states, slots and stack index of a window's JSON object.
pub open spec fn window_json_states(w: Window) -> Seq<char> {
    ",\"monitor\":\"winit\"},\"current_state\":\""@ + state_name_spec(w.current_state) + "\",\"requested_state\":\""@
        + state_name_spec(w.requested_state) + "\",\"current_slot\":"@ + slot_json(w.current_slot)
        + ",\"requested_slot\":"@ + slot_json(w.requested_slot) + ",\"stack_index\":"@ + dec(w.stack_index as nat)
}

/// The first half of a window's JSON object, up to its stack index.
pub open spec fn window_json_head(w: Window) -> Seq<char> {
    window_json_ids(w) + window_json_states(w)
}

/// The geometry part of a window's JSON object.
pub open spec fn geometry_json(geom: Rect) -> Seq<char> {
    ",\"geometry\":["@ + dec_signed(geom.x as int) + ","@ + dec_signed(geom.y as int) + ","@ + dec_signed(geom.w as int)
        + ","@ + dec_signed(geom.h as int) + "]"@
}

/// The rest of a window's JSON object.
pub open spec fn window_json_tail(w: Window, geom: Rect, opacity: Seq<char>) -> Seq<char> {
    geometry_json(geom) + ",\"is_urgent\":"@ + bool_text(w.is_urgent) + ",\"pid\":"@ + pid_json(w.pid) + ",\"opacity\":"@
        + opacity + ",\"shader\":"@ + shader_json(opt_view(w.shader)) + ",\"xwayland\":false}"@
}

/// A window as a line of text.
pub open spec fn window_line(w: Window) -> Seq<char> {
    "id="@ + dec(w.id as nat) + " app_id="@ + w.app_id@ + " title="@ + w.title@ + " ws="@ + dec(w.workspace.0 as nat)
        + ","@ + dec(w.workspace.1 as nat) + " state="@ + state_name_spec(w.current_state) + " slot="@ + match w.current_slot {
        Some(s) => slot_name_spec(s),
        None => "-"@,
    } + if w.is_urgent {
        " urgent"@
    } else {
        Seq::empty()
    }
}

/// Window `w` of grid `g` as JSON or as a line of text; `opacity` is the
/// text of its opacity.
pub open spec fn window_text(json: bool, g: Grid, w: Window, opacity: Seq<char>) -> Seq<char> {
    if json {
        window_json_head(w) + window_json_tail(w, geometry_of(g, w), opacity)
    } else {
        window_line(w)
    }
}

#[verifier::spinoff_prover]
fn push_window_json_ids(out: &mut String, w: &Window)
    ensures
        final(out)@ == old(out)@ + window_json_ids(*w),
{
    out.append("{\"id\":");
    push_dec(out, w.id);
    out.append(",\"app_id\":\"");
    out.append(w.app_id.as_str());
    out.append("\",\"title\":\"");
    push_escaped(out, w.title.as_str());
    out.append("\",\"workspace\":{\"col\":");
    push_dec(out, w.workspace.0 as u64);
    out.append(",\"row\":");
    push_dec(out, w.workspace.1 as u64);
    assert(out@ =~= old(out)@ + window_json_ids(*w));
}

#[verifier::spinoff_prover]
fn push_window_json_states(out: &mut String, w: &Window)
    ensures
        final(out)@ == old(out)@ + window_json_states(*w),
{
    out.append(",\"monitor\":\"winit\"},\"current_state\":\"");
    out.append(state_name(w.current_state));
    out.append("\",\"requested_state\":\"");
    out.append(state_name(w.requested_state));
    out.append("\",\"current_slot\":");
    push_slot_json(out, w.current_slot);
    out.append(",\"requested_slot\":");
    push_slot_json(out, w.requested_slot);
    out.append(",\"stack_index\":");
    push_dec(out, w.stack_index as u64);
    assert(out@ =~= old(out)@ + window_json_states(*w));
}

fn push_window_json_head(out: &mut String, w: &Window)
    ensures
        final(out)@ == old(out)@ + window_json_head(*w),
{
    push_window_json_ids(out, w);
    push_window_json_states(out, w);
    assert(out@ =~= old(out)@ + window_json_head(*w));
}

#[verifier::spinoff_prover]
fn push_geometry_json(out: &mut String, geom: Rect)
    ensures
        final(out)@ == old(out)@ + geometry_json(geom),
{
    out.append(",\"geometry\":[");
    push_signed(out, geom.x);
    out.append(",");
    push_signed(out, geom.y);
    out.append(",");
    push_signed(out, geom.w);
    out.append(",");
    push_signed(out, geom.h);
    out.append("]");
    assert(out@ =~= old(out)@ + geometry_json(geom));
}

fn push_pid_json(out: &mut String, pid: Option<u32>)
    ensures
        final(out)@ == old(out)@ + pid_json(pid),
{
    match pid {
        Some(p) => push_dec(out, p as u64),
        None => out.append("null"),
    }
    assert(out@ =~= old(out)@ + pid_json(pid));
}

fn push_shader_json(out: &mut String, shader: &Option<String>)
    ensures
        final(out)@ == old(out)@ + shader_json(opt_view(*shader)),
{
    match shader {
        Some(t) => {
            out.append("\"");
            push_escaped(out, t.as_str());
            out.append("\"");
        },
        None => out.append("null"),
    }
    assert(out@ =~= old(out)@ + shader_json(opt_view(*shader)));
}

#[verifier::spinoff_prover]
#[verifier::rlimit(30)]
fn push_window_json_tail(out: &mut String, w: &Window, geom: Rect, opacity: &str)
    ensures
        final(out)@ == old(out)@ + window_json_tail(*w, geom, opacity@),
{
    push_geometry_json(out, geom);
    out.append(",\"is_urgent\":");
    push_bool(out, w.is_urgent);
    out.append(",\"pid\":");
    push_pid_json(out, w.pid);
    out.append(",\"opacity\":");
    out.append(opacity);
    out.append(",\"shader\":");
    push_shader_json(out, &w.shader);
    out.append(",\"xwayland\":false}");
    assert(out@ =~= old(out)@ + window_json_tail(*w, geom, opacity@));
}

fn push_window_line_ids(out: &mut String, w: &Window)
    ensures
        final(out)@ == old(out)@ + "id="@ + dec(w.id as nat) + " app_id="@ + w.app_id@ + " title="@ + w.title@ + " ws="@
            + dec(w.workspace.0 as nat) + ","@ + dec(w.workspace.1 as nat),
{
    out.append("id=");
    push_dec(out, w.id);
    out.append(" app_id=");
    out.append(w.app_id.as_str());
    out.append(" title=");
    out.append(w.title.as_str());
    out.append(" ws=");
    push_dec(out, w.workspace.0 as u64);
    out.append(",");
    push_dec(out, w.workspace.1 as u64);
    assert(out@ =~= old(out)@ + "id="@ + dec(w.id as nat) + " app_id="@ + w.app_id@ + " title="@ + w.title@ + " ws="@
        + dec(w.workspace.0 as nat) + ","@ + dec(w.workspace.1 as nat));
}

#[verifier::spinoff_prover]
fn push_window_line(out: &mut String, w: &Window)
    ensures
        final(out)@ == old(out)@ + window_line(*w),
{
    push_window_line_ids(out, w);
    let ghost mid = out@;
    out.append(" state=");
    out.append(state_name(w.current_state));
    out.append(" slot=");
    match w.current_slot {
        Some(s) => out.append(slot_name(s)),
        None => out.append("-"),
    }
    if w.is_urgent {
        out.append(" urgent");
    }
    assert(out@ =~= old(out)@ + window_line(*w));
}

/// Window `i` of the list as JSON or text, its opacity taken from `table`.
fn window_entry(json: bool, grid: &Grid, i: usize, table: &Vec<(WindowId, String)>) -> (r: String)
    requires
        grid.wf(),
        json ==> grid.layout_ok(),
        i < grid.windows@.len(),
    ensures
        r@ == window_text(json, *grid, grid.windows@[i as int], opacity_of(table@, grid.windows@[i as int].id)),
{
    let w = &grid.windows[i];
    let mut s = String::new();
    if json {
        let geom = match grid.rect_at(i) {
            Some(r) => r,
            None => Rect::new(0, 0, 0, 0),
        };
        push_window_json_head(&mut s, w);
        push_window_json_tail(&mut s, w, geom, opacity_text(table, w.id));
    } else {
        push_window_line(&mut s, w);
    }
    assert(s@ =~= window_text(json, *grid, grid.windows@[i as int], opacity_of(table@, grid.windows@[i as int].id)));
    s
}

// ─── windows / activewindow ──────────────────────────────────────────────────

/// The entries of the answer to `windows`, in list order.
pub open spec fn window_entries(json: bool, g: Grid, table: Seq<(WindowId, String)>) -> Seq<Seq<char>> {
    g.windows@.map_values(|w: Window| window_text(json, g, w, opacity_of(table, w.id)))
}

/// The answer to `windows`: every window, in list order.
pub open spec fn windows_text(json: bool, g: Grid, table: Seq<(WindowId, String)>) -> Seq<char> {
    if json {
        "["@ + joined(window_entries(json, g, table), ","@) + "]"@
    } else {
        joined(window_entries(json, g, table), "\n"@)
    }
}

/// Answer `windows`; `table` holds the opacity of each window (as text)
/// that is not opaque.
pub fn windows(json: bool, grid: &Grid, table: &Vec<(WindowId, String)>) -> (r: String)
    requires
        grid.wf(),
        json ==> grid.layout_ok(),
    ensures
        r@ == windows_text(json, *grid, table@),
{
    let mut lines: Vec<String> = Vec::new();
    let mut i: usize = 0;
    while i < grid.windows.len()
        invariant
            grid.wf(),
            json ==> grid.layout_ok(),
            i <= grid.windows@.len(),
            views(lines@) == window_entries(json, *grid, table@).take(i as int),
        decreases grid.windows.len() - i,
    {
        let e = window_entry(json, grid, i, table);
        let ghost before = lines@;
        let ghost all = window_entries(json, *grid, table@);
        lines.push(e);
        proof {
            assert(views(lines@) =~= views(before).push(e@));
            assert(all[i as int] == e@);
            assert(all.take(i + 1) =~= all.take(i as int).push(all[i as int]));
        }
        i += 1;
    }
    assert(window_entries(json, *grid, table@).take(i as int) =~= window_entries(json, *grid, table@));
    if json {
        let mut s = String::new();
        s.append("[");
        let body = join_strings(&lines, ",");
        s.append(body.as_str());
        s.append("]");
        assert(s@ =~= windows_text(json, *grid, table@));
        s
    } else {
        join_strings(&lines, "\n")
    }
}

/// The answer to `activewindow`: the focused window, or `null` / `no
/// focused window` when there is none.
pub open spec fn active_window_text(json: bool, g: Grid, table: Seq<(WindowId, String)>) -> Seq<char> {
    match g.focused_window {
        Some(id) if g.has_window(id) => window_text(json, g, g.win(id), opacity_of(table, id)),
        _ => if json {
            "null"@
        } else {
            "no focused window"@
        },
    }
}

/// Answer `activewindow`.
pub fn active_window(json: bool, grid: &Grid, table: &Vec<(WindowId, String)>) -> (r: String)
    requires
        grid.wf(),
        json ==> grid.layout_ok(),
    ensures
        r@ == active_window_text(json, *grid, table@),
{
    let none = if json {
        "null"
    } else {
        "no focused window"
    };
    match grid.focused_window {
        Some(id) => match grid.find_window(id) {
            Some(i) => window_entry(json, grid, i, table),
            None => String::from_str(none),
        },
        None => String::from_str(none),
    }
}

// ─── setprop ─────────────────────────────────────────────────────────────────

/// The first position at or after `i` holding a space (or the end).
pub open spec fn space_from(s: Seq<char>, i: int) -> int
    decreases s.len() - i,
{
    if i >= s.len() {
        s.len() as int
    } else if s[i] == ' ' {
        i
    } else {
        space_from(s, i + 1)
    }
}

/// `<id> <prop> <value>`: the first two space-separated words and the rest
/// (empty when missing), as `splitn(3, ' ')` gives them.
pub open spec fn setprop_parts(s: Seq<char>) -> (Seq<char>, Seq<char>, Seq<char>) {
    let k1 = space_from(s, 0);
    if k1 >= s.len() {
        (s, Seq::empty(), Seq::empty())
    } else {
        let k2 = space_from(s, k1 + 1);
        if k2 >= s.len() {
            (s.subrange(0, k1), s.subrange(k1 + 1, s.len() as int), Seq::empty())
        } else {
            (s.subrange(0, k1), s.subrange(k1 + 1, k2), s.subrange(k2 + 1, s.len() as int))
        }
    }
}

fn space_from_exec(s: &str, i: usize) -> (r: usize)
    requires
        i <= s@.len(),
    ensures
        r == space_from(s@, i as int),
        i <= r <= s@.len(),
{
    let n = s.unicode_len();
    let mut j = i;
    while j < n
        invariant
            n == s@.len(),
            i <= j <= n,
            space_from(s@, j as int) == space_from(s@, i as int),
        decreases n - j,
    {
        if s.get_char(j) == ' ' {
            return j;
        }
        j += 1;
    }
    j
}

fn split_setprop(s: &str) -> (r: (&str, &str, &str))
    ensures
        (r.0@, r.1@, r.2@) == setprop_parts(s@),
{
    let n = s.unicode_len();
    let k1 = space_from_exec(s, 0);
    if k1 >= n {
        proof {
            reveal_strlit("");
        }
        assert(s@.subrange(0, n as int) =~= s@);
        return (s, "", "");
    }
    let k2 = space_from_exec(s, k1 + 1);
    if k2 >= n {
        proof {
            reveal_strlit("");
        }
        return (s.substring_char(0, k1), s.substring_char(k1 + 1, n), "");
    }
    (s.substring_char(0, k1), s.substring_char(k1 + 1, k2), s.substring_char(k2 + 1, n))
}

/// Window `w` after `setprop <prop> <value>`, for the properties this
/// library holds (all but `opacity`); None for any other property.
pub open spec fn with_prop(w: Window, prop: Seq<char>, value: Seq<char>) -> Option<Window> {
    if prop == "is_urgent"@ {
        Some(Window { is_urgent: bool_or(value, false), ..w })
    } else if prop == "sticky"@ || prop == "pin"@ {
        Some(Window { sticky: bool_or(value, false), ..w })
    } else if prop == "no_animations"@ {
        Some(Window { no_animations: bool_or(value, false), ..w })
    } else if prop == "steal_focus"@ {
        Some(Window { steal_focus: bool_or(value, false), ..w })
    } else if prop == "above_total_fullscreen"@ {
        Some(Window { above_total_fullscreen: bool_or(value, true), ..w })
    } else if prop == "border_color"@ {
        Some(w)
    } else if prop == "shader"@ {
        Some(w)
    } else {
        None
    }
}

/// The text value of `border_color` / `shader` after `setprop`: None for
/// an empty value.
pub open spec fn text_prop(value: Seq<char>) -> Option<Seq<char>> {
    if value.len() == 0 {
        None
    } else {
        Some(value)
    }
}

/// `new` is `old` but for window `id`, which keeps its place in the list.
pub open spec fn only_window_changed(old: &Grid, new: &Grid, id: WindowId) -> bool {
    &&& new.windows@.len() == old.windows@.len()
    &&& forall|k: int| 0 <= k < old.windows@.len() && k != old.win_index(id) ==> new.windows@[k] == old.windows@[k]
    &&& new.workspaces@ == old.workspaces@
    &&& new.focused == old.focused
    &&& new.focused_window == old.focused_window
    &&& new.history@ == old.history@
    &&& new.forward_history@ == old.forward_history@
    &&& new.pending_configures@ == old.pending_configures@
    &&& new.settings_same(old)
}

/// Window `nw` is `w` after `setprop <prop> <value>` (`with_prop(w, ..)` is
/// `Some(w2)`); `border_color` and `shader` take the value, or none when it
/// is empty.
pub open spec fn prop_set(w2: Window, nw: Window, prop: Seq<char>, value: Seq<char>) -> bool {
    if prop == "border_color"@ {
        nw == Window { border_color: nw.border_color, ..w2 } && opt_view(nw.border_color) == text_prop(value)
    } else if prop == "shader"@ {
        nw == Window { shader: nw.shader, ..w2 } && opt_view(nw.shader) == text_prop(value)
    } else {
        nw == w2
    }
}

/// What `setprop` answers: a reply, or, for `opacity`, the window and the
/// value for the caller to check and keep (opacity is a float, which this
/// library does not hold).
pub enum SetpropReply {
    Text(String),
    Opacity(WindowId, String),
}

/// Reply `r` is the text `t`.
pub open spec fn replied(r: SetpropReply, t: Seq<char>) -> bool {
    r matches SetpropReply::Text(x) && x@ == t
}

/// What `setprop <rest>` does to `old`, leaving `new`, with reply `r`.
pub open spec fn setprop_done(rest: Seq<char>, old: &Grid, new: &Grid, r: SetpropReply) -> bool {
    let (id_s, prop, value) = setprop_parts(rest);
    match parse_unsigned(id_s, u64::MAX as int) {
        None => *new == *old && replied(r, "error: invalid window id"@),
        Some(id) => if !old.has_window(id as u64) {
            *new == *old && replied(r, "error: window "@ + dec(id as nat) + " not found"@)
        } else if prop == "opacity"@ {
            *new == *old && (r matches SetpropReply::Opacity(i, v) && i == id && v@ == value)
        } else {
            match with_prop(old.win(id as u64), prop, value) {
                None => *new == *old && replied(r, "error: unknown property '"@ + prop + "'"@),
                Some(w2) => {
                    &&& replied(r, "ok"@)
                    &&& only_window_changed(old, new, id as u64)
                    &&& prop_set(w2, new.windows@[old.win_index(id as u64)], prop, value)
                },
            }
        },
    }
}

fn text_value(value: &str) -> (r: Option<String>)
    ensures
        opt_view(r) == text_prop(value@),
{
    if value.unicode_len() == 0 {
        None
    } else {
        Some(String::from_str(value))
    }
}

/// Set property `prop` of `w` to `value` (any property but `opacity`);
/// whether the property is known.
fn set_window_prop(w: &mut Window, prop: &str, value: &str) -> (known: bool)
    ensures
        known == with_prop(*old(w), prop@, value@) is Some,
        known ==> prop_set(with_prop(*old(w), prop@, value@)->0, *final(w), prop@, value@),
        !known ==> *final(w) == *old(w),
{
    proof {
        reveal_strlit("is_urgent");
        reveal_strlit("sticky");
        reveal_strlit("pin");
        reveal_strlit("no_animations");
        reveal_strlit("steal_focus");
        reveal_strlit("above_total_fullscreen");
        reveal_strlit("border_color");
        reveal_strlit("shader");
        assert("is_urgent"@.len() == 9 && "pin"@.len() == 3 && "no_animations"@.len() == 13);
        assert("steal_focus"@.len() == 11 && "above_total_fullscreen"@.len() == 22 && "border_color"@.len() == 12);
        assert("sticky"@.len() == 6 && "sticky"@[1] == 't' && "shader"@.len() == 6 && "shader"@[1] == 'h');
    }
    if str_eq(prop, "is_urgent") {
        w.is_urgent = bool_or_exec(value, false);
    } else if str_eq(prop, "sticky") || str_eq(prop, "pin") {
        w.sticky = bool_or_exec(value, false);
    } else if str_eq(prop, "no_animations") {
        w.no_animations = bool_or_exec(value, false);
    } else if str_eq(prop, "steal_focus") {
        w.steal_focus = bool_or_exec(value, false);
    } else if str_eq(prop, "above_total_fullscreen") {
        w.above_total_fullscreen = bool_or_exec(value, true);
    } else if str_eq(prop, "border_color") {
        w.border_color = text_value(value);
    } else if str_eq(prop, "shader") {
        w.shader = text_value(value);
    } else {
        return false;
    }
    true
}

/// Whether `setprop` knows property `prop` (all but `opacity`).
fn is_known_prop(prop: &str) -> (r: bool)
    ensures
        forall|w: Window, v: Seq<char>| (#[trigger] with_prop(w, prop@, v) is Some) == r,
{
    str_eq(prop, "is_urgent") || str_eq(prop, "sticky") || str_eq(prop, "pin") || str_eq(prop, "no_animations")
        || str_eq(prop, "steal_focus") || str_eq(prop, "above_total_fullscreen") || str_eq(prop, "border_color")
        || str_eq(prop, "shader")
}

impl Grid {
    /// Set property `prop` of window `i` to `value` (any property but
    /// `opacity`); whether the property is known. Only that window changes.
    fn apply_prop(&mut self, i: usize, prop: &str, value: &str) -> (known: bool)
        requires
            old(self).wf(),
            i < old(self).windows@.len(),
        ensures
            final(self).wf(),
            known == with_prop(old(self).windows@[i as int], prop@, value@) is Some,
            known ==> {
                &&& *final(self) == Grid { windows: final(self).windows, ..*old(self) }
                &&& final(self).windows@ == old(self).windows@.update(i as int, final(self).windows@[i as int])
                &&& prop_set(with_prop(old(self).windows@[i as int], prop@, value@)->0, final(self).windows@[i as int],
                    prop@, value@)
            },
            !known ==> *final(self) == *old(self),
    {
        if !is_known_prop(prop) {
            assert(with_prop(old(self).windows@[i as int], prop@, value@) is None);
            return false;
        }
        let known = set_window_prop(&mut self.windows[i], prop, value);
        proof {
            assert(self.windows@ =~= old(self).windows@.update(i as int, self.windows@[i as int]));
            assert(*self == Grid { windows: self.windows, ..*old(self) });
            assert(self.win_keys() =~= old(self).win_keys());
            Grid::lemma_wf_windows_only(old(self), self);
        }
        known
    }
}

/// Run `setprop <id> <prop> <value>` on the grid.
pub fn setprop(rest: &str, grid: &mut Grid) -> (r: SetpropReply)
    requires
        old(grid).wf(),
    ensures
        final(grid).wf(),
        setprop_done(rest@, old(grid), final(grid), r),
{
    let (id_s, prop, value) = split_setprop(rest);
    let id = match parse_u64(id_s) {
        Some(v) => v,
        None => return SetpropReply::Text(String::from_str("error: invalid window id")),
    };
    let i = match grid.find_window(id) {
        Some(i) => i,
        None => {
            let mut t = String::new();
            t.append("error: window ");
            push_dec(&mut t, id);
            t.append(" not found");
            assert(t@ =~= "error: window "@ + dec(id as nat) + " not found"@);
            return SetpropReply::Text(t);
        },
    };
    if str_eq(prop, "opacity") {
        return SetpropReply::Opacity(id, String::from_str(value));
    }
    let ghost g0 = *grid;
    if grid.apply_prop(i, prop, value) {
        proof {
            assert(g0.win(id) == g0.windows@[i as int]);
            assert(only_window_changed(&g0, grid, id));
        }
        SetpropReply::Text(String::from_str("ok"))
    } else {
        let mut t = String::new();
        t.append("error: unknown property '");
        t.append(prop);
        t.append("'");
        assert(t@ =~= "error: unknown property '"@ + prop@ + "'"@);
        SetpropReply::Text(t)
    }
}

} // verus!
