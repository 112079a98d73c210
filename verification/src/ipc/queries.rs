//! Answers to the grid, workspace and monitor queries and the `grid resize`
//! command, as plain text or as JSON.
use vstd::prelude::*;
use vstd::string::StrSliceExecFns;

use super::commands::{split_verb, split_verb_spec};
use crate::config::types::Config;
use crate::grid::resize::{clamp, max, min, relocate_upto};
use crate::grid::{Grid, Window};
use crate::text::{bool_text, dec, dec_signed, is_space, is_space_char, parse_u8, parse_unsigned, push_dec, push_signed, str_eq, trim, trimmed, views};

verus! {

// ─── Joining and small pieces of text ────────────────────────────────────────

/// The parts joined with `sep` between neighbours.
pub open spec fn joined(parts: Seq<Seq<char>>, sep: Seq<char>) -> Seq<char>
    decreases parts.len(),
{
    if parts.len() == 0 {
        Seq::empty()
    } else if parts.len() == 1 {
        parts[0]
    } else {
        joined(parts.drop_last(), sep) + sep + parts.last()
    }
}

/// The strings of `parts` joined with `sep`.
pub fn join_strings(parts: &Vec<String>, sep: &str) -> (r: String)
    ensures
        r@ == joined(views(parts@), sep@),
{
    let mut out = String::new();
    let mut i: usize = 0;
    while i < parts.len()
        invariant
            i <= parts@.len(),
            out@ == joined(views(parts@.take(i as int)), sep@),
        decreases parts.len() - i,
    {
        let ghost prev = views(parts@.take(i as int));
        let ghost next = views(parts@.take(i + 1));
        assert(next.drop_last() =~= prev);
        assert(next.last() == parts@[i as int]@);
        if i > 0 {
            out.append(sep);
        }
        out.append(parts[i].as_str());
        proof {
            if i == 0 {
                assert(next.len() == 1);
            }
            assert(out@ =~= joined(next, sep@));
        }
        i += 1;
    }
    assert(parts@.take(parts@.len() as int) =~= parts@);
    out
}

pub(crate) fn push_bool(s: &mut String, b: bool)
    ensures
        final(s)@ == old(s)@ + bool_text(b),
{
    if b {
        s.append("true");
    } else {
        s.append("false");
    }
}

/// A hexadecimal digit, lower case.
pub open spec fn hex_digit(d: int) -> char {
    if d < 10 {
        (('0' as int) + d) as char
    } else {
        (('a' as int) + d - 10) as char
    }
}

/// How serde_json writes character `c` inside a JSON string: `"` and `\`
/// escaped with a backslash, the control characters U+0000..U+001F as
/// `\b \t \n \f \r` or `\u00XX`, every other character itself.
pub open spec fn json_char(c: char) -> Seq<char> {
    if c == '"' {
        seq!['\\', '"']
    } else if c == '\\' {
        seq!['\\', '\\']
    } else if c == '\u{8}' {
        seq!['\\', 'b']
    } else if c == '\t' {
        seq!['\\', 't']
    } else if c == '\n' {
        seq!['\\', 'n']
    } else if c == '\u{c}' {
        seq!['\\', 'f']
    } else if c == '\r' {
        seq!['\\', 'r']
    } else if (c as int) < 0x20 {
        seq!['\\', 'u', '0', '0', hex_digit((c as int) / 16), hex_digit((c as int) % 16)]
    } else {
        seq![c]
    }
}

/// The characters of `s`, each written as `json_char` writes it.
pub open spec fn json_escaped(s: Seq<char>) -> Seq<char>
    decreases s.len(),
{
    if s.len() == 0 {
        Seq::empty()
    } else {
        json_escaped(s.drop_last()) + json_char(s.last())
    }
}

/// `s` as a JSON string literal: in double quotes, escaped.
pub open spec fn json_quoted(s: Seq<char>) -> Seq<char> {
    seq!['"'] + json_escaped(s) + seq!['"']
}

/// Whether serde_json's `to_string` fails on the string `s` (it can fail
/// only through the writer it fills).
pub uninterp spec fn json_fails(s: Seq<char>) -> bool;

/// Calls `serde_json::to_string` on a string slice. Claimed, as its source
/// (`format_escaped_str` and its escape table) shows: on success the text is
/// `json_quoted(s)`; whether it fails is a function of `s`, named
/// `json_fails` (the error can come only from the in-memory writer, which
/// its documentation does not rule out).
#[verifier::external_body]
fn json_quote(s: &str) -> (r: Option<String>)
    ensures
        (r is None) == json_fails(s@),
        r matches Some(t) ==> t@ == json_quoted(s@),
{
    serde_json::to_string(s).ok()
}

/// `s` as a JSON string, or `fallback` when it cannot be written.
pub open spec fn json_or(s: Seq<char>, fallback: Seq<char>) -> Seq<char> {
    if json_fails(s) {
        fallback
    } else {
        json_quoted(s)
    }
}

/// `s` as a JSON string, or an empty JSON string when it cannot be written.
pub open spec fn json_or_empty(s: Seq<char>) -> Seq<char> {
    json_or(s, "\"\""@)
}

/// Append `s` as a JSON string, or `fallback` when it cannot be written.
pub(crate) fn push_json_or(out: &mut String, s: &str, fallback: &str)
    ensures
        final(out)@ == old(out)@ + json_or(s@, fallback@),
{
    match json_quote(s) {
        Some(t) => out.append(t.as_str()),
        None => out.append(fallback),
    }
}

pub(crate) fn push_json(out: &mut String, s: &str)
    ensures
        final(out)@ == old(out)@ + json_or_empty(s@),
{
    push_json_or(out, s, "\"\"");
}

// ─── grid ────────────────────────────────────────────────────────────────────

/// The answer to `grid`: the size, the wrap settings and the focused cell.
pub open spec fn grid_info_text(json: bool, cols: u8, rows: u8, focused: (u8, u8), wrap_x: bool, wrap_y: bool) -> Seq<char> {
    if json {
        "{\"cols\":"@ + dec(cols as nat) + ",\"rows\":"@ + dec(rows as nat) + ",\"scope\":\"per-output\",\"wrap_x\":"@
            + bool_text(wrap_x) + ",\"wrap_y\":"@ + bool_text(wrap_y) + ",\"active\":{\"col\":"@ + dec(focused.0 as nat)
            + ",\"row\":"@ + dec(focused.1 as nat) + ",\"monitor\":\"winit\"}}"@
    } else {
        "grid "@ + dec(cols as nat) + "x"@ + dec(rows as nat) + "  focused "@ + dec(focused.0 as nat) + ","@
            + dec(focused.1 as nat)
    }
}

/// Answer `grid`: the wrap settings come from the configuration.
#[verifier::spinoff_prover]
pub fn grid_info(json: bool, grid: &Grid, config: &Config) -> (r: String)
    ensures
        r@ == grid_info_text(json, grid.cols, grid.rows, grid.focused, config.grid.wrap_x, config.grid.wrap_y),
{
    let mut s = String::new();
    if json {
        s.append("{\"cols\":");
        push_dec(&mut s, grid.cols as u64);
        s.append(",\"rows\":");
        push_dec(&mut s, grid.rows as u64);
        s.append(",\"scope\":\"per-output\",\"wrap_x\":");
        push_bool(&mut s, config.grid.wrap_x);
        s.append(",\"wrap_y\":");
        push_bool(&mut s, config.grid.wrap_y);
        s.append(",\"active\":{\"col\":");
        push_dec(&mut s, grid.focused.0 as u64);
        s.append(",\"row\":");
        push_dec(&mut s, grid.focused.1 as u64);
        s.append(",\"monitor\":\"winit\"}}");
    } else {
        s.append("grid ");
        push_dec(&mut s, grid.cols as u64);
        s.append("x");
        push_dec(&mut s, grid.rows as u64);
        s.append("  focused ");
        push_dec(&mut s, grid.focused.0 as u64);
        s.append(",");
        push_dec(&mut s, grid.focused.1 as u64);
    }
    assert(s@ =~= grid_info_text(json, grid.cols, grid.rows, grid.focused, config.grid.wrap_x, config.grid.wrap_y));
    s
}

// ─── grid resize ─────────────────────────────────────────────────────────────

/// Why the arguments of `grid resize` were refused.
#[derive(Debug, Clone, Copy, PartialEq, Eq, Structural)]
pub enum ResizeArgError {
    /// Fewer than two fields.
    Usage,
    /// A field that is not a number from 0 to 255.
    NotNumbers,
}

/// What separates the fields of `grid resize`: white space, `x` or `,`.
pub open spec fn resize_sep(c: char) -> bool {
    is_space(c) || c == 'x' || c == ','
}

/// The first position at or after `i` that holds no separator (or the end).
pub open spec fn skip_seps(s: Seq<char>, i: int) -> int
    decreases s.len() - i,
{
    if i >= s.len() {
        s.len() as int
    } else if resize_sep(s[i]) {
        skip_seps(s, i + 1)
    } else {
        i
    }
}

/// The first position at or after `i` that holds a separator (or the end).
pub open spec fn skip_field(s: Seq<char>, i: int) -> int
    decreases s.len() - i,
{
    if i >= s.len() {
        s.len() as int
    } else if resize_sep(s[i]) {
        i
    } else {
        skip_field(s, i + 1)
    }
}

/// The first two fields of `s`, if it has two.
pub open spec fn resize_fields(s: Seq<char>) -> Option<(Seq<char>, Seq<char>)> {
    let a0 = skip_seps(s, 0);
    let a1 = skip_field(s, a0);
    let b0 = skip_seps(s, a1);
    let b1 = skip_field(s, b0);
    if a0 < s.len() && b0 < s.len() {
        Some((s.subrange(a0, a1), s.subrange(b0, b1)))
    } else {
        None
    }
}

/// The columns and rows asked for by `grid resize <args>` ("4 4", "4x4" or
/// "4,4"), or why they were refused.
pub open spec fn resize_args_spec(s: Seq<char>) -> Result<(u8, u8), ResizeArgError> {
    match resize_fields(s) {
        None => Err(ResizeArgError::Usage),
        Some((a, b)) => match (parse_unsigned(a, 255), parse_unsigned(b, 255)) {
            (Some(c), Some(r)) => Ok((c as u8, r as u8)),
            _ => Err(ResizeArgError::NotNumbers),
        },
    }
}

fn skip_seps_exec(s: &str, i: usize) -> (r: usize)
    requires
        i <= s@.len(),
    ensures
        r == skip_seps(s@, i as int),
        i <= r <= s@.len(),
{
    let n = s.unicode_len();
    let mut j = i;
    while j < n
        invariant
            n == s@.len(),
            i <= j <= n,
            skip_seps(s@, j as int) == skip_seps(s@, i as int),
        decreases n - j,
    {
        let c = s.get_char(j);
        if !(is_space_char(c) || c == 'x' || c == ',') {
            return j;
        }
        j += 1;
    }
    j
}

fn skip_field_exec(s: &str, i: usize) -> (r: usize)
    requires
        i <= s@.len(),
    ensures
        r == skip_field(s@, i as int),
        i <= r <= s@.len(),
{
    let n = s.unicode_len();
    let mut j = i;
    while j < n
        invariant
            n == s@.len(),
            i <= j <= n,
            skip_field(s@, j as int) == skip_field(s@, i as int),
        decreases n - j,
    {
        let c = s.get_char(j);
        if is_space_char(c) || c == 'x' || c == ',' {
            return j;
        }
        j += 1;
    }
    j
}

/// The columns and rows asked for by `grid resize <args>`.
pub fn resize_args(s: &str) -> (r: Result<(u8, u8), ResizeArgError>)
    ensures
        r == resize_args_spec(s@),
{
    let a0 = skip_seps_exec(s, 0);
    let a1 = skip_field_exec(s, a0);
    let b0 = skip_seps_exec(s, a1);
    let b1 = skip_field_exec(s, b0);
    let n = s.unicode_len();
    if a0 >= n || b0 >= n {
        return Err(ResizeArgError::Usage);
    }
    let a = s.substring_char(a0, a1);
    let b = s.substring_char(b0, b1);
    match (parse_u8(a), parse_u8(b)) {
        (Some(c), Some(r)) => Ok((c, r)),
        _ => Err(ResizeArgError::NotNumbers),
    }
}

impl Grid {
    /// `self` is what `resize_grid(new_cols, new_rows)` leaves of `old`.
    pub open spec fn resized_from(&self, old: &Grid, new_cols: u8, new_rows: u8) -> bool {
        &&& self.wf()
        &&& self.cols == clamp(new_cols as int, 1, 16)
        &&& self.rows == clamp(new_rows as int, 1, 16)
        &&& self.workspaces@.len() == max(old.workspaces@.len() as int, self.rows as int)
        &&& forall|r: int| 0 <= r < self.workspaces@.len() ==> #[trigger] self.workspaces@[r]@.len()
            == old.grown_row_len(r, self.cols as int)
        &&& ({
            let (cells, wl) = relocate_upto(old.grown_cells(), old.windows@, self.cols, self.rows, old.windows@.len() as int);
            &&& forall|c: int, r: int| #[trigger] self.allocated(c, r) ==> self.ws_at(c, r).model() == cells(c, r)
            &&& self.windows@ == wl
        })
        &&& forall|c: int, r: int| #[trigger] self.allocated(c, r) ==> {
            &&& old.allocated(c, r) ==> {
                &&& self.ws_at(c, r).col == old.ws_at(c, r).col
                &&& self.ws_at(c, r).row == old.ws_at(c, r).row
                &&& self.ws_at(c, r).name == old.ws_at(c, r).name
            }
            &&& !old.allocated(c, r) ==> {
                &&& self.ws_at(c, r).col == c
                &&& self.ws_at(c, r).row == r
                &&& self.ws_at(c, r).name is None
            }
        }
        &&& self.focused == (min(old.focused.0 as int, self.cols - 1) as u8, min(old.focused.1 as int, self.rows - 1) as u8)
        &&& self.focused_window == old.focused_window
        &&& self.history@ == old.history@
        &&& self.forward_history@ == old.forward_history@
        &&& self.pending_configures@ == old.pending_configures@
        &&& self.next_id == old.next_id
        &&& self.prefs_same(old)
    }
}

/// The answer to a successful `grid resize`.
pub open spec fn resized_text(json: bool, cols: u8, rows: u8) -> Seq<char> {
    if json {
        "{\"ok\":true,\"cols\":"@ + dec(cols as nat) + ",\"rows\":"@ + dec(rows as nat) + "}"@
    } else {
        "grid resized to "@ + dec(cols as nat) + "x"@ + dec(rows as nat)
    }
}

/// The answer to a refused `grid resize`.
pub open spec fn resize_error_text(json: bool, e: ResizeArgError) -> Seq<char> {
    match (e, json) {
        (ResizeArgError::Usage, true) => "{\"ok\":false,\"error\":\"usage: grid resize <cols> <rows>\"}"@,
        (ResizeArgError::Usage, false) => "error: usage: grid resize <cols> <rows>"@,
        (ResizeArgError::NotNumbers, true) => "{\"ok\":false,\"error\":\"cols and rows must be 1–16\"}"@,
        (ResizeArgError::NotNumbers, false) => "error: cols and rows must be 1–16"@,
    }
}

/// Run `grid resize <args>`: resize the grid to the size asked for (each
/// side clamped to 1..=16) and answer with the new size, or leave the grid
/// unchanged and answer with why the arguments were refused.
#[verifier::spinoff_prover]
pub fn grid_resize(args: &str, json: bool, grid: &mut Grid) -> (r: String)
    requires
        old(grid).wf(),
    ensures
        match resize_args_spec(args@) {
            Ok((c, rr)) => {
                &&& final(grid).resized_from(old(grid), c, rr)
                &&& r@ == resized_text(json, final(grid).cols, final(grid).rows)
            },
            Err(e) => {
                &&& *final(grid) == *old(grid)
                &&& r@ == resize_error_text(json, e)
            },
        },
{
    match resize_args(args) {
        Err(e) => {
            let s = match (e, json) {
                (ResizeArgError::Usage, true) => "{\"ok\":false,\"error\":\"usage: grid resize <cols> <rows>\"}",
                (ResizeArgError::Usage, false) => "error: usage: grid resize <cols> <rows>",
                (ResizeArgError::NotNumbers, true) => "{\"ok\":false,\"error\":\"cols and rows must be 1–16\"}",
                (ResizeArgError::NotNumbers, false) => "error: cols and rows must be 1–16",
            };
            String::from_str(s)
        },
        Ok((c, rr)) => {
            grid.resize_grid(c, rr);
            let mut s = String::new();
            if json {
                s.append("{\"ok\":true,\"cols\":");
                push_dec(&mut s, grid.cols as u64);
                s.append(",\"rows\":");
                push_dec(&mut s, grid.rows as u64);
                s.append("}");
            } else {
                s.append("grid resized to ");
                push_dec(&mut s, grid.cols as u64);
                s.append("x");
                push_dec(&mut s, grid.rows as u64);
            }
            assert(s@ =~= resized_text(json, grid.cols, grid.rows));
            s
        },
    }
}

/// Run `grid [resize <args>]`: resize when the first word is `resize`,
/// else answer with the grid's size and focus.
pub fn grid_cmd(args: &str, json: bool, grid: &mut Grid, config: &Config) -> (r: String)
    requires
        old(grid).wf(),
    ensures
        ({
            let (sub, rest) = split_verb_spec(trimmed(args@));
            if sub == "resize"@ {
                match resize_args_spec(rest) {
                    Ok((c, rr)) => {
                        &&& final(grid).resized_from(old(grid), c, rr)
                        &&& r@ == resized_text(json, final(grid).cols, final(grid).rows)
                    },
                    Err(e) => {
                        &&& *final(grid) == *old(grid)
                        &&& r@ == resize_error_text(json, e)
                    },
                }
            } else {
                &&& *final(grid) == *old(grid)
                &&& r@ == grid_info_text(json, old(grid).cols, old(grid).rows, old(grid).focused,
                    config.grid.wrap_x, config.grid.wrap_y)
            }
        }),
{
    let (sub, rest) = split_verb(trim(args));
    if str_eq(sub, "resize") {
        grid_resize(rest, json, grid)
    } else {
        grid_info(json, grid, config)
    }
}

// ─── monitors ────────────────────────────────────────────────────────────────

/// The answer to `monitors`: the one output and its size.
pub open spec fn monitors_text(json: bool, w: i32, h: i32) -> Seq<char> {
    if json {
        "[{\"name\":\"winit\",\"width\":"@ + dec_signed(w as int) + ",\"height\":"@ + dec_signed(h as int)
            + ",\"scale\":1.0,\"focused\":true}]"@
    } else {
        "winit "@ + dec_signed(w as int) + "x"@ + dec_signed(h as int) + " scale=1.0 *"@
    }
}

/// Answer `monitors`.
pub fn monitors(json: bool, grid: &Grid) -> (r: String)
    ensures
        r@ == monitors_text(json, grid.output_w, grid.output_h),
{
    let mut s = String::new();
    if json {
        s.append("[{\"name\":\"winit\",\"width\":");
        push_signed(&mut s, grid.output_w);
        s.append(",\"height\":");
        push_signed(&mut s, grid.output_h);
        s.append(",\"scale\":1.0,\"focused\":true}]");
    } else {
        s.append("winit ");
        push_signed(&mut s, grid.output_w);
        s.append("x");
        push_signed(&mut s, grid.output_h);
        s.append(" scale=1.0 *");
    }
    assert(s@ =~= monitors_text(json, grid.output_w, grid.output_h));
    s
}

// ─── workspaces ──────────────────────────────────────────────────────────────

/// How many windows of the list sit on `cell`.
pub open spec fn count_on(ws: Seq<Window>, cell: (u8, u8)) -> nat
    decreases ws.len(),
{
    if ws.len() == 0 {
        0
    } else {
        count_on(ws.drop_last(), cell) + if ws.last().workspace == cell {
            1nat
        } else {
            0nat
        }
    }
}

/// The number of windows on `cell`.
pub fn windows_on(grid: &Grid, cell: (u8, u8)) -> (n: usize)
    ensures
        n == count_on(grid.windows@, cell),
{
    let mut n: usize = 0;
    let mut i: usize = 0;
    while i < grid.windows.len()
        invariant
            i <= grid.windows@.len(),
            n <= i,
            n == count_on(grid.windows@.take(i as int), cell),
        decreases grid.windows.len() - i,
    {
        assert(grid.windows@.take(i + 1).drop_last() =~= grid.windows@.take(i as int));
        if grid.windows[i].workspace.0 == cell.0 && grid.windows[i].workspace.1 == cell.1 {
            n += 1;
        }
        i += 1;
    }
    assert(grid.windows@.take(i as int) =~= grid.windows@);
    n
}

/// The name of a cell ("" when unnamed or outside the grid).
pub open spec fn cell_name(g: Grid, c: u8, r: u8) -> Seq<char> {
    if c < g.cols && r < g.rows && g.ws_at(c as int, r as int).name is Some {
        g.ws_at(c as int, r as int).name->0@
    } else {
        Seq::empty()
    }
}

/// ` "<name>"` for a named cell, nothing for an unnamed one.
pub open spec fn name_part(name: Seq<char>) -> Seq<char> {
    if name.len() == 0 {
        Seq::empty()
    } else {
        " \""@ + name + "\""@
    }
}

/// One workspace as a JSON object, from its name and window count.
pub open spec fn ws_json_of(c: u8, r: u8, name: Seq<char>, n: nat, focused: bool) -> Seq<char> {
    "{\"id\":\"winit:"@ + dec(c as nat) + ","@ + dec(r as nat) + "\",\"col\":"@ + dec(c as nat) + ",\"row\":"@
        + dec(r as nat) + ",\"monitor\":\"winit\",\"name\":"@ + json_or_empty(name) + ",\"windows\":"@ + dec(n)
        + ",\"focused\":"@ + bool_text(focused) + "}"@
}

/// One workspace as a line of text, marked ` *` when `mark` holds.
pub open spec fn ws_line_of(c: u8, r: u8, name: Seq<char>, n: nat, mark: bool) -> Seq<char> {
    dec(c as nat) + ","@ + dec(r as nat) + name_part(name) + " ["@ + dec(n) + " windows]"@ + if mark {
        " *"@
    } else {
        Seq::empty()
    }
}

/// Cell (c, r) of `g` as a JSON object.
pub open spec fn ws_json(g: Grid, c: u8, r: u8, focused: bool) -> Seq<char> {
    ws_json_of(c, r, cell_name(g, c, r), count_on(g.windows@, (c, r)), focused)
}

/// Cell (c, r) of `g` as a line of text.
pub open spec fn ws_line(g: Grid, c: u8, r: u8, mark: bool) -> Seq<char> {
    ws_line_of(c, r, cell_name(g, c, r), count_on(g.windows@, (c, r)), mark)
}

/// The entry of cell (c, r) in the answer to `workspaces`.
pub open spec fn ws_entry(json: bool, g: Grid, c: u8, r: u8) -> Seq<char> {
    if json {
        ws_json(g, c, r, (c, r) == g.focused)
    } else {
        ws_line(g, c, r, (c, r) == g.focused)
    }
}

/// The entries of the first `k` cells of row `r`.
pub open spec fn row_entries(json: bool, g: Grid, r: u8, k: nat) -> Seq<Seq<char>>
    decreases k,
{
    if k == 0 {
        Seq::empty()
    } else {
        row_entries(json, g, r, (k - 1) as nat).push(ws_entry(json, g, (k - 1) as u8, r))
    }
}

/// The entries of the first `k` rows, row by row.
pub open spec fn grid_entries(json: bool, g: Grid, k: nat) -> Seq<Seq<char>>
    decreases k,
{
    if k == 0 {
        Seq::empty()
    } else {
        grid_entries(json, g, (k - 1) as nat) + row_entries(json, g, (k - 1) as u8, g.cols as nat)
    }
}

/// The answer to `workspaces`: every cell, row by row.
pub open spec fn workspaces_text(json: bool, g: Grid) -> Seq<char> {
    let e = grid_entries(json, g, g.rows as nat);
    if json {
        "["@ + joined(e, ","@) + "]"@
    } else {
        joined(e, "\n"@)
    }
}

#[verifier::spinoff_prover]
fn push_ws_json_of(s: &mut String, c: u8, r: u8, name: &str, n: usize, focused: bool)
    ensures
        final(s)@ == old(s)@ + ws_json_of(c, r, name@, n as nat, focused),
{
    s.append("{\"id\":\"winit:");
    push_dec(s, c as u64);
    s.append(",");
    push_dec(s, r as u64);
    s.append("\",\"col\":");
    push_dec(s, c as u64);
    s.append(",\"row\":");
    push_dec(s, r as u64);
    s.append(",\"monitor\":\"winit\",\"name\":");
    push_json(s, name);
    s.append(",\"windows\":");
    push_dec(s, n as u64);
    s.append(",\"focused\":");
    push_bool(s, focused);
    s.append("}");
    assert(final(s)@ =~= old(s)@ + ws_json_of(c, r, name@, n as nat, focused));
}

#[verifier::spinoff_prover]
fn push_ws_line_of(s: &mut String, c: u8, r: u8, name: &str, n: usize, mark: bool)
    ensures
        final(s)@ == old(s)@ + ws_line_of(c, r, name@, n as nat, mark),
{
    push_dec(s, c as u64);
    s.append(",");
    push_dec(s, r as u64);
    if name.unicode_len() > 0 {
        s.append(" \"");
        s.append(name);
        s.append("\"");
    }
    s.append(" [");
    push_dec(s, n as u64);
    s.append(" windows]");
    if mark {
        s.append(" *");
    }
    assert(final(s)@ =~= old(s)@ + ws_line_of(c, r, name@, n as nat, mark));
}

fn push_ws_json(s: &mut String, grid: &Grid, c: u8, r: u8, focused: bool)
    requires
        grid.wf(),
    ensures
        final(s)@ == old(s)@ + ws_json(*grid, c, r, focused),
{
    let n = windows_on(grid, (c, r));
    let name = grid.workspace_name(c, r);
    assert(name@ =~= cell_name(*grid, c, r));
    push_ws_json_of(s, c, r, name, n, focused);
}

fn push_ws_line(s: &mut String, grid: &Grid, c: u8, r: u8, mark: bool)
    requires
        grid.wf(),
    ensures
        final(s)@ == old(s)@ + ws_line(*grid, c, r, mark),
{
    let n = windows_on(grid, (c, r));
    let name = grid.workspace_name(c, r);
    push_ws_line_of(s, c, r, name, n, mark);
}

/// Answer `workspaces`.
pub fn workspaces(json: bool, grid: &Grid) -> (r: String)
    requires
        grid.wf(),
    ensures
        r@ == workspaces_text(json, *grid),
{
    let mut lines: Vec<String> = Vec::new();
    let mut r: u8 = 0;
    while r < grid.rows
        invariant
            grid.wf(),
            r <= grid.rows,
            views(lines@) == grid_entries(json, *grid, r as nat),
        decreases grid.rows - r,
    {
        let mut c: u8 = 0;
        while c < grid.cols
            invariant
                grid.wf(),
                r < grid.rows,
                c <= grid.cols,
                views(lines@) == grid_entries(json, *grid, r as nat) + row_entries(json, *grid, r, c as nat),
            decreases grid.cols - c,
        {
            let mut e = String::new();
            let focused = grid.focused.0 == c && grid.focused.1 == r;
            if json {
                push_ws_json(&mut e, grid, c, r, focused);
            } else {
                push_ws_line(&mut e, grid, c, r, focused);
            }
            assert(e@ =~= ws_entry(json, *grid, c, r));
            let ghost before = lines@;
            lines.push(e);
            proof {
                assert(views(lines@) =~= views(before).push(ws_entry(json, *grid, c, r)));
                assert(row_entries(json, *grid, r, (c + 1) as nat) == row_entries(json, *grid, r, c as nat).push(
                    ws_entry(json, *grid, c, r),
                ));
                assert(views(lines@) =~= grid_entries(json, *grid, r as nat) + row_entries(json, *grid, r, (c + 1) as nat));
            }
            c += 1;
        }
        assert(grid_entries(json, *grid, (r + 1) as nat) == grid_entries(json, *grid, r as nat) + row_entries(
            json,
            *grid,
            r,
            grid.cols as nat,
        ));
        r += 1;
    }
    if json {
        let mut s = String::new();
        s.append("[");
        let body = join_strings(&lines, ",");
        s.append(body.as_str());
        s.append("]");
        assert(s@ =~= workspaces_text(json, *grid));
        s
    } else {
        join_strings(&lines, "\n")
    }
}

/// The answer to `activeworkspace`: the focused cell, as in `workspaces`
/// but without the mark.
pub open spec fn active_workspace_text(json: bool, g: Grid) -> Seq<char> {
    if json {
        ws_json(g, g.focused.0, g.focused.1, true)
    } else {
        ws_line(g, g.focused.0, g.focused.1, false)
    }
}

/// Answer `activeworkspace`.
pub fn active_workspace(json: bool, grid: &Grid) -> (r: String)
    requires
        grid.wf(),
    ensures
        r@ == active_workspace_text(json, *grid),
{
    let mut s = String::new();
    if json {
        push_ws_json(&mut s, grid, grid.focused.0, grid.focused.1, true);
    } else {
        push_ws_line(&mut s, grid, grid.focused.0, grid.focused.1, false);
    }
    assert(s@ =~= active_workspace_text(json, *grid));
    s
}

} // verus!
