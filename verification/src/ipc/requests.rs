//! Running `dispatch` from the command socket, the replies to refused and
//! unknown commands, and the key bind cheatsheet.
use vstd::prelude::*;
use vstd::string::StrSliceExecFns;

use super::queries::{join_strings, joined, json_or, push_bool, push_json_or};
use crate::dispatch::run::{action_allowed, action_ok, dispatch, dispatched};
use crate::dispatch::{fxv, DispatchConfig, DispatchState, Effect};
use crate::keybind::parse::{parse_action, parse_action_spec};
use super::window_info::{esc_quotes, push_escaped};
use crate::text::{bool_text, split_words, str_eq, views, words};

verus! {

// ─── dispatch ────────────────────────────────────────────────────────────────

/// The reply when an action ran.
pub open spec fn dispatched_text(json: bool) -> Seq<char> {
    if json {
        "{\"ok\":true}"@
    } else {
        "ok"@
    }
}

/// The reply when no action has that name (or its arguments do not fit).
pub open spec fn unknown_action_text(json: bool, name: Seq<char>) -> Seq<char> {
    if json {
        "{\"ok\":false,\"error\":\"unknown action '"@ + name + "'\"}"@
    } else {
        "error: unknown action '"@ + name + "'"@
    }
}

/// The reply when the action cannot run on the current state (it would
/// reach a cell outside the grid, move a window kept in a special
/// workspace, or leave the `i32` range).
pub open spec fn refused_action_text(json: bool, name: Seq<char>) -> Seq<char> {
    if json {
        "{\"ok\":false,\"error\":\"action '"@ + name + "' cannot run now\"}"@
    } else {
        "error: action '"@ + name + "' cannot run now"@
    }
}

/// The action name and the arguments of `dispatch <args>`.
pub open spec fn dispatch_words(args: Seq<char>) -> (Seq<char>, Seq<Seq<char>>) {
    let w = words(args);
    if w.len() == 0 {
        (Seq::empty(), Seq::empty())
    } else {
        (w[0], w.skip(1))
    }
}

/// What `dispatch <args>` does to `old`, leaving `new`: the reply, whether
/// the compositor quits, and the effects to perform.
pub open spec fn dispatch_cmd_done(
    args: Seq<char>,
    json: bool,
    old: DispatchState,
    new: DispatchState,
    cfg: DispatchConfig,
    r: (String, bool, Vec<Effect>),
) -> bool {
    let (name, rest) = dispatch_words(args);
    match parse_action_spec(name, rest) {
        None => new == old && !r.1 && r.2@.len() == 0 && r.0@ == unknown_action_text(json, name),
        Some(a) => if action_ok(a, old) {
            &&& dispatched(a, old, new, cfg, r.1, fxv(r.2@))
            &&& r.0@ == dispatched_text(json)
        } else {
            new == old && !r.1 && r.2@.len() == 0 && r.0@ == refused_action_text(json, name)
        },
    }
}

fn name_reply(json: bool, name: &str, refused: bool) -> (r: String)
    ensures
        r@ == if refused {
            refused_action_text(json, name@)
        } else {
            unknown_action_text(json, name@)
        },
{
    let mut s = String::new();
    if refused {
        if json {
            s.append("{\"ok\":false,\"error\":\"action '");
            s.append(name);
            s.append("' cannot run now\"}");
        } else {
            s.append("error: action '");
            s.append(name);
            s.append("' cannot run now");
        }
    } else {
        if json {
            s.append("{\"ok\":false,\"error\":\"unknown action '");
            s.append(name);
            s.append("'\"}");
        } else {
            s.append("error: unknown action '");
            s.append(name);
            s.append("'");
        }
    }
    assert(s@ =~= if refused {
        refused_action_text(json, name@)
    } else {
        unknown_action_text(json, name@)
    });
    s
}

/// Run `dispatch <action> <args..>`: the reply, whether the compositor
/// should quit, and the effects the caller performs.
#[verifier::spinoff_prover]
pub fn dispatch_cmd(args: &str, json: bool, st: &mut DispatchState, cfg: &DispatchConfig) -> (r: (String, bool, Vec<Effect>))
    requires
        old(st).wf(),
    ensures
        final(st).wf(),
        dispatch_cmd_done(args@, json, *old(st), *final(st), *cfg, r),
{
    let parts = split_words(args);
    let mut rest: Vec<String> = Vec::new();
    if parts.len() > 0 {
        let mut i: usize = 1;
        assert(views(rest@) =~= views(parts@).subrange(1, 1));
        while i < parts.len()
            invariant
                1 <= i <= parts@.len(),
                views(rest@) == views(parts@).subrange(1, i as int),
            decreases parts.len() - i,
        {
            let ghost before = views(rest@);
            rest.push(parts[i].clone());
            assert(views(rest@) =~= before.push(parts@[i as int]@));
            assert(views(rest@) =~= views(parts@).subrange(1, i + 1));
            i += 1;
        }
    }
    let name: &str = if parts.len() > 0 {
        parts[0].as_str()
    } else {
        ""
    };
    proof {
        reveal_strlit("");
        if parts@.len() > 0 {
            assert(views(rest@) =~= words(args@).skip(1));
        } else {
            assert(rest@.len() == 0);
            assert(views(rest@) =~= Seq::<Seq<char>>::empty());
        }
        assert(name@ =~= dispatch_words(args@).0);
    }
    match parse_action(name, rest.as_slice()) {
        None => (name_reply(json, name, false), false, Vec::new()),
        Some(a) => {
            if !action_allowed(&a, st) {
                return (name_reply(json, name, true), false, Vec::new());
            }
            let (quit, fx) = dispatch(a, st, cfg);
            let reply = String::from_str(if json {
                "{\"ok\":true}"
            } else {
                "ok"
            });
            (reply, quit, fx)
        },
    }
}

// ─── Refused and unknown commands ────────────────────────────────────────────

/// The reply to a command that is refused while the session is locked.
pub open spec fn locked_text(json: bool) -> Seq<char> {
    if json {
        "{\"ok\":false,\"error\":\"session is locked\"}"@
    } else {
        "error: session is locked"@
    }
}

/// The reply to a command refused while the session is locked.
pub fn locked_reply(json: bool) -> (r: String)
    ensures
        r@ == locked_text(json),
{
    String::from_str(if json {
        "{\"ok\":false,\"error\":\"session is locked\"}"
    } else {
        "error: session is locked"
    })
}

/// The reply to an unknown command.
pub fn unknown_command(verb: &str) -> (r: String)
    ensures
        r@ == "error: unknown command '"@ + verb@ + "'"@,
{
    let mut s = String::new();
    s.append("error: unknown command '");
    s.append(verb);
    s.append("'");
    assert(s@ =~= "error: unknown command '"@ + verb@ + "'"@);
    s
}

/// The reply to `keyword`, from the text `keyword_apply` gave.
pub open spec fn keyword_reply_text(json: bool, result: Seq<char>) -> Seq<char> {
    if !json {
        result
    } else if result == "ok"@ {
        "{\"ok\":true}"@
    } else {
        "{\"ok\":false,\"error\":\""@ + esc_quotes(result) + "\"}"@
    }
}

/// The reply to `keyword`, from the text `keyword_apply` gave.
pub fn keyword_reply(json: bool, result: String) -> (r: String)
    ensures
        r@ == keyword_reply_text(json, result@),
{
    if !json {
        return result;
    }
    if str_eq(result.as_str(), "ok") {
        return String::from_str("{\"ok\":true}");
    }
    let mut s = String::new();
    s.append("{\"ok\":false,\"error\":\"");
    push_escaped(&mut s, result.as_str());
    s.append("\"}");
    assert(s@ =~= keyword_reply_text(json, result@));
    s
}

// ─── cheatsheet ──────────────────────────────────────────────────────────────

/// `n` spaces.
pub open spec fn spaces(n: nat) -> Seq<char>
    decreases n,
{
    if n == 0 {
        Seq::empty()
    } else {
        spaces((n - 1) as nat).push(' ')
    }
}

/// `s` padded with spaces on the right to `width` characters (`{:<width}`).
pub open spec fn pad_right(s: Seq<char>, width: nat) -> Seq<char> {
    if s.len() >= width {
        s
    } else {
        s + spaces((width - s.len()) as nat)
    }
}

/// The key combination of a cheatsheet row: `mods+key`, or the key alone.
pub open spec fn combo_text(mods: Seq<char>, key: Seq<char>) -> Seq<char> {
    if mods.len() == 0 {
        key
    } else {
        mods + "+"@ + key
    }
}

/// The flags of a cheatsheet line.
pub open spec fn flags_text(locked: bool, global: bool) -> Seq<char> {
    if locked && global {
        " [locked,global]"@
    } else if locked {
        " [locked]"@
    } else if global {
        " [global]"@
    } else {
        Seq::empty()
    }
}

/// One cheatsheet row (modifiers, key, action, locked, global) as JSON or
/// as a line.
pub open spec fn cheat_entry(json: bool, row: (String, String, String, bool, bool)) -> Seq<char> {
    let combo = combo_text(row.0@, row.1@);
    if json {
        "{\"combo\":"@ + json_or(combo, Seq::empty()) + ",\"mods\":"@ + json_or(row.0@, Seq::empty()) + ",\"key\":"@
            + json_or(row.1@, Seq::empty()) + ",\"action\":"@ + json_or(row.2@, Seq::empty()) + ",\"locked\":"@
            + bool_text(row.3) + ",\"global\":"@ + bool_text(row.4) + "}"@
    } else {
        pad_right(combo, 30) + " "@ + row.2@ + flags_text(row.3, row.4)
    }
}

/// The answer to `cheatsheet` for the given rows.
pub open spec fn cheatsheet_text(json: bool, rows: Seq<(String, String, String, bool, bool)>) -> Seq<char> {
    let e = rows.map_values(|x: (String, String, String, bool, bool)| cheat_entry(json, x));
    if json {
        "["@ + joined(e, ","@) + "]"@
    } else {
        joined(e, "\n"@)
    }
}

fn combo_string(mods: &str, key: &str) -> (r: String)
    ensures
        r@ == combo_text(mods@, key@),
{
    let mut s = String::new();
    if mods.unicode_len() > 0 {
        s.append(mods);
        s.append("+");
    }
    s.append(key);
    assert(s@ =~= combo_text(mods@, key@));
    s
}

fn push_padded(out: &mut String, s: &str, width: usize)
    ensures
        final(out)@ == old(out)@ + pad_right(s@, width as nat),
{
    out.append(s);
    let n = s.unicode_len();
    let mut k: usize = n;
    proof {
        reveal_strlit(" ");
        assert(spaces(0) =~= Seq::<char>::empty());
    }
    while k < width
        invariant
            n == s@.len(),
            n <= k,
            n < width ==> k <= width,
            n >= width ==> k == n,
            out@ == old(out)@ + s@ + spaces((k - n) as nat),
        decreases width - k,
    {
        let ghost before = out@;
        out.append(" ");
        proof {
            reveal_strlit(" ");
            assert(" "@ =~= seq![' ']);
            assert(spaces((k + 1 - n) as nat) == spaces((k - n) as nat).push(' '));
            assert(out@ =~= before + seq![' ']);
        }
        assert(out@ =~= old(out)@ + s@ + spaces((k + 1 - n) as nat));
        k += 1;
    }
    proof {
        if n >= width {
            assert(k == n);
            assert(out@ =~= old(out)@ + s@);
        } else {
            assert(k == width);
        }
    }
    assert(out@ =~= old(out)@ + pad_right(s@, width as nat));
}

#[verifier::spinoff_prover]
fn cheat_line(json: bool, row: &(String, String, String, bool, bool)) -> (r: String)
    ensures
        r@ == cheat_entry(json, *row),
{
    let combo = combo_string(row.0.as_str(), row.1.as_str());
    let mut s = String::new();
    if json {
        s.append("{\"combo\":");
        push_json_or(&mut s, combo.as_str(), "");
        s.append(",\"mods\":");
        push_json_or(&mut s, row.0.as_str(), "");
        s.append(",\"key\":");
        push_json_or(&mut s, row.1.as_str(), "");
        s.append(",\"action\":");
        push_json_or(&mut s, row.2.as_str(), "");
        s.append(",\"locked\":");
        push_bool(&mut s, row.3);
        s.append(",\"global\":");
        push_bool(&mut s, row.4);
        s.append("}");
        proof {
            reveal_strlit("");
            assert(""@ =~= Seq::<char>::empty());
        }
    } else {
        push_padded(&mut s, combo.as_str(), 30);
        s.append(" ");
        s.append(row.2.as_str());
        if row.3 && row.4 {
            s.append(" [locked,global]");
        } else if row.3 {
            s.append(" [locked]");
        } else if row.4 {
            s.append(" [global]");
        }
    }
    assert(s@ =~= cheat_entry(json, *row));
    s
}

/// Answer `cheatsheet` for the rows `BindTable::for_cheatsheet` gives.
pub fn cheatsheet(json: bool, rows: &Vec<(String, String, String, bool, bool)>) -> (r: String)
    ensures
        r@ == cheatsheet_text(json, rows@),
{
    let ghost e = rows@.map_values(|x: (String, String, String, bool, bool)| cheat_entry(json, x));
    let mut lines: Vec<String> = Vec::new();
    let mut i: usize = 0;
    while i < rows.len()
        invariant
            i <= rows@.len(),
            e == rows@.map_values(|x: (String, String, String, bool, bool)| cheat_entry(json, x)),
            views(lines@) == e.take(i as int),
        decreases rows.len() - i,
    {
        let l = cheat_line(json, &rows[i]);
        let ghost before = views(lines@);
        lines.push(l);
        proof {
            assert(views(lines@) =~= before.push(l@));
            assert(e[i as int] == cheat_entry(json, rows@[i as int]));
            assert(e.take(i + 1) =~= e.take(i as int).push(e[i as int]));
        }
        assert(views(lines@) =~= e.take(i + 1));
        i += 1;
    }
    assert(e.take(i as int) =~= e);
    if json {
        let mut s = String::new();
        s.append("[");
        let body = join_strings(&lines, ",");
        s.append(body.as_str());
        s.append("]");
        assert(s@ =~= cheatsheet_text(json, rows@));
        s
    } else {
        join_strings(&lines, "\n")
    }
}

} // verus!
