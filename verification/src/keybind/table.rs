//! Bind tables: (modifier mask, keysym) and (modifier mask, button) to
//! actions, submap tables and gesture tables.
use vstd::prelude::*;
use vstd::string::StrSliceExecFns;

use super::action::{view_of, Action, ActionV};
use super::parse::{parse_action, parse_action_spec};
use super::defaults::{default_binds, default_bind_views, default_release_binds, default_release_views, placement_submap_binds, placement_submap_views, resize_submap_binds, resize_submap_views};
use crate::config::types::{BindConfig, GestureConfig, SubBindConfig};
use crate::text::{join_from, join_spaced, lemma_text_trans, str_eq, text_less, text_lt, views};

verus! {

/// Modifier keys held.
#[derive(Debug, Clone, Copy, PartialEq, Eq, Structural)]
pub struct Mods {
    pub logo: bool,
    pub alt: bool,
    pub ctrl: bool,
    pub shift: bool,
}

pub open spec fn bit(on: bool, v: u32) -> u32 {
    if on {
        v
    } else {
        0
    }
}

/// Modifier bitmask: bit 0 Logo/Super, bit 1 Alt, bit 2 Ctrl, bit 3 Shift.
pub open spec fn mask_of(m: Mods) -> u32 {
    (bit(m.logo, 1) + bit(m.alt, 2) + bit(m.ctrl, 4) + bit(m.shift, 8)) as u32
}

pub fn mods_to_mask(mods: &Mods) -> (m: u32)
    ensures
        m == mask_of(*mods),
{
    let mut m: u32 = 0;
    if mods.logo {
        m = m + 1;
    }
    if mods.alt {
        m = m + 2;
    }
    if mods.ctrl {
        m = m + 4;
    }
    if mods.shift {
        m = m + 8;
    }
    m
}

/// The modifier a name stands for, as its bit; 0 for an unknown name.
pub open spec fn mod_bit(s: Seq<char>) -> u32 {
    if s == "Super"@ || s == "Logo"@ || s == "Win"@ || s == "Mod4"@ {
        1
    } else if s == "Alt"@ || s == "Mod1"@ {
        2
    } else if s == "Ctrl"@ || s == "Control"@ {
        4
    } else if s == "Shift"@ {
        8
    } else {
        0
    }
}

/// Whether some name of `names` stands for the modifier of bit `b`.
pub open spec fn names_have(names: Seq<Seq<char>>, b: u32) -> bool {
    exists|i: int| 0 <= i < names.len() && mod_bit(names[i]) == b
}

/// The bitmask of a list of modifier names; unknown names are ignored.
pub open spec fn modset_spec(names: Seq<Seq<char>>) -> u32 {
    (bit(names_have(names, 1), 1) + bit(names_have(names, 2), 2) + bit(names_have(names, 4), 4)
        + bit(names_have(names, 8), 8)) as u32
}

fn mod_bit_exec(s: &str) -> (b: u32)
    ensures
        b == mod_bit(s@),
{
    if str_eq(s, "Super") || str_eq(s, "Logo") || str_eq(s, "Win") || str_eq(s, "Mod4") {
        1
    } else if str_eq(s, "Alt") || str_eq(s, "Mod1") {
        2
    } else if str_eq(s, "Ctrl") || str_eq(s, "Control") {
        4
    } else if str_eq(s, "Shift") {
        8
    } else {
        0
    }
}

pub fn modset_from_vec(mods: &[String]) -> (m: u32)
    ensures
        m == modset_spec(views(mods@)),
{
    let mut has1 = false;
    let mut has2 = false;
    let mut has4 = false;
    let mut has8 = false;
    let ghost names = views(mods@);
    let mut i: usize = 0;
    while i < mods.len()
        invariant
            i <= mods@.len(),
            names == views(mods@),
            has1 == names_have(names.take(i as int), 1),
            has2 == names_have(names.take(i as int), 2),
            has4 == names_have(names.take(i as int), 4),
            has8 == names_have(names.take(i as int), 8),
        decreases mods.len() - i,
    {
        let b = mod_bit_exec(mods[i].as_str());
        proof {
            let t = names.take(i as int + 1);
            assert(t[i as int] == names[i as int]);
            assert forall|v: u32| names_have(t, v) == (names_have(names.take(i as int), v) || mod_bit(names[i as int]) == v) by {
                if names_have(t, v) {
                    let k = choose|k: int| 0 <= k < t.len() && mod_bit(t[k]) == v;
                    if k < i {
                        assert(names.take(i as int)[k] == t[k]);
                    }
                }
                if names_have(names.take(i as int), v) {
                    let k = choose|k: int| 0 <= k < i && mod_bit(names.take(i as int)[k]) == v;
                    assert(t[k] == names.take(i as int)[k]);
                }
            }
        }
        if b == 1 {
            has1 = true;
        } else if b == 2 {
            has2 = true;
        } else if b == 4 {
            has4 = true;
        } else if b == 8 {
            has8 = true;
        }
        i += 1;
    }
    assert(names.take(i as int) =~= names);
    let mut m: u32 = 0;
    if has1 {
        m = m + 1;
    }
    if has2 {
        m = m + 2;
    }
    if has4 {
        m = m + 4;
    }
    if has8 {
        m = m + 8;
    }
    m
}

/// The modifier names of a mask, joined with `+`, Super first.
pub open spec fn mask_names(mask: u32) -> Seq<char> {
    let parts = (if mask & 1 != 0 { seq!["Super"@] } else { Seq::empty() })
        + (if mask & 2 != 0 { seq!["Alt"@] } else { Seq::empty() })
        + (if mask & 4 != 0 { seq!["Ctrl"@] } else { Seq::empty() })
        + (if mask & 8 != 0 { seq!["Shift"@] } else { Seq::empty() });
    join_with_plus(parts)
}

/// Names joined with `+`.
pub open spec fn join_with_plus(s: Seq<Seq<char>>) -> Seq<char>
    decreases s.len(),
{
    if s.len() == 0 {
        Seq::empty()
    } else if s.len() == 1 {
        s[0]
    } else {
        join_with_plus(s.drop_last()) + "+"@ + s.last()
    }
}

/// Append `name` to a `+`-joined list of `parts`.
fn push_part(out: &mut String, parts: Ghost<Seq<Seq<char>>>, name: &str)
    requires
        old(out)@ == join_with_plus(parts@),
        forall|k: int| 0 <= k < parts@.len() ==> #[trigger] parts@[k].len() > 0,
    ensures
        final(out)@ == join_with_plus(parts@.push(name@)),
{
    assert(parts@.push(name@).drop_last() =~= parts@);
    proof {
        lemma_join_plus_len(parts@);
    }
    if out.unicode_len() > 0 {
        out.append("+");
    }
    out.append(name);
    proof {
        if parts@.len() == 0 {
            assert(out@ =~= join_with_plus(parts@.push(name@)));
        }
    }
}

/// Joining non-empty names gives a non-empty string unless there are none.
proof fn lemma_join_plus_len(s: Seq<Seq<char>>)
    requires
        forall|k: int| 0 <= k < s.len() ==> #[trigger] s[k].len() > 0,
    ensures
        s.len() > 0 ==> join_with_plus(s).len() > 0,
    decreases s.len(),
{
    if s.len() > 1 {
        assert(s.last().len() > 0);
    } else if s.len() == 1 {
        assert(s[0].len() > 0);
    }
}

pub fn mask_to_mods_str(mask: u32) -> (r: String)
    ensures
        r@ == mask_names(mask),
{
    let mut out = String::new();
    let ghost mut parts: Seq<Seq<char>> = Seq::empty();
    proof {
        reveal_strlit("Super");
        reveal_strlit("Alt");
        reveal_strlit("Ctrl");
        reveal_strlit("Shift");
    }
    if mask & 1 != 0 {
        push_part(&mut out, Ghost(parts), "Super");
        proof {
            parts = parts.push("Super"@);
        }
    }
    if mask & 2 != 0 {
        push_part(&mut out, Ghost(parts), "Alt");
        proof {
            parts = parts.push("Alt"@);
        }
    }
    if mask & 4 != 0 {
        push_part(&mut out, Ghost(parts), "Ctrl");
        proof {
            parts = parts.push("Ctrl"@);
        }
    }
    if mask & 8 != 0 {
        push_part(&mut out, Ghost(parts), "Shift");
        proof {
            parts = parts.push("Shift"@);
        }
    }
    proof {
        let e = (if mask & 1 != 0 { seq!["Super"@] } else { Seq::empty() })
            + (if mask & 2 != 0 { seq!["Alt"@] } else { Seq::empty() })
            + (if mask & 4 != 0 { seq!["Ctrl"@] } else { Seq::empty() })
            + (if mask & 8 != 0 { seq!["Shift"@] } else { Seq::empty() });
        assert(parts =~= e);
    }
    out
}


/// The button code of a `Mouse:*` or `Scroll:*` key name; the scroll codes
/// are synthetic.
pub open spec fn mouse_button_spec(key: Seq<char>) -> Option<u32> {
    if key == "Mouse:Left"@ {
        Some(0x110)
    } else if key == "Mouse:Right"@ {
        Some(0x111)
    } else if key == "Mouse:Middle"@ {
        Some(0x112)
    } else if key == "Mouse:Forward"@ {
        Some(0x115)
    } else if key == "Mouse:Back"@ {
        Some(0x116)
    } else if key == "Scroll:Up"@ {
        Some(0x150)
    } else if key == "Scroll:Down"@ {
        Some(0x151)
    } else if key == "Scroll:Left"@ {
        Some(0x152)
    } else if key == "Scroll:Right"@ {
        Some(0x153)
    } else {
        None
    }
}

pub fn mouse_key_to_button(key: &str) -> (r: Option<u32>)
    ensures
        r == mouse_button_spec(key@),
{
    if str_eq(key, "Mouse:Left") {
        Some(0x110)
    } else if str_eq(key, "Mouse:Right") {
        Some(0x111)
    } else if str_eq(key, "Mouse:Middle") {
        Some(0x112)
    } else if str_eq(key, "Mouse:Forward") {
        Some(0x115)
    } else if str_eq(key, "Mouse:Back") {
        Some(0x116)
    } else if str_eq(key, "Scroll:Up") {
        Some(0x150)
    } else if str_eq(key, "Scroll:Down") {
        Some(0x151)
    } else if str_eq(key, "Scroll:Left") {
        Some(0x152)
    } else if str_eq(key, "Scroll:Right") {
        Some(0x153)
    } else {
        None
    }
}

pub struct BindEntry {
    pub mods_mask: u32,
    /// Keysym value.
    pub sym: u32,
    /// Key name as written in the config.
    pub key_name: String,
    pub action: Action,
    /// Action and arguments as written in the config.
    pub action_str: String,
    pub passthrough: bool,
    /// Fires even when the screen is locked.
    pub locked: bool,
    /// Fires even when a TotalFullscreen window holds the input.
    pub global: bool,
    /// Fires repeatedly while the key is held.
    pub repeat: bool,
}

pub struct MouseBindEntry {
    pub mods_mask: u32,
    /// Input button code.
    pub button_code: u32,
    pub action: Action,
}

/// A key bind entry with its strings as character sequences.
pub struct KeyEntryV {
    pub mods_mask: u32,
    pub sym: u32,
    pub key_name: Seq<char>,
    pub action: ActionV,
    pub action_str: Seq<char>,
    pub passthrough: bool,
    pub locked: bool,
    pub global: bool,
    pub repeat: bool,
}

pub open spec fn key_entry_view(e: BindEntry) -> KeyEntryV {
    KeyEntryV {
        mods_mask: e.mods_mask,
        sym: e.sym,
        key_name: e.key_name@,
        action: view_of(e.action),
        action_str: e.action_str@,
        passthrough: e.passthrough,
        locked: e.locked,
        global: e.global,
        repeat: e.repeat,
    }
}

pub open spec fn mouse_entry_view(e: MouseBindEntry) -> (u32, u32, ActionV) {
    (e.mods_mask, e.button_code, view_of(e.action))
}

/// The action and its arguments, as shown to the user.
pub open spec fn action_text(action: Seq<char>, args: Seq<Seq<char>>) -> Seq<char> {
    if args.len() == 0 {
        action
    } else {
        action + " "@ + join_spaced(args)
    }
}

/// A bind entry with its strings as character sequences.
pub struct BindV {
    pub mods: Seq<Seq<char>>,
    pub key: Seq<char>,
    pub action: Seq<char>,
    pub args: Seq<Seq<char>>,
    pub repeat: bool,
    pub locked: bool,
    pub global: bool,
    pub passthrough: bool,
}

pub open spec fn bind_view(b: BindConfig) -> BindV {
    BindV {
        mods: views(b.mods@),
        key: b.key@,
        action: b.action@,
        args: views(b.args@),
        repeat: b.repeat,
        locked: b.locked,
        global: b.global,
        passthrough: b.passthrough,
    }
}

/// A submap bind: no flags but `repeat`.
pub open spec fn sub_bind_view(b: SubBindConfig) -> BindV {
    BindV {
        mods: views(b.mods@),
        key: b.key@,
        action: b.action@,
        args: views(b.args@),
        repeat: b.repeat,
        locked: false,
        global: false,
        passthrough: false,
    }
}

/// The entries a list of binds gives, each key bind resolved to the keysym
/// at the same position of `syms`: binds with an empty key or action are
/// skipped; `Mouse:*`/`Scroll:*` keys give button entries; other keys
/// give key entries when their keysym is not 0; binds whose action does
/// not parse are skipped.
pub open spec fn bind_entries(binds: Seq<BindV>, syms: Seq<u32>) -> (Seq<KeyEntryV>, Seq<(u32, u32, ActionV)>)
    decreases binds.len(),
{
    if binds.len() == 0 {
        (Seq::empty(), Seq::empty())
    } else {
        let (k, m) = bind_entries(binds.drop_last(), syms);
        let b = binds.last();
        let i = binds.len() - 1;
        let parsed = parse_action_spec(b.action, b.args);
        if b.key.len() == 0 || b.action.len() == 0 {
            (k, m)
        } else {
            match mouse_button_spec(b.key) {
                Some(code) => match parsed {
                    Some(a) => (k, m.push((modset_spec(b.mods), code, a))),
                    None => (k, m),
                },
                None => if syms[i] == 0 {
                    (k, m)
                } else {
                    match parsed {
                        Some(a) => (k.push(KeyEntryV {
                            mods_mask: modset_spec(b.mods),
                            sym: syms[i],
                            key_name: b.key,
                            action: a,
                            action_str: action_text(b.action, b.args),
                            passthrough: b.passthrough,
                            locked: b.locked,
                            global: b.global,
                            repeat: b.repeat,
                        }), m),
                        None => (k, m),
                    }
                },
            }
        }
    }
}

pub struct BindTable {
    pub entries: Vec<BindEntry>,
    /// Mouse-button binds.
    pub mouse_entries: Vec<MouseBindEntry>,
}

impl BindTable {
    pub open spec fn key_view(&self) -> Seq<KeyEntryV> {
        self.entries@.map_values(|e: BindEntry| key_entry_view(e))
    }

    pub open spec fn mouse_view(&self) -> Seq<(u32, u32, ActionV)> {
        self.mouse_entries@.map_values(|e: MouseBindEntry| mouse_entry_view(e))
    }

    /// Build a table from bind entries, `syms[i]` being the keysym of
    /// `binds[i].key` (0 when the name is unknown).
    pub fn from_config(binds: &[BindConfig], syms: &[u32]) -> (t: Self)
        requires
            syms@.len() == binds@.len(),
        ensures
            (t.key_view(), t.mouse_view()) == bind_entries(binds@.map_values(|b: BindConfig| bind_view(b)), syms@),
    {
        let mut entries: Vec<BindEntry> = Vec::new();
        let mut mouse_entries: Vec<MouseBindEntry> = Vec::new();
        let mut i: usize = 0;
        while i < binds.len()
            invariant
                i <= binds@.len(),
                syms@.len() == binds@.len(),
                (entries@.map_values(|e: BindEntry| key_entry_view(e)), mouse_entries@.map_values(
                    |e: MouseBindEntry| mouse_entry_view(e),
                )) == bind_entries(binds@.take(i as int).map_values(|b: BindConfig| bind_view(b)), syms@),
            decreases binds.len() - i,
        {
            let b = &binds[i];
            let ghost prev = binds@.take(i as int);
            proof {
                assert(binds@.take(i as int + 1).map_values(|b: BindConfig| bind_view(b)).drop_last()
                    =~= prev.map_values(|b: BindConfig| bind_view(b)));
                assert(binds@.take(i as int + 1).map_values(|b: BindConfig| bind_view(b)).last() == bind_view(binds@[i as int]));
            }
            let ghost ke = entries@.map_values(|e: BindEntry| key_entry_view(e));
            let ghost me = mouse_entries@.map_values(|e: MouseBindEntry| mouse_entry_view(e));
            if b.key.unicode_len() == 0 || b.action.unicode_len() == 0 {
                i += 1;
                continue;
            }
            match mouse_key_to_button(b.key.as_str()) {
                Some(code) => {
                    match parse_action(b.action.as_str(), b.args.as_slice()) {
                        Some(action) => {
                            let m = modset_from_vec(b.mods.as_slice());
                            let e = MouseBindEntry { mods_mask: m, button_code: code, action };
                            mouse_entries.push(e);
                            assert(mouse_entries@.map_values(|e: MouseBindEntry| mouse_entry_view(e)) =~= me.push(
                                mouse_entry_view(e),
                            ));
                        },
                        None => {},
                    }
                },
                None => {
                    if syms[i] != 0 {
                        match parse_action(b.action.as_str(), b.args.as_slice()) {
                            Some(action) => {
                                let m = modset_from_vec(b.mods.as_slice());
                                let mut action_str = b.action.clone();
                                if b.args.len() > 0 {
                                    action_str.append(" ");
                                    let joined = join_from(b.args.as_slice(), 0);
                                    action_str.append(joined.as_str());
                                    proof {
                                        assert(b.args@.skip(0) =~= b.args@);
                                    }
                                }
                                let e = BindEntry {
                                    mods_mask: m,
                                    sym: syms[i],
                                    key_name: b.key.clone(),
                                    action,
                                    action_str,
                                    passthrough: b.passthrough,
                                    locked: b.locked,
                                    global: b.global,
                                    repeat: b.repeat,
                                };
                                entries.push(e);
                                assert(entries@.map_values(|e: BindEntry| key_entry_view(e)) =~= ke.push(key_entry_view(e)));
                            },
                            None => {},
                        }
                    }
                },
            }
            i += 1;
        }
        proof {
            assert(binds@.take(binds@.len() as int) =~= binds@);
        }
        BindTable { entries, mouse_entries }
    }

    /// Build a table from submap bind entries (no flags but `repeat`),
    /// `syms[i]` being the keysym of `binds[i].key`.
    pub fn from_sub_config(binds: &[SubBindConfig], syms: &[u32]) -> (t: Self)
        requires
            syms@.len() == binds@.len(),
        ensures
            (t.key_view(), t.mouse_view()) == bind_entries(binds@.map_values(|b: SubBindConfig| sub_bind_view(b)), syms@),
    {
        let mut converted: Vec<BindConfig> = Vec::new();
        let mut i: usize = 0;
        while i < binds.len()
            invariant
                i <= binds@.len(),
                converted@.len() == i,
                converted@.map_values(|b: BindConfig| bind_view(b)) == binds@.take(i as int).map_values(
                    |b: SubBindConfig| sub_bind_view(b),
                ),
            decreases binds.len() - i,
        {
            let b = &binds[i];
            let c = BindConfig {
                mods: clone_strings(&b.mods),
                key: b.key.clone(),
                action: b.action.clone(),
                args: clone_strings(&b.args),
                description: String::new(),
                repeat: b.repeat,
                locked: false,
                global: false,
                passthrough: false,
            };
            let ghost prev = converted@;
            converted.push(c);
            proof {
                let lhs = converted@.map_values(|b: BindConfig| bind_view(b));
                let rhs = binds@.take(i as int + 1).map_values(|b: SubBindConfig| sub_bind_view(b));
                assert(bind_view(c) == sub_bind_view(binds@[i as int]));
                assert forall|k: int| 0 <= k < i + 1 implies #[trigger] lhs[k] == rhs[k] by {
                    if k < i {
                        assert(converted@[k] == prev[k]);
                        assert(prev.map_values(|b: BindConfig| bind_view(b))[k] == binds@.take(i as int).map_values(
                            |b: SubBindConfig| sub_bind_view(b),
                        )[k]);
                    }
                }
                assert(lhs =~= rhs);
            }
            i += 1;
        }
        proof {
            assert(binds@.take(binds@.len() as int) =~= binds@);
        }
        Self::from_config(converted.as_slice(), syms)
    }

    /// Position of the first key entry for `sym` with modifier mask `mask`.
    fn find_key(&self, sym: u32, mask: u32) -> (r: Option<usize>)
        ensures
            match r {
                Some(i) => i < self.entries@.len() && self.entries@[i as int].sym == sym
                    && self.entries@[i as int].mods_mask == mask
                    && forall|j: int| 0 <= j < i ==> !(self.entries@[j].sym == sym && self.entries@[j].mods_mask == mask),
                None => forall|j: int| 0 <= j < self.entries@.len() ==> !(self.entries@[j].sym == sym
                    && self.entries@[j].mods_mask == mask),
            },
    {
        let mut i: usize = 0;
        while i < self.entries.len()
            invariant
                i <= self.entries@.len(),
                forall|j: int| 0 <= j < i ==> !(self.entries@[j].sym == sym && self.entries@[j].mods_mask == mask),
            decreases self.entries.len() - i,
        {
            if self.entries[i].sym == sym && self.entries[i].mods_mask == mask {
                return Some(i);
            }
            i += 1;
        }
        None
    }

    /// The first key bind for `sym` under `mods`, with its flags
    /// (locked, global, passthrough, repeat).
    pub fn lookup_flags(&self, sym: u32, mods: &Mods) -> (r: Option<(Action, bool, bool, bool, bool)>)
        ensures
            match r {
                Some(t) => exists|i: int| {
                    &&& 0 <= i < self.entries@.len()
                    &&& self.entries@[i].sym == sym
                    &&& self.entries@[i].mods_mask == mask_of(*mods)
                    &&& forall|j: int| 0 <= j < i ==> !(#[trigger] self.entries@[j].sym == sym
                        && self.entries@[j].mods_mask == mask_of(*mods))
                    &&& view_of(t.0) == view_of(self.entries@[i].action)
                    &&& t.1 == self.entries@[i].locked
                    &&& t.2 == self.entries@[i].global
                    &&& t.3 == self.entries@[i].passthrough
                    &&& t.4 == self.entries@[i].repeat
                },
                None => forall|j: int| 0 <= j < self.entries@.len() ==> !(self.entries@[j].sym == sym
                    && self.entries@[j].mods_mask == mask_of(*mods)),
            },
    {
        let mask = mods_to_mask(mods);
        match self.find_key(sym, mask) {
            Some(i) => {
                let e = &self.entries[i];
                Some((e.action.duplicate(), e.locked, e.global, e.passthrough, e.repeat))
            },
            None => None,
        }
    }

    /// The action of the first key bind for `sym` under `mods`.
    pub fn lookup(&self, sym: u32, mods: &Mods) -> (r: Option<Action>)
        ensures
            match r {
                Some(a) => exists|i: int| {
                    &&& 0 <= i < self.entries@.len()
                    &&& self.entries@[i].sym == sym
                    &&& self.entries@[i].mods_mask == mask_of(*mods)
                    &&& forall|j: int| 0 <= j < i ==> !(#[trigger] self.entries@[j].sym == sym
                        && self.entries@[j].mods_mask == mask_of(*mods))
                    &&& view_of(a) == view_of(self.entries@[i].action)
                },
                None => forall|j: int| 0 <= j < self.entries@.len() ==> !(self.entries@[j].sym == sym
                    && self.entries@[j].mods_mask == mask_of(*mods)),
            },
    {
        match self.lookup_flags(sym, mods) {
            Some(t) => Some(t.0),
            None => None,
        }
    }

    /// The action of the first button bind for `button_code` under `mods`.
    pub fn lookup_button(&self, button_code: u32, mods: &Mods) -> (r: Option<Action>)
        ensures
            match r {
                Some(a) => exists|i: int| {
                    &&& 0 <= i < self.mouse_entries@.len()
                    &&& self.mouse_entries@[i].button_code == button_code
                    &&& self.mouse_entries@[i].mods_mask == mask_of(*mods)
                    &&& forall|j: int| 0 <= j < i ==> !(#[trigger] self.mouse_entries@[j].button_code == button_code
                        && self.mouse_entries@[j].mods_mask == mask_of(*mods))
                    &&& view_of(a) == view_of(self.mouse_entries@[i].action)
                },
                None => forall|j: int| 0 <= j < self.mouse_entries@.len() ==> !(self.mouse_entries@[j].button_code
                    == button_code && self.mouse_entries@[j].mods_mask == mask_of(*mods)),
            },
    {
        let mask = mods_to_mask(mods);
        let mut i: usize = 0;
        while i < self.mouse_entries.len()
            invariant
                i <= self.mouse_entries@.len(),
                mask == mask_of(*mods),
                forall|j: int| 0 <= j < i ==> !(self.mouse_entries@[j].button_code == button_code
                    && self.mouse_entries@[j].mods_mask == mask),
            decreases self.mouse_entries.len() - i,
        {
            if self.mouse_entries[i].button_code == button_code && self.mouse_entries[i].mods_mask == mask {
                return Some(self.mouse_entries[i].action.duplicate());
            }
            i += 1;
        }
        None
    }
}


/// A copy of a list of strings.
pub fn clone_strings(v: &Vec<String>) -> (r: Vec<String>)
    ensures
        views(r@) == views(v@),
{
    let mut r: Vec<String> = Vec::new();
    let mut i: usize = 0;
    while i < v.len()
        invariant
            i <= v@.len(),
            r@.len() == i,
            views(r@) == views(v@.take(i as int)),
        decreases v.len() - i,
    {
        let ghost prev = r@;
        let c = v[i].clone();
        r.push(c);
        proof {
            assert forall|k: int| 0 <= k < i + 1 implies #[trigger] views(r@)[k] == views(v@.take(i as int + 1))[k] by {
                if k < i {
                    assert(r@[k] == prev[k]);
                    assert(views(prev)[k] == views(v@.take(i as int))[k]);
                }
            }
            assert(views(r@) =~= views(v@.take(i as int + 1)));
        }
        i += 1;
    }
    assert(v@.take(v@.len() as int) =~= v@);
    r
}

/// A named submap's binds and exit behaviour.
pub struct SubBindTable {
    pub table: BindTable,
    /// Keysyms that always leave the submap.
    pub exit_syms: Vec<u32>,
    /// Leave the submap when an unrecognized key is pressed.
    pub exit_on_unhandled: bool,
    /// Leave the submap after any recognized action fires.
    pub exit_after_action: bool,
}

/// The keysyms that are not 0, in order.
pub open spec fn known_syms(s: Seq<u32>) -> Seq<u32> {
    s.filter(|x: u32| x != 0)
}

impl SubBindTable {
    /// Build a submap table from its config, `bind_syms[i]` being the
    /// keysym of bind i and `exit_syms[i]` that of exit key i (0 when
    /// unknown; those are dropped).
    pub fn from_config(cfg: &crate::config::types::SubmapConfig, bind_syms: &[u32], exit_syms: &[u32]) -> (t: Self)
        requires
            bind_syms@.len() == cfg.binds@.len(),
        ensures
            (t.table.key_view(), t.table.mouse_view()) == bind_entries(
                cfg.binds@.map_values(|b: SubBindConfig| sub_bind_view(b)),
                bind_syms@,
            ),
            t.exit_syms@ == known_syms(exit_syms@),
            t.exit_on_unhandled == cfg.exit_on_unhandled,
            t.exit_after_action == cfg.exit_after_action,
    {
        let mut exits: Vec<u32> = Vec::new();
        let mut i: usize = 0;
        while i < exit_syms.len()
            invariant
                i <= exit_syms@.len(),
                exits@ == known_syms(exit_syms@.take(i as int)),
            decreases exit_syms.len() - i,
        {
            proof {
                assert(exit_syms@.take(i as int + 1).drop_last() =~= exit_syms@.take(i as int));
                reveal(Seq::filter);
            }
            if exit_syms[i] != 0 {
                exits.push(exit_syms[i]);
            }
            i += 1;
        }
        assert(exit_syms@.take(exit_syms@.len() as int) =~= exit_syms@);
        SubBindTable {
            table: BindTable::from_sub_config(cfg.binds.as_slice(), bind_syms),
            exit_syms: exits,
            exit_on_unhandled: cfg.exit_on_unhandled,
            exit_after_action: cfg.exit_after_action,
        }
    }

    pub fn is_exit_key(&self, sym: u32) -> (r: bool)
        ensures
            r == self.exit_syms@.contains(sym),
    {
        let mut i: usize = 0;
        while i < self.exit_syms.len()
            invariant
                i <= self.exit_syms@.len(),
                forall|j: int| 0 <= j < i ==> self.exit_syms@[j] != sym,
            decreases self.exit_syms.len() - i,
        {
            if self.exit_syms[i] == sym {
                return true;
            }
            i += 1;
        }
        false
    }

    /// The action of the first bind of the submap for `sym` under `mods`.
    pub fn lookup(&self, sym: u32, mods: &Mods) -> (r: Option<Action>)
        ensures
            match r {
                Some(a) => exists|i: int| {
                    &&& 0 <= i < self.table.entries@.len()
                    &&& self.table.entries@[i].sym == sym
                    &&& self.table.entries@[i].mods_mask == mask_of(*mods)
                    &&& forall|j: int| 0 <= j < i ==> !(#[trigger] self.table.entries@[j].sym == sym
                        && self.table.entries@[j].mods_mask == mask_of(*mods))
                    &&& view_of(a) == view_of(self.table.entries@[i].action)
                },
                None => forall|j: int| 0 <= j < self.table.entries@.len() ==> !(self.table.entries@[j].sym == sym
                    && self.table.entries@[j].mods_mask == mask_of(*mods)),
            },
    {
        self.table.lookup(sym, mods)
    }
}

/// The first position from `k` on of an entry named `n`.
pub open spec fn named_at(v: Seq<(String, SubBindTable)>, n: Seq<char>, k: int) -> Option<int>
    decreases v.len() - k,
{
    if k < 0 || k >= v.len() {
        None
    } else if v[k].0@ == n {
        Some(k)
    } else {
        named_at(v, n, k + 1)
    }
}

/// `v` with entry `e` added: it replaces the first entry of the same name,
/// or goes last.
pub open spec fn with_submap(v: Seq<(String, SubBindTable)>, e: (String, SubBindTable)) -> Seq<(String, SubBindTable)> {
    match named_at(v, e.0@, 0) {
        Some(k) => v.update(k, e),
        None => v.push(e),
    }
}

/// The entries added in order, each replacing an earlier one of its name.
pub open spec fn with_submaps(v: Seq<(String, SubBindTable)>, es: Seq<(String, SubBindTable)>) -> Seq<(String, SubBindTable)>
    decreases es.len(),
{
    if es.len() == 0 {
        v
    } else {
        with_submap(with_submaps(v, es.drop_last()), es.last())
    }
}

/// Add submap `name`, replacing the one of the same name if there is one.
pub fn insert_submap(tables: &mut Vec<(String, SubBindTable)>, name: String, t: SubBindTable)
    ensures
        final(tables)@ == with_submap(old(tables)@, (name, t)),
{
    let ghost e = (name, t);
    let mut i: usize = 0;
    while i < tables.len()
        invariant
            i <= tables@.len(),
            tables@ == old(tables)@,
            e == (name, t),
            named_at(tables@, name@, 0) == named_at(tables@, name@, i as int),
        decreases tables.len() - i,
    {
        if str_eq(tables[i].0.as_str(), name.as_str()) {
            tables.set(i, (name, t));
            return;
        }
        i += 1;
    }
    tables.push((name, t));
}

/// All submap tables: the built-in ones, then the configured ones, a
/// later table replacing an earlier one of the same name.
pub fn build_submap_tables(builtins: Vec<(String, SubBindTable)>, configured: Vec<(String, SubBindTable)>) -> (r: Vec<
    (String, SubBindTable),
>)
    ensures
        r@ == with_submaps(with_submaps(Seq::empty(), builtins@), configured@),
{
    let mut out: Vec<(String, SubBindTable)> = Vec::new();
    let ghost b0 = builtins@;
    let ghost c0 = configured@;
    let mut rest = builtins;
    let mut taken: Vec<(String, SubBindTable)> = Vec::new();
    proof {
        assert(b0.take(0) =~= Seq::<(String, SubBindTable)>::empty());
    }
    let mut i: usize = 0;
    let n = rest.len();
    while i < n
        invariant
            i <= n,
            n == b0.len(),
            rest@ == b0.skip(i as int),
            out@ == with_submaps(Seq::empty(), b0.take(i as int)),
        decreases n - i,
    {
        let e = rest.remove(0);
        proof {
            assert(b0.take(i as int + 1).drop_last() =~= b0.take(i as int));
            assert(b0.take(i as int + 1).last() == e);
            assert(rest@ =~= b0.skip(i as int + 1));
        }
        insert_submap(&mut out, e.0, e.1);
        i += 1;
    }
    assert(b0.take(n as int) =~= b0);
    let ghost mid = out@;
    let mut rest2 = configured;
    let m = rest2.len();
    let mut j: usize = 0;
    while j < m
        invariant
            j <= m,
            m == c0.len(),
            rest2@ == c0.skip(j as int),
            out@ == with_submaps(mid, c0.take(j as int)),
        decreases m - j,
    {
        let e = rest2.remove(0);
        proof {
            assert(c0.take(j as int + 1).drop_last() =~= c0.take(j as int));
            assert(c0.take(j as int + 1).last() == e);
            assert(rest2@ =~= c0.skip(j as int + 1));
        }
        insert_submap(&mut out, e.0, e.1);
        j += 1;
    }
    assert(c0.take(m as int) =~= c0);
    out
}


impl BindTable {
    /// The table of the default binds, `syms[i]` being the keysym of the
    /// key of default bind i.
    pub fn from_defaults(mod_key: &str, syms: &[u32]) -> (t: Self)
        requires
            syms@.len() == default_bind_views(mod_key@).len(),
        ensures
            (t.key_view(), t.mouse_view()) == bind_entries(default_bind_views(mod_key@), syms@),
    {
        let binds = default_binds(mod_key);
        Self::from_config(binds.as_slice(), syms)
    }

    /// The table of the default release binds.
    pub fn default_releases(mod_key: &str, syms: &[u32]) -> (t: Self)
        requires
            syms@.len() == default_release_views(mod_key@).len(),
        ensures
            (t.key_view(), t.mouse_view()) == bind_entries(default_release_views(mod_key@), syms@),
    {
        let binds = default_release_binds(mod_key);
        Self::from_config(binds.as_slice(), syms)
    }
}

/// The built-in placement submap: leaves on Escape, on an unhandled key
/// and after any action.
pub fn placement_submap(syms: &[u32], escape: u32) -> (t: SubBindTable)
    requires
        syms@.len() == placement_submap_views().len(),
    ensures
        (t.table.key_view(), t.table.mouse_view()) == bind_entries(placement_submap_views(), syms@),
        t.exit_syms@ == seq![escape],
        t.exit_on_unhandled,
        t.exit_after_action,
{
    let binds = placement_submap_binds();
    let mut exits: Vec<u32> = Vec::new();
    exits.push(escape);
    SubBindTable {
        table: BindTable::from_config(binds.as_slice(), syms),
        exit_syms: exits,
        exit_on_unhandled: true,
        exit_after_action: true,
    }
}

/// The built-in resize submap: leaves on Escape or Return only.
pub fn resize_submap(syms: &[u32], escape: u32, ret: u32) -> (t: SubBindTable)
    requires
        syms@.len() == resize_submap_views().len(),
    ensures
        (t.table.key_view(), t.table.mouse_view()) == bind_entries(resize_submap_views(), syms@),
        t.exit_syms@ == seq![escape, ret],
        !t.exit_on_unhandled,
        !t.exit_after_action,
{
    let binds = resize_submap_binds();
    let mut exits: Vec<u32> = Vec::new();
    exits.push(escape);
    exits.push(ret);
    SubBindTable {
        table: BindTable::from_config(binds.as_slice(), syms),
        exit_syms: exits,
        exit_on_unhandled: false,
        exit_after_action: false,
    }
}

pub struct GestureEntry {
    pub fingers: u8,
    pub direction: String,
    pub action: Action,
}

/// The entries a list of gestures gives: those with an empty action or
/// direction, or an action that does not parse, are skipped.
pub open spec fn gesture_entries(gs: Seq<(u8, Seq<char>, Seq<char>, Seq<Seq<char>>)>) -> Seq<(u8, Seq<char>, ActionV)>
    decreases gs.len(),
{
    if gs.len() == 0 {
        Seq::empty()
    } else {
        let prev = gesture_entries(gs.drop_last());
        let (fingers, direction, action, args) = gs.last();
        if action.len() == 0 || direction.len() == 0 {
            prev
        } else {
            match parse_action_spec(action, args) {
                Some(a) => prev.push((fingers, direction, a)),
                None => prev,
            }
        }
    }
}

/// A gesture entry with its strings as character sequences: fingers,
/// direction, action, arguments.
pub open spec fn gesture_view(g: GestureConfig) -> (u8, Seq<char>, Seq<char>, Seq<Seq<char>>) {
    (g.fingers, g.direction@, g.action@, views(g.args@))
}

/// The built-in gestures.
pub open spec fn default_gesture_views() -> Seq<(u8, Seq<char>, Seq<char>, Seq<Seq<char>>)> {
    seq![
        (4u8, "up"@, "overview-toggle"@, Seq::empty()),
        (4u8, "down"@, "overview-toggle"@, Seq::empty()),
        (3u8, "left"@, "workspace-right"@, Seq::empty()),
        (3u8, "right"@, "workspace-left"@, Seq::empty()),
    ]
}

/// Gesture binds.
pub struct GestureTable {
    pub entries: Vec<GestureEntry>,
}

impl GestureTable {
    pub open spec fn entries_view(&self) -> Seq<(u8, Seq<char>, ActionV)> {
        self.entries@.map_values(|e: GestureEntry| (e.fingers, e.direction@, view_of(e.action)))
    }

    pub fn from_config(gestures: &[GestureConfig]) -> (t: Self)
        ensures
            t.entries_view() == gesture_entries(gestures@.map_values(|g: GestureConfig| gesture_view(g))),
    {
        let mut entries: Vec<GestureEntry> = Vec::new();
        let mut i: usize = 0;
        while i < gestures.len()
            invariant
                i <= gestures@.len(),
                entries@.map_values(|e: GestureEntry| (e.fingers, e.direction@, view_of(e.action)))
                    == gesture_entries(gestures@.take(i as int).map_values(|g: GestureConfig| gesture_view(g))),
            decreases gestures.len() - i,
        {
            let g = &gestures[i];
            proof {
                assert(gestures@.take(i as int + 1).map_values(|g: GestureConfig| gesture_view(g)).drop_last()
                    =~= gestures@.take(i as int).map_values(|g: GestureConfig| gesture_view(g)));
                assert(gestures@.take(i as int + 1).map_values(|g: GestureConfig| gesture_view(g)).last() == gesture_view(gestures@[i as int]));
            }
            let ghost prev = entries@.map_values(|e: GestureEntry| (e.fingers, e.direction@, view_of(e.action)));
            if g.action.unicode_len() > 0 && g.direction.unicode_len() > 0 {
                match parse_action(g.action.as_str(), g.args.as_slice()) {
                    Some(action) => {
                        let e = GestureEntry { fingers: g.fingers, direction: g.direction.clone(), action };
                        entries.push(e);
                        assert(entries@.map_values(|e: GestureEntry| (e.fingers, e.direction@, view_of(e.action)))
                            =~= prev.push((e.fingers, e.direction@, view_of(e.action))));
                    },
                    None => {},
                }
            }
            i += 1;
        }
        assert(gestures@.take(gestures@.len() as int) =~= gestures@);
        GestureTable { entries }
    }

    /// Built-in gestures: four fingers up or down toggle the overview;
    /// three fingers left or right go to the workspace on the right or left.
    pub fn from_defaults() -> (t: Self)
        ensures
            t.entries_view() == gesture_entries(default_gesture_views()),
    {
        let mut gs: Vec<GestureConfig> = Vec::new();
        gs.push(GestureConfig {
            fingers: 4,
            direction: String::from_str("up"),
            action: String::from_str("overview-toggle"),
            args: Vec::new(),
        });
        gs.push(GestureConfig {
            fingers: 4,
            direction: String::from_str("down"),
            action: String::from_str("overview-toggle"),
            args: Vec::new(),
        });
        gs.push(GestureConfig {
            fingers: 3,
            direction: String::from_str("left"),
            action: String::from_str("workspace-right"),
            args: Vec::new(),
        });
        gs.push(GestureConfig {
            fingers: 3,
            direction: String::from_str("right"),
            action: String::from_str("workspace-left"),
            args: Vec::new(),
        });
        let t = Self::from_config(gs.as_slice());
        proof {
            assert forall|k: int| 0 <= k < 4 implies views(#[trigger] gs@[k].args@) =~= Seq::<Seq<char>>::empty() by {
                assert(gs@[k].args@.len() == 0);
            }
            assert(gs@.map_values(|g: GestureConfig| gesture_view(g)) =~~= default_gesture_views());
        }
        t
    }

    /// The action of the first gesture with `fingers` fingers toward `direction`.
    pub fn lookup(&self, fingers: u8, direction: &str) -> (r: Option<Action>)
        ensures
            match r {
                Some(a) => exists|i: int| {
                    &&& 0 <= i < self.entries@.len()
                    &&& self.entries@[i].fingers == fingers
                    &&& self.entries@[i].direction@ == direction@
                    &&& forall|j: int| 0 <= j < i ==> !(#[trigger] self.entries@[j].fingers == fingers
                        && self.entries@[j].direction@ == direction@)
                    &&& view_of(a) == view_of(self.entries@[i].action)
                },
                None => forall|j: int| 0 <= j < self.entries@.len() ==> !(self.entries@[j].fingers == fingers
                    && self.entries@[j].direction@ == direction@),
            },
    {
        let mut i: usize = 0;
        while i < self.entries.len()
            invariant
                i <= self.entries@.len(),
                forall|j: int| 0 <= j < i ==> !(self.entries@[j].fingers == fingers && self.entries@[j].direction@ == direction@),
            decreases self.entries.len() - i,
        {
            if self.entries[i].fingers == fingers && str_eq(self.entries[i].direction.as_str(), direction) {
                return Some(self.entries[i].action.duplicate());
            }
            i += 1;
        }
        None
    }
}


/// A cheatsheet row as character sequences: modifier names, key name,
/// action text, locked, global.
pub type RowV = (Seq<char>, Seq<char>, Seq<char>, bool, bool);

pub open spec fn cheat_view(e: BindEntry) -> RowV {
    (mask_names(e.mods_mask), e.key_name@, e.action_str@, e.locked, e.global)
}

pub open spec fn row_view(r: (String, String, String, bool, bool)) -> RowV {
    (r.0@, r.1@, r.2@, r.3, r.4)
}

/// Row `a` sorts strictly before row `b`: by modifier names, then key name.
pub open spec fn row_before(a: RowV, b: RowV) -> bool {
    text_lt(a.0, b.0) || (a.0 == b.0 && text_lt(a.1, b.1))
}

/// No row sorts strictly before an earlier one.
pub open spec fn rows_sorted(s: Seq<RowV>) -> bool {
    forall|i: int, j: int| 0 <= i < j < s.len() ==> !row_before(#[trigger] s[j], #[trigger] s[i])
}

/// Where `x` goes into `s`: before the first row that sorts strictly
/// after it, so after every row with the same keys.
pub open spec fn insert_pos(s: Seq<RowV>, x: RowV) -> int
    decreases s.len(),
{
    if s.len() == 0 || row_before(x, s[0]) {
        0
    } else {
        1 + insert_pos(s.drop_first(), x)
    }
}

/// The rows sorted by modifier names then key name, stably: rows with the
/// same keys keep their order in `s` (each row is inserted after the rows
/// before it that it does not sort before).
pub open spec fn stable_sorted(s: Seq<RowV>) -> Seq<RowV>
    decreases s.len(),
{
    if s.len() == 0 {
        Seq::empty()
    } else {
        let t = stable_sorted(s.drop_last());
        t.insert(insert_pos(t, s.last()), s.last())
    }
}

proof fn lemma_insert_pos(s: Seq<RowV>, x: RowV, p: int)
    requires
        0 <= p <= s.len(),
        forall|k: int| 0 <= k < p ==> !row_before(x, #[trigger] s[k]),
        p == s.len() || row_before(x, s[p]),
    ensures
        insert_pos(s, x) == p,
    decreases s.len(),
{
    if p > 0 {
        let t = s.drop_first();
        assert(!row_before(x, s[0]));
        assert forall|k: int| 0 <= k < p - 1 implies !row_before(x, #[trigger] t[k]) by {
            assert(t[k] == s[k + 1]);
        }
        if p < s.len() {
            assert(t[p - 1] == s[p]);
        }
        lemma_insert_pos(t, x, p - 1);
    }
}

proof fn lemma_row_trans(a: RowV, b: RowV, c: RowV)
    requires
        row_before(a, b),
        row_before(b, c),
    ensures
        row_before(a, c),
{
    if text_lt(a.0, b.0) && text_lt(b.0, c.0) {
        lemma_text_trans(a.0, b.0, c.0);
    } else if a.0 == b.0 && b.0 == c.0 {
        lemma_text_trans(a.1, b.1, c.1);
    }
}

fn row_before_exec(a: &(String, String, String, bool, bool), b: &(String, String, String, bool, bool)) -> (r: bool)
    ensures
        r == row_before(row_view(*a), row_view(*b)),
{
    text_less(a.0.as_str(), b.0.as_str()) || (str_eq(a.0.as_str(), b.0.as_str()) && text_less(a.1.as_str(), b.1.as_str()))
}

impl BindTable {
    /// Every key bind as a cheatsheet row, sorted by modifier names then
    /// key name; binds with the same modifiers and key keep their table
    /// order.
    pub fn for_cheatsheet(&self) -> (r: Vec<(String, String, String, bool, bool)>)
        ensures
            r@.map_values(|x: (String, String, String, bool, bool)| row_view(x))
                == stable_sorted(self.entries@.map_values(|e: BindEntry| cheat_view(e))),
            r@.map_values(|x: (String, String, String, bool, bool)| row_view(x)).to_multiset()
                == self.entries@.map_values(|e: BindEntry| cheat_view(e)).to_multiset(),
            rows_sorted(r@.map_values(|x: (String, String, String, bool, bool)| row_view(x))),
    {
        let mut out: Vec<(String, String, String, bool, bool)> = Vec::new();
        let mut i: usize = 0;
        proof {
            assert(out@.map_values(|x: (String, String, String, bool, bool)| row_view(x)) =~= Seq::<RowV>::empty());
            assert(self.entries@.take(0).map_values(|e: BindEntry| cheat_view(e)) =~= Seq::<RowV>::empty());
            assert(stable_sorted(Seq::<RowV>::empty()) =~= Seq::<RowV>::empty());
        }
        while i < self.entries.len()
            invariant
                i <= self.entries@.len(),
                out@.map_values(|x: (String, String, String, bool, bool)| row_view(x)).to_multiset()
                    == self.entries@.take(i as int).map_values(|e: BindEntry| cheat_view(e)).to_multiset(),
                rows_sorted(out@.map_values(|x: (String, String, String, bool, bool)| row_view(x))),
                out@.map_values(|x: (String, String, String, bool, bool)| row_view(x))
                    == stable_sorted(self.entries@.take(i as int).map_values(|e: BindEntry| cheat_view(e))),
            decreases self.entries.len() - i,
        {
            let e = &self.entries[i];
            let row = (mask_to_mods_str(e.mods_mask), e.key_name.clone(), e.action_str.clone(), e.locked, e.global);
            let ghost rv = row_view(row);
            assert(rv == cheat_view(self.entries@[i as int]));
            let ghost old_v = out@.map_values(|x: (String, String, String, bool, bool)| row_view(x));
            let mut p: usize = 0;
            while p < out.len() && !row_before_exec(&row, &out[p])
                invariant
                    p <= out@.len(),
                    old_v == out@.map_values(|x: (String, String, String, bool, bool)| row_view(x)),
                    rv == row_view(row),
                    forall|k: int| 0 <= k < p ==> !row_before(rv, #[trigger] old_v[k]),
                decreases out.len() - p,
            {
                p += 1;
            }
            proof {
                assert(p < old_v.len() ==> row_before(rv, old_v[p as int]));
            }
            out.insert(p, row);
            proof {
                let new_v = out@.map_values(|x: (String, String, String, bool, bool)| row_view(x));
                assert(new_v =~= old_v.insert(p as int, rv));
                vstd::seq_lib::to_multiset_insert(old_v, p as int, rv);
                let t0 = self.entries@.take(i as int).map_values(|e: BindEntry| cheat_view(e));
                let t1 = self.entries@.take(i as int + 1).map_values(|e: BindEntry| cheat_view(e));
                assert(t1 =~= t0.push(rv));
                vstd::seq_lib::to_multiset_build(t0, rv);
                lemma_insert_pos(old_v, rv, p as int);
                assert(t1.drop_last() =~= t0);
                assert(t1.last() == rv);
                assert(new_v == stable_sorted(t1));
                assert forall|a: int, b: int| 0 <= a < b < new_v.len() implies !row_before(#[trigger] new_v[b], #[trigger] new_v[a]) by {
                    if b < p {
                        assert(new_v[a] == old_v[a] && new_v[b] == old_v[b]);
                    } else if b == p {
                        assert(new_v[a] == old_v[a]);
                    } else if a == p {
                        assert(new_v[b] == old_v[b - 1]);
                        if row_before(old_v[b - 1], rv) {
                            if b - 1 == p {
                                lemma_row_irrefl_pair(old_v[p as int], rv);
                            } else {
                                assert(!row_before(old_v[b - 1], old_v[p as int]));
                                lemma_row_trans(old_v[b - 1], rv, old_v[p as int]);
                            }
                        }
                    } else if a < p {
                        assert(new_v[a] == old_v[a] && new_v[b] == old_v[b - 1]);
                    } else {
                        assert(new_v[a] == old_v[a - 1] && new_v[b] == old_v[b - 1]);
                    }
                }
            }
            i += 1;
        }
        assert(self.entries@.take(self.entries@.len() as int) =~= self.entries@);
        out
    }
}

/// Two rows cannot each sort before the other.
proof fn lemma_row_irrefl_pair(a: RowV, b: RowV)
    ensures
        !(row_before(a, b) && row_before(b, a)),
{
    crate::text::lemma_text_total(a.0, b.0);
    crate::text::lemma_text_total(a.1, b.1);
}

} // verus!
