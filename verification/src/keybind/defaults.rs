//! The built-in binds.
use vstd::prelude::*;

use super::table::{bind_view, BindV};
use crate::config::types::BindConfig;
use crate::text::views;

verus! {

fn strings0() -> (v: Vec<String>)
    ensures
        views(v@) == Seq::<Seq<char>>::empty(),
{
    let v: Vec<String> = Vec::new();
    assert(views(v@) =~= Seq::<Seq<char>>::empty());
    v
}

fn strings1(a: &str) -> (v: Vec<String>)
    ensures
        views(v@) == seq![a@],
{
    let mut v: Vec<String> = Vec::new();
    v.push(String::from_str(a));
    assert(views(v@) =~= seq![a@]);
    v
}

fn strings2(a: &str, b: &str) -> (v: Vec<String>)
    ensures
        views(v@) == seq![a@, b@],
{
    let mut v: Vec<String> = Vec::new();
    v.push(String::from_str(a));
    v.push(String::from_str(b));
    assert(views(v@) =~= seq![a@, b@]);
    v
}

fn strings3(a: &str, b: &str, c: &str) -> (v: Vec<String>)
    ensures
        views(v@) == seq![a@, b@, c@],
{
    let mut v: Vec<String> = Vec::new();
    v.push(String::from_str(a));
    v.push(String::from_str(b));
    v.push(String::from_str(c));
    assert(views(v@) =~= seq![a@, b@, c@]);
    v
}

/// A bind entry with no description and no passthrough.
fn mk_bind(mods: Vec<String>, key: &str, action: &str, args: Vec<String>, repeat: bool, locked: bool, global: bool) -> (b: BindConfig)
    ensures
        bind_view(b) == (BindV {
            mods: views(mods@),
            key: key@,
            action: action@,
            args: views(args@),
            repeat,
            locked,
            global,
            passthrough: false,
        }),
{
    BindConfig {
        mods,
        key: String::from_str(key),
        action: String::from_str(action),
        args,
        description: String::new(),
        repeat,
        locked,
        global,
        passthrough: false,
    }
}

/// Entries 0.. of `default_bind_views`.
pub open spec fn default_bind_views_0(m: Seq<char>) -> Seq<BindV> {
    seq![
        BindV { mods: seq![m], key: "Return"@, action: "exec"@, args: seq!["kitty"@], repeat: false, locked: false, global: false, passthrough: false },
        BindV { mods: seq![m], key: "d"@, action: "exec"@, args: seq!["fuzzel"@], repeat: false, locked: false, global: false, passthrough: false },
        BindV { mods: seq![m], key: "q"@, action: "close-window"@, args: Seq::empty(), repeat: false, locked: false, global: false, passthrough: false },
        BindV { mods: seq![m, "Shift"@], key: "e"@, action: "quit"@, args: Seq::empty(), repeat: false, locked: false, global: false, passthrough: false },
        BindV { mods: seq![m, "Shift"@], key: "r"@, action: "reload-config"@, args: Seq::empty(), repeat: false, locked: false, global: false, passthrough: false },
        BindV { mods: seq![m], key: "h"@, action: "focus-left"@, args: Seq::empty(), repeat: false, locked: false, global: false, passthrough: false },
        BindV { mods: seq![m], key: "j"@, action: "focus-down"@, args: Seq::empty(), repeat: false, locked: false, global: false, passthrough: false },
        BindV { mods: seq![m], key: "k"@, action: "focus-up"@, args: Seq::empty(), repeat: false, locked: false, global: false, passthrough: false },
        BindV { mods: seq![m], key: "l"@, action: "focus-right"@, args: Seq::empty(), repeat: false, locked: false, global: false, passthrough: false },
        BindV { mods: seq![m], key: "Tab"@, action: "stack-next"@, args: Seq::empty(), repeat: false, locked: false, global: false, passthrough: false },
        BindV { mods: seq![m, "Shift"@], key: "Tab"@, action: "stack-prev"@, args: Seq::empty(), repeat: false, locked: false, global: false, passthrough: false },
        BindV { mods: seq![m, "Alt"@], key: "Tab"@, action: "stack-promote"@, args: Seq::empty(), repeat: false, locked: false, global: false, passthrough: false },
    ]
}

/// Entries 12.. of `default_bind_views`.
pub open spec fn default_bind_views_1(m: Seq<char>) -> Seq<BindV> {
    seq![
        BindV { mods: seq![m, "Alt"@, "Shift"@], key: "Tab"@, action: "stack-collapse"@, args: Seq::empty(), repeat: false, locked: false, global: false, passthrough: false },
        BindV { mods: seq![m, "Alt"@], key: "Up"@, action: "stack-move-up"@, args: Seq::empty(), repeat: false, locked: false, global: false, passthrough: false },
        BindV { mods: seq![m, "Alt"@], key: "Down"@, action: "stack-move-down"@, args: Seq::empty(), repeat: false, locked: false, global: false, passthrough: false },
        BindV { mods: seq![m], key: "f"@, action: "state-fullscreen-toggle"@, args: Seq::empty(), repeat: false, locked: false, global: false, passthrough: false },
        BindV { mods: seq![m, "Shift"@], key: "f"@, action: "state-total-fullscreen-toggle"@, args: Seq::empty(), repeat: false, locked: false, global: false, passthrough: false },
        BindV { mods: seq![m, "Shift"@], key: "Escape"@, action: "total-fullscreen-exit"@, args: Seq::empty(), repeat: false, locked: false, global: false, passthrough: false },
        BindV { mods: seq![m], key: "v"@, action: "state-floating-toggle"@, args: Seq::empty(), repeat: false, locked: false, global: false, passthrough: false },
        BindV { mods: seq![m], key: "m"@, action: "minimap-toggle"@, args: Seq::empty(), repeat: false, locked: false, global: false, passthrough: false },
        BindV { mods: seq![m, "Shift"@], key: "d"@, action: "debug-overlay-toggle"@, args: Seq::empty(), repeat: false, locked: false, global: false, passthrough: false },
        BindV { mods: seq![m], key: "slash"@, action: "cheatsheet-toggle"@, args: Seq::empty(), repeat: false, locked: false, global: false, passthrough: false },
        BindV { mods: seq![m], key: "comma"@, action: "osd-show"@, args: seq!["griddy v0.1"@], repeat: false, locked: false, global: false, passthrough: false },
        BindV { mods: seq![m], key: "Left"@, action: "slot-half-left"@, args: Seq::empty(), repeat: false, locked: false, global: false, passthrough: false },
    ]
}

/// Entries 24.. of `default_bind_views`.
pub open spec fn default_bind_views_2(m: Seq<char>) -> Seq<BindV> {
    seq![
        BindV { mods: seq![m], key: "Right"@, action: "slot-half-right"@, args: Seq::empty(), repeat: false, locked: false, global: false, passthrough: false },
        BindV { mods: seq![m], key: "c"@, action: "center-floating"@, args: Seq::empty(), repeat: false, locked: false, global: false, passthrough: false },
        BindV { mods: seq![m], key: "w"@, action: "submap"@, args: seq!["placement"@], repeat: false, locked: false, global: false, passthrough: false },
        BindV { mods: seq![m], key: "r"@, action: "submap"@, args: seq!["resize"@], repeat: false, locked: false, global: false, passthrough: false },
        BindV { mods: seq![m, "Ctrl"@], key: "h"@, action: "workspace-left"@, args: Seq::empty(), repeat: false, locked: false, global: false, passthrough: false },
        BindV { mods: seq![m, "Ctrl"@], key: "j"@, action: "workspace-down"@, args: Seq::empty(), repeat: false, locked: false, global: false, passthrough: false },
        BindV { mods: seq![m, "Ctrl"@], key: "k"@, action: "workspace-up"@, args: Seq::empty(), repeat: false, locked: false, global: false, passthrough: false },
        BindV { mods: seq![m, "Ctrl"@], key: "l"@, action: "workspace-right"@, args: Seq::empty(), repeat: false, locked: false, global: false, passthrough: false },
        BindV { mods: seq![m, "Ctrl"@], key: "y"@, action: "workspace-nw"@, args: Seq::empty(), repeat: false, locked: false, global: false, passthrough: false },
        BindV { mods: seq![m, "Ctrl"@], key: "u"@, action: "workspace-ne"@, args: Seq::empty(), repeat: false, locked: false, global: false, passthrough: false },
        BindV { mods: seq![m, "Ctrl"@], key: "b"@, action: "workspace-sw"@, args: Seq::empty(), repeat: false, locked: false, global: false, passthrough: false },
        BindV { mods: seq![m, "Ctrl"@], key: "n"@, action: "workspace-se"@, args: Seq::empty(), repeat: false, locked: false, global: false, passthrough: false },
    ]
}

/// Entries 36.. of `default_bind_views`.
pub open spec fn default_bind_views_3(m: Seq<char>) -> Seq<BindV> {
    seq![
        BindV { mods: seq![m, "Ctrl"@], key: "o"@, action: "workspace-back"@, args: Seq::empty(), repeat: false, locked: false, global: false, passthrough: false },
        BindV { mods: seq![m, "Ctrl"@], key: "i"@, action: "workspace-forward"@, args: Seq::empty(), repeat: false, locked: false, global: false, passthrough: false },
        BindV { mods: seq![m, "Shift"@, "Ctrl"@], key: "h"@, action: "move-window-direction"@, args: seq!["left"@], repeat: false, locked: false, global: false, passthrough: false },
        BindV { mods: seq![m, "Shift"@, "Ctrl"@], key: "j"@, action: "move-window-direction"@, args: seq!["down"@], repeat: false, locked: false, global: false, passthrough: false },
        BindV { mods: seq![m, "Shift"@, "Ctrl"@], key: "k"@, action: "move-window-direction"@, args: seq!["up"@], repeat: false, locked: false, global: false, passthrough: false },
        BindV { mods: seq![m, "Shift"@, "Ctrl"@], key: "l"@, action: "move-window-direction"@, args: seq!["right"@], repeat: false, locked: false, global: false, passthrough: false },
        BindV { mods: seq![m], key: "o"@, action: "overview-toggle"@, args: Seq::empty(), repeat: false, locked: false, global: false, passthrough: false },
        BindV { mods: seq![m], key: "grave"@, action: "stack-peek"@, args: Seq::empty(), repeat: false, locked: false, global: false, passthrough: false },
        BindV { mods: seq![m], key: "1"@, action: "workspace-index"@, args: seq!["1"@], repeat: false, locked: false, global: false, passthrough: false },
        BindV { mods: seq![m, "Shift"@], key: "1"@, action: "move-window-to-index"@, args: seq!["1"@], repeat: false, locked: false, global: false, passthrough: false },
        BindV { mods: seq![m], key: "2"@, action: "workspace-index"@, args: seq!["2"@], repeat: false, locked: false, global: false, passthrough: false },
        BindV { mods: seq![m, "Shift"@], key: "2"@, action: "move-window-to-index"@, args: seq!["2"@], repeat: false, locked: false, global: false, passthrough: false },
    ]
}

/// Entries 48.. of `default_bind_views`.
pub open spec fn default_bind_views_4(m: Seq<char>) -> Seq<BindV> {
    seq![
        BindV { mods: seq![m], key: "3"@, action: "workspace-index"@, args: seq!["3"@], repeat: false, locked: false, global: false, passthrough: false },
        BindV { mods: seq![m, "Shift"@], key: "3"@, action: "move-window-to-index"@, args: seq!["3"@], repeat: false, locked: false, global: false, passthrough: false },
        BindV { mods: seq![m], key: "4"@, action: "workspace-index"@, args: seq!["4"@], repeat: false, locked: false, global: false, passthrough: false },
        BindV { mods: seq![m, "Shift"@], key: "4"@, action: "move-window-to-index"@, args: seq!["4"@], repeat: false, locked: false, global: false, passthrough: false },
        BindV { mods: seq![m], key: "5"@, action: "workspace-index"@, args: seq!["5"@], repeat: false, locked: false, global: false, passthrough: false },
        BindV { mods: seq![m, "Shift"@], key: "5"@, action: "move-window-to-index"@, args: seq!["5"@], repeat: false, locked: false, global: false, passthrough: false },
        BindV { mods: seq![m], key: "6"@, action: "workspace-index"@, args: seq!["6"@], repeat: false, locked: false, global: false, passthrough: false },
        BindV { mods: seq![m, "Shift"@], key: "6"@, action: "move-window-to-index"@, args: seq!["6"@], repeat: false, locked: false, global: false, passthrough: false },
        BindV { mods: seq![m], key: "7"@, action: "workspace-index"@, args: seq!["7"@], repeat: false, locked: false, global: false, passthrough: false },
        BindV { mods: seq![m, "Shift"@], key: "7"@, action: "move-window-to-index"@, args: seq!["7"@], repeat: false, locked: false, global: false, passthrough: false },
        BindV { mods: seq![m], key: "8"@, action: "workspace-index"@, args: seq!["8"@], repeat: false, locked: false, global: false, passthrough: false },
        BindV { mods: seq![m, "Shift"@], key: "8"@, action: "move-window-to-index"@, args: seq!["8"@], repeat: false, locked: false, global: false, passthrough: false },
    ]
}

/// Entries 60.. of `default_bind_views`.
pub open spec fn default_bind_views_5(m: Seq<char>) -> Seq<BindV> {
    seq![
        BindV { mods: seq![m], key: "9"@, action: "workspace-index"@, args: seq!["9"@], repeat: false, locked: false, global: false, passthrough: false },
        BindV { mods: seq![m, "Shift"@], key: "9"@, action: "move-window-to-index"@, args: seq!["9"@], repeat: false, locked: false, global: false, passthrough: false },
        BindV { mods: Seq::empty(), key: "XF86AudioRaiseVolume"@, action: "exec"@, args: seq!["wpctl set-volume @DEFAULT_AUDIO_SINK@ 5%+"@], repeat: false, locked: true, global: false, passthrough: false },
        BindV { mods: Seq::empty(), key: "XF86AudioLowerVolume"@, action: "exec"@, args: seq!["wpctl set-volume @DEFAULT_AUDIO_SINK@ 5%-"@], repeat: false, locked: true, global: false, passthrough: false },
        BindV { mods: Seq::empty(), key: "XF86AudioMute"@, action: "exec"@, args: seq!["wpctl set-mute @DEFAULT_AUDIO_SINK@ toggle"@], repeat: false, locked: true, global: false, passthrough: false },
        BindV { mods: Seq::empty(), key: "XF86AudioMicMute"@, action: "exec"@, args: seq!["wpctl set-mute @DEFAULT_AUDIO_SOURCE@ toggle"@], repeat: false, locked: true, global: false, passthrough: false },
        BindV { mods: Seq::empty(), key: "XF86MonBrightnessUp"@, action: "exec"@, args: seq!["brightnessctl set 5%+"@], repeat: false, locked: true, global: false, passthrough: false },
        BindV { mods: Seq::empty(), key: "XF86MonBrightnessDown"@, action: "exec"@, args: seq!["brightnessctl set 5%-"@], repeat: false, locked: true, global: false, passthrough: false },
        BindV { mods: Seq::empty(), key: "XF86AudioPlay"@, action: "exec"@, args: seq!["playerctl play-pause"@], repeat: false, locked: true, global: false, passthrough: false },
        BindV { mods: Seq::empty(), key: "XF86AudioNext"@, action: "exec"@, args: seq!["playerctl next"@], repeat: false, locked: true, global: false, passthrough: false },
        BindV { mods: Seq::empty(), key: "XF86AudioPrev"@, action: "exec"@, args: seq!["playerctl previous"@], repeat: false, locked: true, global: false, passthrough: false },
        BindV { mods: Seq::empty(), key: "Print"@, action: "screenshot"@, args: seq!["region"@], repeat: false, locked: true, global: false, passthrough: false },
    ]
}

/// Entries 72.. of `default_bind_views`.
pub open spec fn default_bind_views_6(m: Seq<char>) -> Seq<BindV> {
    seq![
        BindV { mods: seq![m, "Shift"@], key: "Escape"@, action: "total-fullscreen-exit"@, args: Seq::empty(), repeat: false, locked: false, global: true, passthrough: false },
        BindV { mods: seq![m, "Shift"@], key: "e"@, action: "quit"@, args: Seq::empty(), repeat: false, locked: false, global: true, passthrough: false },
    ]
}

/// The default binds, `m` being the main modifier's name.
pub open spec fn default_bind_views(m: Seq<char>) -> Seq<BindV> {
    default_bind_views_0(m) + default_bind_views_1(m) + default_bind_views_2(m) + default_bind_views_3(m) + default_bind_views_4(m) + default_bind_views_5(m) + default_bind_views_6(m)
}

fn default_binds_0(mod_key: &str) -> (v: Vec<BindConfig>)
    ensures
        v@.map_values(|b: BindConfig| bind_view(b)) == default_bind_views_0(mod_key@),
{
    let mut v: Vec<BindConfig> = Vec::new();
    v.push(mk_bind(strings1(mod_key), "Return", "exec", strings1("kitty"), false, false, false));
    v.push(mk_bind(strings1(mod_key), "d", "exec", strings1("fuzzel"), false, false, false));
    v.push(mk_bind(strings1(mod_key), "q", "close-window", strings0(), false, false, false));
    v.push(mk_bind(strings2(mod_key, "Shift"), "e", "quit", strings0(), false, false, false));
    v.push(mk_bind(strings2(mod_key, "Shift"), "r", "reload-config", strings0(), false, false, false));
    v.push(mk_bind(strings1(mod_key), "h", "focus-left", strings0(), false, false, false));
    v.push(mk_bind(strings1(mod_key), "j", "focus-down", strings0(), false, false, false));
    v.push(mk_bind(strings1(mod_key), "k", "focus-up", strings0(), false, false, false));
    v.push(mk_bind(strings1(mod_key), "l", "focus-right", strings0(), false, false, false));
    v.push(mk_bind(strings1(mod_key), "Tab", "stack-next", strings0(), false, false, false));
    v.push(mk_bind(strings2(mod_key, "Shift"), "Tab", "stack-prev", strings0(), false, false, false));
    v.push(mk_bind(strings2(mod_key, "Alt"), "Tab", "stack-promote", strings0(), false, false, false));
    assert(v@.map_values(|b: BindConfig| bind_view(b)) =~~= default_bind_views_0(mod_key@));
    v
}

fn default_binds_1(mod_key: &str) -> (v: Vec<BindConfig>)
    ensures
        v@.map_values(|b: BindConfig| bind_view(b)) == default_bind_views_1(mod_key@),
{
    let mut v: Vec<BindConfig> = Vec::new();
    v.push(mk_bind(strings3(mod_key, "Alt", "Shift"), "Tab", "stack-collapse", strings0(), false, false, false));
    v.push(mk_bind(strings2(mod_key, "Alt"), "Up", "stack-move-up", strings0(), false, false, false));
    v.push(mk_bind(strings2(mod_key, "Alt"), "Down", "stack-move-down", strings0(), false, false, false));
    v.push(mk_bind(strings1(mod_key), "f", "state-fullscreen-toggle", strings0(), false, false, false));
    v.push(mk_bind(strings2(mod_key, "Shift"), "f", "state-total-fullscreen-toggle", strings0(), false, false, false));
    v.push(mk_bind(strings2(mod_key, "Shift"), "Escape", "total-fullscreen-exit", strings0(), false, false, false));
    v.push(mk_bind(strings1(mod_key), "v", "state-floating-toggle", strings0(), false, false, false));
    v.push(mk_bind(strings1(mod_key), "m", "minimap-toggle", strings0(), false, false, false));
    v.push(mk_bind(strings2(mod_key, "Shift"), "d", "debug-overlay-toggle", strings0(), false, false, false));
    v.push(mk_bind(strings1(mod_key), "slash", "cheatsheet-toggle", strings0(), false, false, false));
    v.push(mk_bind(strings1(mod_key), "comma", "osd-show", strings1("griddy v0.1"), false, false, false));
    v.push(mk_bind(strings1(mod_key), "Left", "slot-half-left", strings0(), false, false, false));
    assert(v@.map_values(|b: BindConfig| bind_view(b)) =~~= default_bind_views_1(mod_key@));
    v
}

fn default_binds_2(mod_key: &str) -> (v: Vec<BindConfig>)
    ensures
        v@.map_values(|b: BindConfig| bind_view(b)) == default_bind_views_2(mod_key@),
{
    let mut v: Vec<BindConfig> = Vec::new();
    v.push(mk_bind(strings1(mod_key), "Right", "slot-half-right", strings0(), false, false, false));
    v.push(mk_bind(strings1(mod_key), "c", "center-floating", strings0(), false, false, false));
    v.push(mk_bind(strings1(mod_key), "w", "submap", strings1("placement"), false, false, false));
    v.push(mk_bind(strings1(mod_key), "r", "submap", strings1("resize"), false, false, false));
    v.push(mk_bind(strings2(mod_key, "Ctrl"), "h", "workspace-left", strings0(), false, false, false));
    v.push(mk_bind(strings2(mod_key, "Ctrl"), "j", "workspace-down", strings0(), false, false, false));
    v.push(mk_bind(strings2(mod_key, "Ctrl"), "k", "workspace-up", strings0(), false, false, false));
    v.push(mk_bind(strings2(mod_key, "Ctrl"), "l", "workspace-right", strings0(), false, false, false));
    v.push(mk_bind(strings2(mod_key, "Ctrl"), "y", "workspace-nw", strings0(), false, false, false));
    v.push(mk_bind(strings2(mod_key, "Ctrl"), "u", "workspace-ne", strings0(), false, false, false));
    v.push(mk_bind(strings2(mod_key, "Ctrl"), "b", "workspace-sw", strings0(), false, false, false));
    v.push(mk_bind(strings2(mod_key, "Ctrl"), "n", "workspace-se", strings0(), false, false, false));
    assert(v@.map_values(|b: BindConfig| bind_view(b)) =~~= default_bind_views_2(mod_key@));
    v
}

fn default_binds_3(mod_key: &str) -> (v: Vec<BindConfig>)
    ensures
        v@.map_values(|b: BindConfig| bind_view(b)) == default_bind_views_3(mod_key@),
{
    let mut v: Vec<BindConfig> = Vec::new();
    v.push(mk_bind(strings2(mod_key, "Ctrl"), "o", "workspace-back", strings0(), false, false, false));
    v.push(mk_bind(strings2(mod_key, "Ctrl"), "i", "workspace-forward", strings0(), false, false, false));
    v.push(mk_bind(strings3(mod_key, "Shift", "Ctrl"), "h", "move-window-direction", strings1("left"), false, false, false));
    v.push(mk_bind(strings3(mod_key, "Shift", "Ctrl"), "j", "move-window-direction", strings1("down"), false, false, false));
    v.push(mk_bind(strings3(mod_key, "Shift", "Ctrl"), "k", "move-window-direction", strings1("up"), false, false, false));
    v.push(mk_bind(strings3(mod_key, "Shift", "Ctrl"), "l", "move-window-direction", strings1("right"), false, false, false));
    v.push(mk_bind(strings1(mod_key), "o", "overview-toggle", strings0(), false, false, false));
    v.push(mk_bind(strings1(mod_key), "grave", "stack-peek", strings0(), false, false, false));
    v.push(mk_bind(strings1(mod_key), "1", "workspace-index", strings1("1"), false, false, false));
    v.push(mk_bind(strings2(mod_key, "Shift"), "1", "move-window-to-index", strings1("1"), false, false, false));
    v.push(mk_bind(strings1(mod_key), "2", "workspace-index", strings1("2"), false, false, false));
    v.push(mk_bind(strings2(mod_key, "Shift"), "2", "move-window-to-index", strings1("2"), false, false, false));
    assert(v@.map_values(|b: BindConfig| bind_view(b)) =~~= default_bind_views_3(mod_key@));
    v
}

fn default_binds_4(mod_key: &str) -> (v: Vec<BindConfig>)
    ensures
        v@.map_values(|b: BindConfig| bind_view(b)) == default_bind_views_4(mod_key@),
{
    let mut v: Vec<BindConfig> = Vec::new();
    v.push(mk_bind(strings1(mod_key), "3", "workspace-index", strings1("3"), false, false, false));
    v.push(mk_bind(strings2(mod_key, "Shift"), "3", "move-window-to-index", strings1("3"), false, false, false));
    v.push(mk_bind(strings1(mod_key), "4", "workspace-index", strings1("4"), false, false, false));
    v.push(mk_bind(strings2(mod_key, "Shift"), "4", "move-window-to-index", strings1("4"), false, false, false));
    v.push(mk_bind(strings1(mod_key), "5", "workspace-index", strings1("5"), false, false, false));
    v.push(mk_bind(strings2(mod_key, "Shift"), "5", "move-window-to-index", strings1("5"), false, false, false));
    v.push(mk_bind(strings1(mod_key), "6", "workspace-index", strings1("6"), false, false, false));
    v.push(mk_bind(strings2(mod_key, "Shift"), "6", "move-window-to-index", strings1("6"), false, false, false));
    v.push(mk_bind(strings1(mod_key), "7", "workspace-index", strings1("7"), false, false, false));
    v.push(mk_bind(strings2(mod_key, "Shift"), "7", "move-window-to-index", strings1("7"), false, false, false));
    v.push(mk_bind(strings1(mod_key), "8", "workspace-index", strings1("8"), false, false, false));
    v.push(mk_bind(strings2(mod_key, "Shift"), "8", "move-window-to-index", strings1("8"), false, false, false));
    assert(v@.map_values(|b: BindConfig| bind_view(b)) =~~= default_bind_views_4(mod_key@));
    v
}

fn default_binds_5(mod_key: &str) -> (v: Vec<BindConfig>)
    ensures
        v@.map_values(|b: BindConfig| bind_view(b)) == default_bind_views_5(mod_key@),
{
    let mut v: Vec<BindConfig> = Vec::new();
    v.push(mk_bind(strings1(mod_key), "9", "workspace-index", strings1("9"), false, false, false));
    v.push(mk_bind(strings2(mod_key, "Shift"), "9", "move-window-to-index", strings1("9"), false, false, false));
    v.push(mk_bind(strings0(), "XF86AudioRaiseVolume", "exec", strings1("wpctl set-volume @DEFAULT_AUDIO_SINK@ 5%+"), false, true, false));
    v.push(mk_bind(strings0(), "XF86AudioLowerVolume", "exec", strings1("wpctl set-volume @DEFAULT_AUDIO_SINK@ 5%-"), false, true, false));
    v.push(mk_bind(strings0(), "XF86AudioMute", "exec", strings1("wpctl set-mute @DEFAULT_AUDIO_SINK@ toggle"), false, true, false));
    v.push(mk_bind(strings0(), "XF86AudioMicMute", "exec", strings1("wpctl set-mute @DEFAULT_AUDIO_SOURCE@ toggle"), false, true, false));
    v.push(mk_bind(strings0(), "XF86MonBrightnessUp", "exec", strings1("brightnessctl set 5%+"), false, true, false));
    v.push(mk_bind(strings0(), "XF86MonBrightnessDown", "exec", strings1("brightnessctl set 5%-"), false, true, false));
    v.push(mk_bind(strings0(), "XF86AudioPlay", "exec", strings1("playerctl play-pause"), false, true, false));
    v.push(mk_bind(strings0(), "XF86AudioNext", "exec", strings1("playerctl next"), false, true, false));
    v.push(mk_bind(strings0(), "XF86AudioPrev", "exec", strings1("playerctl previous"), false, true, false));
    v.push(mk_bind(strings0(), "Print", "screenshot", strings1("region"), false, true, false));
    assert(v@.map_values(|b: BindConfig| bind_view(b)) =~~= default_bind_views_5(mod_key@));
    v
}

fn default_binds_6(mod_key: &str) -> (v: Vec<BindConfig>)
    ensures
        v@.map_values(|b: BindConfig| bind_view(b)) == default_bind_views_6(mod_key@),
{
    let mut v: Vec<BindConfig> = Vec::new();
    v.push(mk_bind(strings2(mod_key, "Shift"), "Escape", "total-fullscreen-exit", strings0(), false, false, true));
    v.push(mk_bind(strings2(mod_key, "Shift"), "e", "quit", strings0(), false, false, true));
    assert(v@.map_values(|b: BindConfig| bind_view(b)) =~~= default_bind_views_6(mod_key@));
    v
}

/// The default binds, `m` being the main modifier's name.
pub fn default_binds(mod_key: &str) -> (v: Vec<BindConfig>)
    ensures
        v@.map_values(|b: BindConfig| bind_view(b)) == default_bind_views(mod_key@),
{
    let mut v = default_binds_0(mod_key);
    let mut w = default_binds_1(mod_key);
    let ghost a = v@;
    v.append(&mut w);
    assert(v@.map_values(|b: BindConfig| bind_view(b)) =~= a.map_values(|b: BindConfig| bind_view(b)) + default_bind_views_1(mod_key@));
    let mut w = default_binds_2(mod_key);
    let ghost a = v@;
    v.append(&mut w);
    assert(v@.map_values(|b: BindConfig| bind_view(b)) =~= a.map_values(|b: BindConfig| bind_view(b)) + default_bind_views_2(mod_key@));
    let mut w = default_binds_3(mod_key);
    let ghost a = v@;
    v.append(&mut w);
    assert(v@.map_values(|b: BindConfig| bind_view(b)) =~= a.map_values(|b: BindConfig| bind_view(b)) + default_bind_views_3(mod_key@));
    let mut w = default_binds_4(mod_key);
    let ghost a = v@;
    v.append(&mut w);
    assert(v@.map_values(|b: BindConfig| bind_view(b)) =~= a.map_values(|b: BindConfig| bind_view(b)) + default_bind_views_4(mod_key@));
    let mut w = default_binds_5(mod_key);
    let ghost a = v@;
    v.append(&mut w);
    assert(v@.map_values(|b: BindConfig| bind_view(b)) =~= a.map_values(|b: BindConfig| bind_view(b)) + default_bind_views_5(mod_key@));
    let mut w = default_binds_6(mod_key);
    let ghost a = v@;
    v.append(&mut w);
    assert(v@.map_values(|b: BindConfig| bind_view(b)) =~= a.map_values(|b: BindConfig| bind_view(b)) + default_bind_views_6(mod_key@));
    v
}

/// Entries 0.. of `default_release_views`.
pub open spec fn default_release_views_0(m: Seq<char>) -> Seq<BindV> {
    seq![
        BindV { mods: seq![m], key: "grave"@, action: "stack-peek"@, args: Seq::empty(), repeat: false, locked: false, global: false, passthrough: false },
    ]
}

/// The default release binds: releasing the stack-peek key leaves the peek.
pub open spec fn default_release_views(m: Seq<char>) -> Seq<BindV> {
    default_release_views_0(m)
}

fn default_release_binds_0(mod_key: &str) -> (v: Vec<BindConfig>)
    ensures
        v@.map_values(|b: BindConfig| bind_view(b)) == default_release_views_0(mod_key@),
{
    let mut v: Vec<BindConfig> = Vec::new();
    v.push(mk_bind(strings1(mod_key), "grave", "stack-peek", strings0(), false, false, false));
    assert(v@.map_values(|b: BindConfig| bind_view(b)) =~~= default_release_views_0(mod_key@));
    v
}

/// The default release binds: releasing the stack-peek key leaves the peek.
pub fn default_release_binds(mod_key: &str) -> (v: Vec<BindConfig>)
    ensures
        v@.map_values(|b: BindConfig| bind_view(b)) == default_release_views(mod_key@),
{
    let mut v = default_release_binds_0(mod_key);
    v
}

/// Entries 0.. of `placement_submap_views`.
pub open spec fn placement_submap_views_0() -> Seq<BindV> {
    seq![
        BindV { mods: Seq::empty(), key: "f"@, action: "state-fullscreen-toggle"@, args: Seq::empty(), repeat: false, locked: false, global: false, passthrough: false },
        BindV { mods: seq!["Shift"@], key: "f"@, action: "state-total-fullscreen-toggle"@, args: Seq::empty(), repeat: false, locked: false, global: false, passthrough: false },
        BindV { mods: Seq::empty(), key: "h"@, action: "slot-half-left"@, args: Seq::empty(), repeat: false, locked: false, global: false, passthrough: false },
        BindV { mods: Seq::empty(), key: "l"@, action: "slot-half-right"@, args: Seq::empty(), repeat: false, locked: false, global: false, passthrough: false },
        BindV { mods: Seq::empty(), key: "u"@, action: "slot-quarter-tl"@, args: Seq::empty(), repeat: false, locked: false, global: false, passthrough: false },
        BindV { mods: Seq::empty(), key: "i"@, action: "slot-quarter-tr"@, args: Seq::empty(), repeat: false, locked: false, global: false, passthrough: false },
        BindV { mods: Seq::empty(), key: "j"@, action: "slot-quarter-bl"@, args: Seq::empty(), repeat: false, locked: false, global: false, passthrough: false },
        BindV { mods: Seq::empty(), key: "k"@, action: "slot-quarter-br"@, args: Seq::empty(), repeat: false, locked: false, global: false, passthrough: false },
        BindV { mods: Seq::empty(), key: "v"@, action: "state-floating-toggle"@, args: Seq::empty(), repeat: false, locked: false, global: false, passthrough: false },
    ]
}

/// The binds of the built-in placement submap.
pub open spec fn placement_submap_views() -> Seq<BindV> {
    placement_submap_views_0()
}

fn placement_submap_binds_0() -> (v: Vec<BindConfig>)
    ensures
        v@.map_values(|b: BindConfig| bind_view(b)) == placement_submap_views_0(),
{
    let mut v: Vec<BindConfig> = Vec::new();
    v.push(mk_bind(strings0(), "f", "state-fullscreen-toggle", strings0(), false, false, false));
    v.push(mk_bind(strings1("Shift"), "f", "state-total-fullscreen-toggle", strings0(), false, false, false));
    v.push(mk_bind(strings0(), "h", "slot-half-left", strings0(), false, false, false));
    v.push(mk_bind(strings0(), "l", "slot-half-right", strings0(), false, false, false));
    v.push(mk_bind(strings0(), "u", "slot-quarter-tl", strings0(), false, false, false));
    v.push(mk_bind(strings0(), "i", "slot-quarter-tr", strings0(), false, false, false));
    v.push(mk_bind(strings0(), "j", "slot-quarter-bl", strings0(), false, false, false));
    v.push(mk_bind(strings0(), "k", "slot-quarter-br", strings0(), false, false, false));
    v.push(mk_bind(strings0(), "v", "state-floating-toggle", strings0(), false, false, false));
    assert(v@.map_values(|b: BindConfig| bind_view(b)) =~~= placement_submap_views_0());
    v
}

/// The binds of the built-in placement submap.
pub fn placement_submap_binds() -> (v: Vec<BindConfig>)
    ensures
        v@.map_values(|b: BindConfig| bind_view(b)) == placement_submap_views(),
{
    let mut v = placement_submap_binds_0();
    v
}

/// Entries 0.. of `resize_submap_views`.
pub open spec fn resize_submap_views_0() -> Seq<BindV> {
    seq![
        BindV { mods: Seq::empty(), key: "h"@, action: "resize-active"@, args: seq!["-20"@, "0"@], repeat: true, locked: false, global: false, passthrough: false },
        BindV { mods: Seq::empty(), key: "l"@, action: "resize-active"@, args: seq!["20"@, "0"@], repeat: true, locked: false, global: false, passthrough: false },
        BindV { mods: Seq::empty(), key: "k"@, action: "resize-active"@, args: seq!["0"@, "-20"@], repeat: true, locked: false, global: false, passthrough: false },
        BindV { mods: Seq::empty(), key: "j"@, action: "resize-active"@, args: seq!["0"@, "20"@], repeat: true, locked: false, global: false, passthrough: false },
    ]
}

/// The binds of the built-in resize submap; they repeat while held.
pub open spec fn resize_submap_views() -> Seq<BindV> {
    resize_submap_views_0()
}

fn resize_submap_binds_0() -> (v: Vec<BindConfig>)
    ensures
        v@.map_values(|b: BindConfig| bind_view(b)) == resize_submap_views_0(),
{
    let mut v: Vec<BindConfig> = Vec::new();
    v.push(mk_bind(strings0(), "h", "resize-active", strings2("-20", "0"), true, false, false));
    v.push(mk_bind(strings0(), "l", "resize-active", strings2("20", "0"), true, false, false));
    v.push(mk_bind(strings0(), "k", "resize-active", strings2("0", "-20"), true, false, false));
    v.push(mk_bind(strings0(), "j", "resize-active", strings2("0", "20"), true, false, false));
    assert(v@.map_values(|b: BindConfig| bind_view(b)) =~~= resize_submap_views_0());
    v
}

/// The binds of the built-in resize submap; they repeat while held.
pub fn resize_submap_binds() -> (v: Vec<BindConfig>)
    ensures
        v@.map_values(|b: BindConfig| bind_view(b)) == resize_submap_views(),
{
    let mut v = resize_submap_binds_0();
    v
}

} // verus!
