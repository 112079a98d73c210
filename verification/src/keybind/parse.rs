//! Parsing bind entries (an action name and its arguments) into actions.
use vstd::prelude::*;
use vstd::string::StrSliceExecFns;

use super::action::{view_of, Action, ActionV};
use crate::grid::focus::FocusDirection;
use crate::grid::window::Slot;
use crate::text::{
    join_from, join_spaced, parse_i32, parse_signed, parse_u32, parse_u64, parse_u8, parse_unsigned, split_comma,
    split_comma_spec, str_eq, strip_prefix, trim, trimmed, views,
};

verus! {

/// The first argument, or `d` when there is none.
pub open spec fn first_or(args: Seq<Seq<char>>, d: Seq<char>) -> Seq<char> {
    if args.len() > 0 {
        args[0]
    } else {
        d
    }
}

/// Argument `k` as a `u8`, when there is one and it parses.
pub open spec fn arg_u8_at(args: Seq<Seq<char>>, k: int) -> Option<u8> {
    if 0 <= k < args.len() {
        match parse_unsigned(args[k], 255) {
            Some(v) => Some(v as u8),
            None => None,
        }
    } else {
        None
    }
}

/// A `col,row` first argument.
pub open spec fn coord_spec(args: Seq<Seq<char>>) -> Option<(u8, u8)> {
    if args.len() == 0 {
        None
    } else {
        match split_comma_spec(args[0]) {
            Some((c, r)) => match (parse_unsigned(c, 255), parse_unsigned(r, 255)) {
                (Some(x), Some(y)) => Some((x as u8, y as u8)),
                _ => None,
            },
            None => None,
        }
    }
}

/// Argument `k` as an `i32`, 0 when it is missing or does not parse.
pub open spec fn arg_i32_or_zero(args: Seq<Seq<char>>, k: int) -> i32 {
    if k < args.len() {
        match parse_signed(args[k], i32::MIN as int, i32::MAX as int) {
            Some(v) => v as i32,
            None => 0,
        }
    } else {
        0
    }
}

pub open spec fn direction_spec(s: Seq<char>) -> Option<FocusDirection> {
    if s == "left"@ {
        Some(FocusDirection::Left)
    } else if s == "right"@ {
        Some(FocusDirection::Right)
    } else if s == "up"@ {
        Some(FocusDirection::Up)
    } else if s == "down"@ {
        Some(FocusDirection::Down)
    } else {
        None
    }
}

/// A slot name, in either of its two spellings.
pub open spec fn slot_spec(s: Seq<char>) -> Option<Slot> {
    if s == "HalfLeft"@ || s == "half-left"@ {
        Some(Slot::HalfLeft)
    } else if s == "HalfRight"@ || s == "half-right"@ {
        Some(Slot::HalfRight)
    } else if s == "QuarterTL"@ || s == "quarter-tl"@ {
        Some(Slot::QuarterTL)
    } else if s == "QuarterTR"@ || s == "quarter-tr"@ {
        Some(Slot::QuarterTR)
    } else if s == "QuarterBL"@ || s == "quarter-bl"@ {
        Some(Slot::QuarterBL)
    } else if s == "QuarterBR"@ || s == "quarter-br"@ {
        Some(Slot::QuarterBR)
    } else {
        None
    }
}

/// The action an action name and its arguments stand for; None when the
/// name is unknown or the arguments do not fit it. A name of the form
/// `exec <cmd>` runs the trimmed command.
pub open spec fn parse_action_spec(a: Seq<char>, args: Seq<Seq<char>>) -> Option<ActionV> {
    if a.len() >= "exec "@.len() && a.take("exec "@.len() as int) == "exec "@ {
        Some(ActionV::Exec(trimmed(a.skip("exec "@.len() as int))))
    } else {
        match parse_part1(a, args) {
            Some(r) => r,
            None => match parse_part2(a, args) {
            Some(r) => r,
            None => match parse_part3(a, args) {
            Some(r) => r,
            None => match parse_part4(a, args) {
            Some(r) => r,
            None => None
        }
        }
        }
        }
    }
}

pub fn parse_direction(s: &str) -> (r: Option<FocusDirection>)
    ensures
        r == direction_spec(s@),
{
    if str_eq(s, "left") {
        Some(FocusDirection::Left)
    } else if str_eq(s, "right") {
        Some(FocusDirection::Right)
    } else if str_eq(s, "up") {
        Some(FocusDirection::Up)
    } else if str_eq(s, "down") {
        Some(FocusDirection::Down)
    } else {
        None
    }
}

pub fn parse_slot(s: &str) -> (r: Option<Slot>)
    ensures
        r == slot_spec(s@),
{
    if str_eq(s, "HalfLeft") || str_eq(s, "half-left") {
        Some(Slot::HalfLeft)
    } else if str_eq(s, "HalfRight") || str_eq(s, "half-right") {
        Some(Slot::HalfRight)
    } else if str_eq(s, "QuarterTL") || str_eq(s, "quarter-tl") {
        Some(Slot::QuarterTL)
    } else if str_eq(s, "QuarterTR") || str_eq(s, "quarter-tr") {
        Some(Slot::QuarterTR)
    } else if str_eq(s, "QuarterBL") || str_eq(s, "quarter-bl") {
        Some(Slot::QuarterBL)
    } else if str_eq(s, "QuarterBR") || str_eq(s, "quarter-br") {
        Some(Slot::QuarterBR)
    } else {
        None
    }
}

/// The first argument, or `d` when there is none.
fn first_or_default(args: &[String], d: &str) -> (r: String)
    ensures
        r@ == first_or(views(args@), d@),
{
    if args.len() > 0 {
        args[0].clone()
    } else {
        String::from_str(d)
    }
}

/// Argument `k` as a `u8`, when there is one and it parses.
fn arg_u8(args: &[String], k: usize) -> (r: Option<u8>)
    ensures
        r == arg_u8_at(views(args@), k as int),
{
    if k < args.len() {
        parse_u8(args[k].as_str())
    } else {
        None
    }
}

/// Argument `k` as an `i32`, 0 when it is missing or does not parse.
fn arg_i32_or_zero_exec(args: &[String], k: usize) -> (r: i32)
    ensures
        r == arg_i32_or_zero(views(args@), k as int),
{
    if k < args.len() {
        match parse_i32(args[k].as_str()) {
            Some(v) => v,
            None => 0,
        }
    } else {
        0
    }
}

/// Whether argument `k` exists and is `lit`.
fn arg_is(args: &[String], k: usize, lit: &str) -> (r: bool)
    ensures
        r == (k < args@.len() && views(args@)[k as int] == lit@),
{
    k < args.len() && str_eq(args[k].as_str(), lit)
}

/// A `col,row` first argument.
pub fn parse_coord(args: &[String]) -> (r: Option<(u8, u8)>)
    ensures
        r == coord_spec(views(args@)),
{
    if args.len() == 0 {
        return None;
    }
    let (c, r) = match split_comma(args[0].as_str()) {
        Some(p) => p,
        None => return None,
    };
    match (parse_u8(c), parse_u8(r)) {
        (Some(x), Some(y)) => Some((x, y)),
        _ => None,
    }
}

/// Part 1 of the action table: Some(result) when the name is one of its names.
pub open spec fn parse_part1(a: Seq<char>, args: Seq<Seq<char>>) -> Option<Option<ActionV>> {
    if a == "exec"@ {
        Some(if join_spaced(args).len() > 0 { Some(ActionV::Exec(join_spaced(args))) } else { None })
    } else if a == "close-window"@ {
        Some(Some(ActionV::CloseWindow))
    } else if a == "quit"@ {
        Some(Some(ActionV::Quit))
    } else if a == "reload-config"@ {
        Some(Some(ActionV::ReloadConfig))
    } else if a == "reload-theme"@ {
        Some(Some(ActionV::ReloadTheme))
    } else if a == "osd-show"@ {
        Some(Some(ActionV::OsdShow(first_or(args, ""@))))
    } else if a == "cycle-shader"@ {
        Some(Some(ActionV::CycleShader))
    } else if a == "cheatsheet-toggle"@ {
        Some(Some(ActionV::CheatsheetToggle))
    } else if a == "debug-overlay-toggle"@ {
        Some(Some(ActionV::DebugOverlayToggle))
    } else if a == "center-floating"@ {
        Some(Some(ActionV::CenterFloating))
    } else if a == "workspace-left"@ {
        Some(Some(ActionV::WorkspaceLeft))
    } else if a == "workspace-right"@ {
        Some(Some(ActionV::WorkspaceRight))
    } else if a == "workspace-up"@ {
        Some(Some(ActionV::WorkspaceUp))
    } else if a == "workspace-down"@ {
        Some(Some(ActionV::WorkspaceDown))
    } else if a == "workspace-nw"@ {
        Some(Some(ActionV::WorkspaceNW))
    } else if a == "workspace-ne"@ {
        Some(Some(ActionV::WorkspaceNE))
    } else if a == "workspace-sw"@ {
        Some(Some(ActionV::WorkspaceSW))
    } else if a == "workspace-se"@ {
        Some(Some(ActionV::WorkspaceSE))
    } else if a == "workspace-back"@ {
        Some(Some(ActionV::WorkspaceBack))
    } else {
        None
    }
}

/// Part 2 of the action table: Some(result) when the name is one of its names.
pub open spec fn parse_part2(a: Seq<char>, args: Seq<Seq<char>>) -> Option<Option<ActionV>> {
    if a == "workspace-forward"@ {
        Some(Some(ActionV::WorkspaceForward))
    } else if a == "workspace-index"@ {
        Some(match arg_u8_at(args, 0) { Some(n) => Some(ActionV::WorkspaceIndex(n)), None => None })
    } else if a == "workspace"@ {
        Some(match coord_spec(args) { Some((c, r)) => Some(ActionV::WorkspaceTo(c, r)), None => None })
    } else if a == "workspace-direction"@ {
        Some(if args.len() > 0 && args[0] == "left"@ { Some(ActionV::WorkspaceLeft) } else if args.len() > 0 && args[0] == "right"@ { Some(ActionV::WorkspaceRight) } else if args.len() > 0 && args[0] == "up"@ { Some(ActionV::WorkspaceUp) } else if args.len() > 0 && args[0] == "down"@ { Some(ActionV::WorkspaceDown) } else { None })
    } else if a == "focus-left"@ {
        Some(Some(ActionV::FocusLeft))
    } else if a == "focus-right"@ {
        Some(Some(ActionV::FocusRight))
    } else if a == "focus-up"@ {
        Some(Some(ActionV::FocusUp))
    } else if a == "focus-down"@ {
        Some(Some(ActionV::FocusDown))
    } else if a == "state-fullscreen-toggle"@ {
        Some(Some(ActionV::StateFullscreenToggle))
    } else if a == "state-total-fullscreen-toggle"@ {
        Some(Some(ActionV::StateTotalFullscreenToggle))
    } else if a == "state-floating-toggle"@ {
        Some(Some(ActionV::StateFloatingToggle))
    } else if a == "slot-half-left"@ {
        Some(Some(ActionV::SlotHalfLeft))
    } else if a == "slot-half-right"@ {
        Some(Some(ActionV::SlotHalfRight))
    } else if a == "slot-quarter-tl"@ {
        Some(Some(ActionV::SlotQuarterTL))
    } else if a == "slot-quarter-tr"@ {
        Some(Some(ActionV::SlotQuarterTR))
    } else if a == "slot-quarter-bl"@ {
        Some(Some(ActionV::SlotQuarterBL))
    } else if a == "slot-quarter-br"@ {
        Some(Some(ActionV::SlotQuarterBR))
    } else if a == "stack-next"@ {
        Some(Some(ActionV::StackNext))
    } else if a == "stack-prev"@ {
        Some(Some(ActionV::StackPrev))
    } else {
        None
    }
}

/// Part 3 of the action table: Some(result) when the name is one of its names.
pub open spec fn parse_part3(a: Seq<char>, args: Seq<Seq<char>>) -> Option<Option<ActionV>> {
    if a == "stack-promote"@ {
        Some(Some(ActionV::StackPromote))
    } else if a == "stack-collapse"@ {
        Some(Some(ActionV::StackCollapse))
    } else if a == "stack-move-up"@ {
        Some(Some(ActionV::StackMoveUp))
    } else if a == "stack-move-down"@ {
        Some(Some(ActionV::StackMoveDown))
    } else if a == "total-fullscreen-exit"@ {
        Some(Some(ActionV::TotalFullscreenExit))
    } else if a == "workspace-sync-toggle"@ {
        Some(Some(ActionV::WorkspaceSync))
    } else if a == "workspace-rename"@ {
        Some(match (arg_u8_at(args, 0), arg_u8_at(args, 1)) { (Some(c), Some(r)) => Some(ActionV::WorkspaceRename(c, r, if args.len() > 2 { args[2] } else { Seq::<char>::empty() })), _ => None })
    } else if a == "minimap-toggle"@ {
        Some(Some(ActionV::MinimapToggle))
    } else if a == "move-window-to-workspace-and-follow"@ {
        Some(match coord_spec(args) { Some((c, r)) => Some(ActionV::MoveWindowToWorkspaceAndFollow(c, r)), None => None })
    } else if a == "spawn-floating"@ {
        Some(if join_spaced(args).len() > 0 { Some(ActionV::SpawnFloating(join_spaced(args))) } else { None })
    } else if a == "spawn-in-slot"@ {
        Some(if args.len() == 0 { None } else { match slot_spec(args[0]) { Some(s) => if join_spaced(args.skip(1)).len() > 0 { Some(ActionV::SpawnInSlot(s, join_spaced(args.skip(1)))) } else { None }, None => None } })
    } else if a == "spawn-on-workspace"@ {
        Some(match coord_spec(args) { Some((c, r)) => if join_spaced(args.skip(1)).len() > 0 { Some(ActionV::SpawnOnWorkspace(c, r, join_spaced(args.skip(1)))) } else { None }, None => None })
    } else if a == "spawn-stacked"@ {
        Some(if join_spaced(args).len() > 0 { Some(ActionV::SpawnStacked(join_spaced(args))) } else { None })
    } else if a == "move-window-direction"@ {
        Some(if args.len() == 0 { None } else { match direction_spec(args[0]) { Some(d) => Some(ActionV::MoveWindowDirection(d)), None => None } })
    } else if a == "move-window-to-index"@ {
        Some(match arg_u8_at(args, 0) { Some(n) => Some(ActionV::MoveWindowToIndex(n)), None => None })
    } else if a == "move-window-to"@ {
        Some(match coord_spec(args) { Some((c, r)) => Some(ActionV::MoveWindowTo(c, r)), None => None })
    } else if a == "resize-active"@ {
        Some(Some(ActionV::ResizeActive(arg_i32_or_zero(args, 0), arg_i32_or_zero(args, 1))))
    } else if a == "submap"@ {
        Some(if args.len() == 0 { None } else if args[0] == "reset"@ { Some(ActionV::SubmapReset) } else { Some(ActionV::Submap(args[0])) })
    } else if a == "submap-reset"@ {
        Some(Some(ActionV::SubmapReset))
    } else {
        None
    }
}

/// Part 4 of the action table: Some(result) when the name is one of its names.
pub open spec fn parse_part4(a: Seq<char>, args: Seq<Seq<char>>) -> Option<Option<ActionV>> {
    if a == "overview-toggle"@ {
        Some(Some(ActionV::OverviewToggle))
    } else if a == "overview-activate"@ {
        Some(Some(ActionV::OverviewActivate))
    } else if a == "overview-window-next"@ {
        Some(Some(ActionV::OverviewWindowNext))
    } else if a == "overview-window-prev"@ {
        Some(Some(ActionV::OverviewWindowPrev))
    } else if a == "overview-grab-window"@ {
        Some(Some(ActionV::OverviewGrabWindow))
    } else if a == "overview-drop-window"@ {
        Some(Some(ActionV::OverviewDropWindow))
    } else if a == "overview-cancel-grab"@ {
        Some(Some(ActionV::OverviewCancelGrab))
    } else if a == "overview-focus-direction"@ {
        Some(if args.len() > 0 && args[0] == "left"@ { Some(ActionV::OverviewFocusLeft) } else if args.len() > 0 && args[0] == "right"@ { Some(ActionV::OverviewFocusRight) } else if args.len() > 0 && args[0] == "up"@ { Some(ActionV::OverviewFocusUp) } else if args.len() > 0 && args[0] == "down"@ { Some(ActionV::OverviewFocusDown) } else { None })
    } else if a == "screenshot"@ {
        Some(Some(ActionV::Screenshot(first_or(args, "region"@))))
    } else if a == "workspace-apply-template"@ || a == "apply-template"@ {
        Some(if args.len() == 0 { Some(ActionV::ApplyTemplate(255, 255)) } else { match coord_spec(args) { Some((c, r)) => Some(ActionV::ApplyTemplate(c, r)), None => None } })
    } else if a == "toggle-special"@ {
        Some(Some(ActionV::ToggleSpecial(first_or(args, "scratchpad"@))))
    } else if a == "move-to-special"@ {
        Some(Some(ActionV::MoveToSpecial(first_or(args, "scratchpad"@))))
    } else if a == "stack-flip"@ {
        Some(Some(ActionV::StackFlip(if args.len() > 0 && parse_unsigned(args[0], u32::MAX as int) is Some { parse_unsigned(args[0], u32::MAX as int)->0 as u32 } else { 0 })))
    } else if a == "move-window"@ {
        Some(match coord_spec(args) { Some((c, r)) => Some(ActionV::MoveWindowTo(c, r)), None => None })
    } else if a == "overview-peek"@ {
        Some(Some(ActionV::OverviewPeek))
    } else if a == "stack-peek"@ {
        Some(Some(ActionV::StackPeek))
    } else if a == "set-window-shader"@ {
        Some(if args.len() > 0 && parse_unsigned(args[0], u64::MAX as int) is Some { Some(ActionV::SetWindowShader(parse_unsigned(args[0], u64::MAX as int)->0 as u64, join_spaced(args.skip(1)))) } else { None })
    } else if a == "screen-shader"@ {
        Some(Some(ActionV::ScreenShader(first_or(args, ""@))))
    } else {
        None
    }
}

fn parse_part1_exec(action: &str, args: &[String]) -> (r: Option<Option<Action>>)
    requires
        forall|k: int| 0 <= k <= args@.len() ==> #[trigger] views(args@.skip(k)) == views(args@).skip(k),
        views(args@).skip(0) == views(args@),
    ensures
        match r {
            Some(Some(x)) => parse_part1(action@, views(args@)) == Some(Some(view_of(x))),
            Some(None) => parse_part1(action@, views(args@)) == Some(None::<ActionV>),
            None => parse_part1(action@, views(args@)) is None,
        },
{
    if str_eq(action, "exec") {
            let r = {
                let cmd = join_from(args, 0);
                if cmd.unicode_len() > 0 { Some(Action::Exec(cmd)) } else { None }
            };
            Some(r)
    } else if str_eq(action, "close-window") {
            Some(Some(Action::CloseWindow))
    } else if str_eq(action, "quit") {
            Some(Some(Action::Quit))
    } else if str_eq(action, "reload-config") {
            Some(Some(Action::ReloadConfig))
    } else if str_eq(action, "reload-theme") {
            Some(Some(Action::ReloadTheme))
    } else if str_eq(action, "osd-show") {
            let r = {
                Some(Action::OsdShow(first_or_default(args, "")))
            };
            Some(r)
    } else if str_eq(action, "cycle-shader") {
            Some(Some(Action::CycleShader))
    } else if str_eq(action, "cheatsheet-toggle") {
            Some(Some(Action::CheatsheetToggle))
    } else if str_eq(action, "debug-overlay-toggle") {
            Some(Some(Action::DebugOverlayToggle))
    } else if str_eq(action, "center-floating") {
            Some(Some(Action::CenterFloating))
    } else if str_eq(action, "workspace-left") {
            Some(Some(Action::WorkspaceLeft))
    } else if str_eq(action, "workspace-right") {
            Some(Some(Action::WorkspaceRight))
    } else if str_eq(action, "workspace-up") {
            Some(Some(Action::WorkspaceUp))
    } else if str_eq(action, "workspace-down") {
            Some(Some(Action::WorkspaceDown))
    } else if str_eq(action, "workspace-nw") {
            Some(Some(Action::WorkspaceNW))
    } else if str_eq(action, "workspace-ne") {
            Some(Some(Action::WorkspaceNE))
    } else if str_eq(action, "workspace-sw") {
            Some(Some(Action::WorkspaceSW))
    } else if str_eq(action, "workspace-se") {
            Some(Some(Action::WorkspaceSE))
    } else if str_eq(action, "workspace-back") {
            Some(Some(Action::WorkspaceBack))
    } else {
        None
    }
}

fn parse_part2_exec(action: &str, args: &[String]) -> (r: Option<Option<Action>>)
    requires
        forall|k: int| 0 <= k <= args@.len() ==> #[trigger] views(args@.skip(k)) == views(args@).skip(k),
        views(args@).skip(0) == views(args@),
    ensures
        match r {
            Some(Some(x)) => parse_part2(action@, views(args@)) == Some(Some(view_of(x))),
            Some(None) => parse_part2(action@, views(args@)) == Some(None::<ActionV>),
            None => parse_part2(action@, views(args@)) is None,
        },
{
    if str_eq(action, "workspace-forward") {
            Some(Some(Action::WorkspaceForward))
    } else if str_eq(action, "workspace-index") {
            let r = {
                match arg_u8(args, 0) { Some(n) => Some(Action::WorkspaceIndex(n)), None => None }
            };
            Some(r)
    } else if str_eq(action, "workspace") {
            let r = {
                match parse_coord(args) { Some((c, r)) => Some(Action::WorkspaceTo(c, r)), None => None }
            };
            Some(r)
    } else if str_eq(action, "workspace-direction") {
            let r = {
                if arg_is(args, 0, "left") { Some(Action::WorkspaceLeft) } else if arg_is(args, 0, "right") { Some(Action::WorkspaceRight) } else if arg_is(args, 0, "up") { Some(Action::WorkspaceUp) } else if arg_is(args, 0, "down") { Some(Action::WorkspaceDown) } else { None }
            };
            Some(r)
    } else if str_eq(action, "focus-left") {
            Some(Some(Action::FocusLeft))
    } else if str_eq(action, "focus-right") {
            Some(Some(Action::FocusRight))
    } else if str_eq(action, "focus-up") {
            Some(Some(Action::FocusUp))
    } else if str_eq(action, "focus-down") {
            Some(Some(Action::FocusDown))
    } else if str_eq(action, "state-fullscreen-toggle") {
            Some(Some(Action::StateFullscreenToggle))
    } else if str_eq(action, "state-total-fullscreen-toggle") {
            Some(Some(Action::StateTotalFullscreenToggle))
    } else if str_eq(action, "state-floating-toggle") {
            Some(Some(Action::StateFloatingToggle))
    } else if str_eq(action, "slot-half-left") {
            Some(Some(Action::SlotHalfLeft))
    } else if str_eq(action, "slot-half-right") {
            Some(Some(Action::SlotHalfRight))
    } else if str_eq(action, "slot-quarter-tl") {
            Some(Some(Action::SlotQuarterTL))
    } else if str_eq(action, "slot-quarter-tr") {
            Some(Some(Action::SlotQuarterTR))
    } else if str_eq(action, "slot-quarter-bl") {
            Some(Some(Action::SlotQuarterBL))
    } else if str_eq(action, "slot-quarter-br") {
            Some(Some(Action::SlotQuarterBR))
    } else if str_eq(action, "stack-next") {
            Some(Some(Action::StackNext))
    } else if str_eq(action, "stack-prev") {
            Some(Some(Action::StackPrev))
    } else {
        None
    }
}

fn parse_part3_exec(action: &str, args: &[String]) -> (r: Option<Option<Action>>)
    requires
        forall|k: int| 0 <= k <= args@.len() ==> #[trigger] views(args@.skip(k)) == views(args@).skip(k),
        views(args@).skip(0) == views(args@),
    ensures
        match r {
            Some(Some(x)) => parse_part3(action@, views(args@)) == Some(Some(view_of(x))),
            Some(None) => parse_part3(action@, views(args@)) == Some(None::<ActionV>),
            None => parse_part3(action@, views(args@)) is None,
        },
{
    if str_eq(action, "stack-promote") {
            Some(Some(Action::StackPromote))
    } else if str_eq(action, "stack-collapse") {
            Some(Some(Action::StackCollapse))
    } else if str_eq(action, "stack-move-up") {
            Some(Some(Action::StackMoveUp))
    } else if str_eq(action, "stack-move-down") {
            Some(Some(Action::StackMoveDown))
    } else if str_eq(action, "total-fullscreen-exit") {
            Some(Some(Action::TotalFullscreenExit))
    } else if str_eq(action, "workspace-sync-toggle") {
            Some(Some(Action::WorkspaceSync))
    } else if str_eq(action, "workspace-rename") {
            let r = {
                match (arg_u8(args, 0), arg_u8(args, 1)) {
                    (Some(c), Some(r)) => Some(Action::WorkspaceRename(c, r, if args.len() > 2 { args[2].clone() } else { String::new() })),
                    _ => None,
                }
            };
            Some(r)
    } else if str_eq(action, "minimap-toggle") {
            Some(Some(Action::MinimapToggle))
    } else if str_eq(action, "move-window-to-workspace-and-follow") {
            let r = {
                match parse_coord(args) { Some((c, r)) => Some(Action::MoveWindowToWorkspaceAndFollow(c, r)), None => None }
            };
            Some(r)
    } else if str_eq(action, "spawn-floating") {
            let r = {
                let cmd = join_from(args, 0);
                if cmd.unicode_len() > 0 { Some(Action::SpawnFloating(cmd)) } else { None }
            };
            Some(r)
    } else if str_eq(action, "spawn-in-slot") {
            let r = {
                if args.len() == 0 {
                    None
                } else {
                    match parse_slot(args[0].as_str()) {
                        Some(s) => {
                            let cmd = join_from(args, 1);
                            if cmd.unicode_len() > 0 { Some(Action::SpawnInSlot(s, cmd)) } else { None }
                        },
                        None => None,
                    }
                }
            };
            Some(r)
    } else if str_eq(action, "spawn-on-workspace") {
            let r = {
                match parse_coord(args) {
                    Some((c, r)) => {
                        let cmd = join_from(args, 1);
                        if cmd.unicode_len() > 0 { Some(Action::SpawnOnWorkspace(c, r, cmd)) } else { None }
                    },
                    None => None,
                }
            };
            Some(r)
    } else if str_eq(action, "spawn-stacked") {
            let r = {
                let cmd = join_from(args, 0);
                if cmd.unicode_len() > 0 { Some(Action::SpawnStacked(cmd)) } else { None }
            };
            Some(r)
    } else if str_eq(action, "move-window-direction") {
            let r = {
                if args.len() == 0 {
                    None
                } else {
                    match parse_direction(args[0].as_str()) { Some(d) => Some(Action::MoveWindowDirection(d)), None => None }
                }
            };
            Some(r)
    } else if str_eq(action, "move-window-to-index") {
            let r = {
                match arg_u8(args, 0) { Some(n) => Some(Action::MoveWindowToIndex(n)), None => None }
            };
            Some(r)
    } else if str_eq(action, "move-window-to") {
            let r = {
                match parse_coord(args) { Some((c, r)) => Some(Action::MoveWindowTo(c, r)), None => None }
            };
            Some(r)
    } else if str_eq(action, "resize-active") {
            let r = {
                Some(Action::ResizeActive(arg_i32_or_zero_exec(args, 0), arg_i32_or_zero_exec(args, 1)))
            };
            Some(r)
    } else if str_eq(action, "submap") {
            let r = {
                if args.len() == 0 {
                    None
                } else if str_eq(args[0].as_str(), "reset") {
                    Some(Action::SubmapReset)
                } else {
                    Some(Action::Submap(args[0].clone()))
                }
            };
            Some(r)
    } else if str_eq(action, "submap-reset") {
            Some(Some(Action::SubmapReset))
    } else {
        None
    }
}

fn parse_part4_exec(action: &str, args: &[String]) -> (r: Option<Option<Action>>)
    requires
        forall|k: int| 0 <= k <= args@.len() ==> #[trigger] views(args@.skip(k)) == views(args@).skip(k),
        views(args@).skip(0) == views(args@),
    ensures
        match r {
            Some(Some(x)) => parse_part4(action@, views(args@)) == Some(Some(view_of(x))),
            Some(None) => parse_part4(action@, views(args@)) == Some(None::<ActionV>),
            None => parse_part4(action@, views(args@)) is None,
        },
{
    if str_eq(action, "overview-toggle") {
            Some(Some(Action::OverviewToggle))
    } else if str_eq(action, "overview-activate") {
            Some(Some(Action::OverviewActivate))
    } else if str_eq(action, "overview-window-next") {
            Some(Some(Action::OverviewWindowNext))
    } else if str_eq(action, "overview-window-prev") {
            Some(Some(Action::OverviewWindowPrev))
    } else if str_eq(action, "overview-grab-window") {
            Some(Some(Action::OverviewGrabWindow))
    } else if str_eq(action, "overview-drop-window") {
            Some(Some(Action::OverviewDropWindow))
    } else if str_eq(action, "overview-cancel-grab") {
            Some(Some(Action::OverviewCancelGrab))
    } else if str_eq(action, "overview-focus-direction") {
            let r = {
                if arg_is(args, 0, "left") { Some(Action::OverviewFocusLeft) } else if arg_is(args, 0, "right") { Some(Action::OverviewFocusRight) } else if arg_is(args, 0, "up") { Some(Action::OverviewFocusUp) } else if arg_is(args, 0, "down") { Some(Action::OverviewFocusDown) } else { None }
            };
            Some(r)
    } else if str_eq(action, "screenshot") {
            let r = {
                Some(Action::Screenshot(first_or_default(args, "region")))
            };
            Some(r)
    } else if str_eq(action, "workspace-apply-template") || str_eq(action, "apply-template") {
            let r = {
                if args.len() == 0 {
                    Some(Action::ApplyTemplate(255, 255))
                } else {
                    match parse_coord(args) { Some((c, r)) => Some(Action::ApplyTemplate(c, r)), None => None }
                }
            };
            Some(r)
    } else if str_eq(action, "toggle-special") {
            let r = {
                Some(Action::ToggleSpecial(first_or_default(args, "scratchpad")))
            };
            Some(r)
    } else if str_eq(action, "move-to-special") {
            let r = {
                Some(Action::MoveToSpecial(first_or_default(args, "scratchpad")))
            };
            Some(r)
    } else if str_eq(action, "stack-flip") {
            let r = {
                let n: u32 = if args.len() > 0 { match parse_u32(args[0].as_str()) { Some(n) => n, None => 0 } } else { 0 };
                Some(Action::StackFlip(n))
            };
            Some(r)
    } else if str_eq(action, "move-window") {
            let r = {
                match parse_coord(args) { Some((c, r)) => Some(Action::MoveWindowTo(c, r)), None => None }
            };
            Some(r)
    } else if str_eq(action, "overview-peek") {
            Some(Some(Action::OverviewPeek))
    } else if str_eq(action, "stack-peek") {
            Some(Some(Action::StackPeek))
    } else if str_eq(action, "set-window-shader") {
            let r = {
                let id = if args.len() > 0 { parse_u64(args[0].as_str()) } else { None };
                match id {
                    Some(id) => Some(Action::SetWindowShader(id, join_from(args, if args.len() > 0 { 1 } else { 0 }))),
                    None => None,
                }
            };
            Some(r)
    } else if str_eq(action, "screen-shader") {
            let r = {
                Some(Action::ScreenShader(first_or_default(args, "")))
            };
            Some(r)
    } else {
        None
    }
}

/// The action `action` with `args` stands for (see `parse_action_spec`).
pub fn parse_action(action: &str, args: &[String]) -> (r: Option<Action>)
    ensures
        match r {
            Some(a) => parse_action_spec(action@, views(args@)) == Some(view_of(a)),
            None => parse_action_spec(action@, views(args@)) is None,
        },
{
    proof {
        assert forall|k: int| 0 <= k <= args@.len() implies #[trigger] views(args@.skip(k)) == views(args@).skip(k) by {
            assert(views(args@.skip(k)) =~= views(args@).skip(k));
        }
        assert(views(args@).skip(0) =~= views(args@));
    }
    if let Some(cmd) = strip_prefix(action, "exec ") {
        return Some(Action::Exec(String::from_str(trim(cmd))));
    }
    match parse_part1_exec(action, args) {
        Some(r) => r,
        None => match parse_part2_exec(action, args) {
        Some(r) => r,
        None => match parse_part3_exec(action, args) {
        Some(r) => r,
        None => match parse_part4_exec(action, args) {
        Some(r) => r,
        None => None
    }
    }
    }
    }
}

} // verus!
