//! The actions a key, button or gesture can be bound to.
use vstd::prelude::*;

use crate::grid::focus::FocusDirection;
use crate::grid::window::Slot;

verus! {

/// A compositor action.
#[derive(Debug)]
pub enum Action {
    Exec(String),
    CloseWindow,
    Quit,
    ReloadConfig,
    ReloadTheme,
    CenterFloating,
    /// Show an on-screen message.
    OsdShow(String),
    CycleShader,
    CheatsheetToggle,
    DebugOverlayToggle,
    WorkspaceLeft,
    WorkspaceRight,
    WorkspaceUp,
    WorkspaceDown,
    WorkspaceNW,
    WorkspaceNE,
    WorkspaceSW,
    WorkspaceSE,
    WorkspaceBack,
    WorkspaceForward,
    WorkspaceIndex(u8),
    WorkspaceTo(u8, u8),
    FocusLeft,
    FocusRight,
    FocusUp,
    FocusDown,
    StateFullscreenToggle,
    StateTotalFullscreenToggle,
    StateFloatingToggle,
    SlotHalfLeft,
    SlotHalfRight,
    SlotQuarterTL,
    SlotQuarterTR,
    SlotQuarterBL,
    SlotQuarterBR,
    StackNext,
    StackPrev,
    StackPromote,
    StackCollapse,
    StackMoveUp,
    StackMoveDown,
    /// Jump directly to stack position n (0 = top).
    StackFlip(u32),
    MoveWindowDirection(FocusDirection),
    MoveWindowToIndex(u8),
    MoveWindowTo(u8, u8),
    MoveWindowToWorkspaceAndFollow(u8, u8),
    SpawnFloating(String),
    SpawnInSlot(Slot, String),
    SpawnOnWorkspace(u8, u8, String),
    SpawnStacked(String),
    TotalFullscreenExit,
    WorkspaceSync,
    WorkspaceRename(u8, u8, String),
    MinimapToggle,
    /// Grow the focused floating window by (dw, dh).
    ResizeActive(i32, i32),
    Submap(String),
    SubmapReset,
    /// Dispatch the inner action, then leave the active submap.
    SubmapActionThenReset(Box<Action>),
    OverviewToggle,
    OverviewFocusLeft,
    OverviewFocusRight,
    OverviewFocusUp,
    OverviewFocusDown,
    OverviewActivate,
    /// Cycle focus to the next window of the focused thumbnail.
    OverviewWindowNext,
    /// Cycle focus to the previous window of the focused thumbnail.
    OverviewWindowPrev,
    /// Pick up the focused window to drag it between thumbnails.
    OverviewGrabWindow,
    /// Drop a grabbed window.
    OverviewDropWindow,
    /// Cancel a grab and return the window to its origin workspace.
    OverviewCancelGrab,
    Screenshot(String),
    /// Apply the template of workspace (col, row), even if already applied; (255, 255) is the focused one.
    ApplyTemplate(u8, u8),
    /// Show or hide a named special workspace.
    ToggleSpecial(String),
    /// Move the focused window into a named special workspace.
    MoveToSpecial(String),
    /// Hold to show the overview.
    OverviewPeek,
    /// Hold to fan out the stack preview.
    StackPeek,
    /// Set a per-window shader: window id and path (empty or `clear` to clear).
    SetWindowShader(u64, String),
    /// Set or clear the screen post-process shader.
    ScreenShader(String),
}

/// An action with its strings as character sequences.
pub enum ActionV {
    Exec(Seq<char>),
    CloseWindow,
    Quit,
    ReloadConfig,
    ReloadTheme,
    CenterFloating,
    OsdShow(Seq<char>),
    CycleShader,
    CheatsheetToggle,
    DebugOverlayToggle,
    WorkspaceLeft,
    WorkspaceRight,
    WorkspaceUp,
    WorkspaceDown,
    WorkspaceNW,
    WorkspaceNE,
    WorkspaceSW,
    WorkspaceSE,
    WorkspaceBack,
    WorkspaceForward,
    WorkspaceIndex(u8),
    WorkspaceTo(u8, u8),
    FocusLeft,
    FocusRight,
    FocusUp,
    FocusDown,
    StateFullscreenToggle,
    StateTotalFullscreenToggle,
    StateFloatingToggle,
    SlotHalfLeft,
    SlotHalfRight,
    SlotQuarterTL,
    SlotQuarterTR,
    SlotQuarterBL,
    SlotQuarterBR,
    StackNext,
    StackPrev,
    StackPromote,
    StackCollapse,
    StackMoveUp,
    StackMoveDown,
    StackFlip(u32),
    MoveWindowDirection(FocusDirection),
    MoveWindowToIndex(u8),
    MoveWindowTo(u8, u8),
    MoveWindowToWorkspaceAndFollow(u8, u8),
    SpawnFloating(Seq<char>),
    SpawnInSlot(Slot, Seq<char>),
    SpawnOnWorkspace(u8, u8, Seq<char>),
    SpawnStacked(Seq<char>),
    TotalFullscreenExit,
    WorkspaceSync,
    WorkspaceRename(u8, u8, Seq<char>),
    MinimapToggle,
    ResizeActive(i32, i32),
    Submap(Seq<char>),
    SubmapReset,
    SubmapActionThenReset(Box<ActionV>),
    OverviewToggle,
    OverviewFocusLeft,
    OverviewFocusRight,
    OverviewFocusUp,
    OverviewFocusDown,
    OverviewActivate,
    OverviewWindowNext,
    OverviewWindowPrev,
    OverviewGrabWindow,
    OverviewDropWindow,
    OverviewCancelGrab,
    Screenshot(Seq<char>),
    ApplyTemplate(u8, u8),
    ToggleSpecial(Seq<char>),
    MoveToSpecial(Seq<char>),
    OverviewPeek,
    StackPeek,
    SetWindowShader(u64, Seq<char>),
    ScreenShader(Seq<char>),
}

/// The action with its strings as character sequences.
pub open spec fn view_of(a: Action) -> ActionV
    decreases a,
{
    match a {
        Action::Exec(x0) => ActionV::Exec(x0@),
        Action::CloseWindow => ActionV::CloseWindow,
        Action::Quit => ActionV::Quit,
        Action::ReloadConfig => ActionV::ReloadConfig,
        Action::ReloadTheme => ActionV::ReloadTheme,
        Action::CenterFloating => ActionV::CenterFloating,
        Action::OsdShow(x0) => ActionV::OsdShow(x0@),
        Action::CycleShader => ActionV::CycleShader,
        Action::CheatsheetToggle => ActionV::CheatsheetToggle,
        Action::DebugOverlayToggle => ActionV::DebugOverlayToggle,
        Action::WorkspaceLeft => ActionV::WorkspaceLeft,
        Action::WorkspaceRight => ActionV::WorkspaceRight,
        Action::WorkspaceUp => ActionV::WorkspaceUp,
        Action::WorkspaceDown => ActionV::WorkspaceDown,
        Action::WorkspaceNW => ActionV::WorkspaceNW,
        Action::WorkspaceNE => ActionV::WorkspaceNE,
        Action::WorkspaceSW => ActionV::WorkspaceSW,
        Action::WorkspaceSE => ActionV::WorkspaceSE,
        Action::WorkspaceBack => ActionV::WorkspaceBack,
        Action::WorkspaceForward => ActionV::WorkspaceForward,
        Action::WorkspaceIndex(x0) => ActionV::WorkspaceIndex(x0),
        Action::WorkspaceTo(x0, x1) => ActionV::WorkspaceTo(x0, x1),
        Action::FocusLeft => ActionV::FocusLeft,
        Action::FocusRight => ActionV::FocusRight,
        Action::FocusUp => ActionV::FocusUp,
        Action::FocusDown => ActionV::FocusDown,
        Action::StateFullscreenToggle => ActionV::StateFullscreenToggle,
        Action::StateTotalFullscreenToggle => ActionV::StateTotalFullscreenToggle,
        Action::StateFloatingToggle => ActionV::StateFloatingToggle,
        Action::SlotHalfLeft => ActionV::SlotHalfLeft,
        Action::SlotHalfRight => ActionV::SlotHalfRight,
        Action::SlotQuarterTL => ActionV::SlotQuarterTL,
        Action::SlotQuarterTR => ActionV::SlotQuarterTR,
        Action::SlotQuarterBL => ActionV::SlotQuarterBL,
        Action::SlotQuarterBR => ActionV::SlotQuarterBR,
        Action::StackNext => ActionV::StackNext,
        Action::StackPrev => ActionV::StackPrev,
        Action::StackPromote => ActionV::StackPromote,
        Action::StackCollapse => ActionV::StackCollapse,
        Action::StackMoveUp => ActionV::StackMoveUp,
        Action::StackMoveDown => ActionV::StackMoveDown,
        Action::StackFlip(x0) => ActionV::StackFlip(x0),
        Action::MoveWindowDirection(x0) => ActionV::MoveWindowDirection(x0),
        Action::MoveWindowToIndex(x0) => ActionV::MoveWindowToIndex(x0),
        Action::MoveWindowTo(x0, x1) => ActionV::MoveWindowTo(x0, x1),
        Action::MoveWindowToWorkspaceAndFollow(x0, x1) => ActionV::MoveWindowToWorkspaceAndFollow(x0, x1),
        Action::SpawnFloating(x0) => ActionV::SpawnFloating(x0@),
        Action::SpawnInSlot(x0, x1) => ActionV::SpawnInSlot(x0, x1@),
        Action::SpawnOnWorkspace(x0, x1, x2) => ActionV::SpawnOnWorkspace(x0, x1, x2@),
        Action::SpawnStacked(x0) => ActionV::SpawnStacked(x0@),
        Action::TotalFullscreenExit => ActionV::TotalFullscreenExit,
        Action::WorkspaceSync => ActionV::WorkspaceSync,
        Action::WorkspaceRename(x0, x1, x2) => ActionV::WorkspaceRename(x0, x1, x2@),
        Action::MinimapToggle => ActionV::MinimapToggle,
        Action::ResizeActive(x0, x1) => ActionV::ResizeActive(x0, x1),
        Action::Submap(x0) => ActionV::Submap(x0@),
        Action::SubmapReset => ActionV::SubmapReset,
        Action::SubmapActionThenReset(x0) => ActionV::SubmapActionThenReset(Box::new(view_of(*x0))),
        Action::OverviewToggle => ActionV::OverviewToggle,
        Action::OverviewFocusLeft => ActionV::OverviewFocusLeft,
        Action::OverviewFocusRight => ActionV::OverviewFocusRight,
        Action::OverviewFocusUp => ActionV::OverviewFocusUp,
        Action::OverviewFocusDown => ActionV::OverviewFocusDown,
        Action::OverviewActivate => ActionV::OverviewActivate,
        Action::OverviewWindowNext => ActionV::OverviewWindowNext,
        Action::OverviewWindowPrev => ActionV::OverviewWindowPrev,
        Action::OverviewGrabWindow => ActionV::OverviewGrabWindow,
        Action::OverviewDropWindow => ActionV::OverviewDropWindow,
        Action::OverviewCancelGrab => ActionV::OverviewCancelGrab,
        Action::Screenshot(x0) => ActionV::Screenshot(x0@),
        Action::ApplyTemplate(x0, x1) => ActionV::ApplyTemplate(x0, x1),
        Action::ToggleSpecial(x0) => ActionV::ToggleSpecial(x0@),
        Action::MoveToSpecial(x0) => ActionV::MoveToSpecial(x0@),
        Action::OverviewPeek => ActionV::OverviewPeek,
        Action::StackPeek => ActionV::StackPeek,
        Action::SetWindowShader(x0, x1) => ActionV::SetWindowShader(x0, x1@),
        Action::ScreenShader(x0) => ActionV::ScreenShader(x0@),
    }
}

impl Action {
    /// A copy of the action.
    pub fn duplicate(&self) -> (r: Action)
        ensures
            view_of(r) == view_of(*self),
        decreases self,
    {
        match self {
            Action::Exec(x0) => Action::Exec(x0.clone()),
            Action::CloseWindow => Action::CloseWindow,
            Action::Quit => Action::Quit,
            Action::ReloadConfig => Action::ReloadConfig,
            Action::ReloadTheme => Action::ReloadTheme,
            Action::CenterFloating => Action::CenterFloating,
            Action::OsdShow(x0) => Action::OsdShow(x0.clone()),
            Action::CycleShader => Action::CycleShader,
            Action::CheatsheetToggle => Action::CheatsheetToggle,
            Action::DebugOverlayToggle => Action::DebugOverlayToggle,
            Action::WorkspaceLeft => Action::WorkspaceLeft,
            Action::WorkspaceRight => Action::WorkspaceRight,
            Action::WorkspaceUp => Action::WorkspaceUp,
            Action::WorkspaceDown => Action::WorkspaceDown,
            Action::WorkspaceNW => Action::WorkspaceNW,
            Action::WorkspaceNE => Action::WorkspaceNE,
            Action::WorkspaceSW => Action::WorkspaceSW,
            Action::WorkspaceSE => Action::WorkspaceSE,
            Action::WorkspaceBack => Action::WorkspaceBack,
            Action::WorkspaceForward => Action::WorkspaceForward,
            Action::WorkspaceIndex(x0) => Action::WorkspaceIndex(*x0),
            Action::WorkspaceTo(x0, x1) => Action::WorkspaceTo(*x0, *x1),
            Action::FocusLeft => Action::FocusLeft,
            Action::FocusRight => Action::FocusRight,
            Action::FocusUp => Action::FocusUp,
            Action::FocusDown => Action::FocusDown,
            Action::StateFullscreenToggle => Action::StateFullscreenToggle,
            Action::StateTotalFullscreenToggle => Action::StateTotalFullscreenToggle,
            Action::StateFloatingToggle => Action::StateFloatingToggle,
            Action::SlotHalfLeft => Action::SlotHalfLeft,
            Action::SlotHalfRight => Action::SlotHalfRight,
            Action::SlotQuarterTL => Action::SlotQuarterTL,
            Action::SlotQuarterTR => Action::SlotQuarterTR,
            Action::SlotQuarterBL => Action::SlotQuarterBL,
            Action::SlotQuarterBR => Action::SlotQuarterBR,
            Action::StackNext => Action::StackNext,
            Action::StackPrev => Action::StackPrev,
            Action::StackPromote => Action::StackPromote,
            Action::StackCollapse => Action::StackCollapse,
            Action::StackMoveUp => Action::StackMoveUp,
            Action::StackMoveDown => Action::StackMoveDown,
            Action::StackFlip(x0) => Action::StackFlip(*x0),
            Action::MoveWindowDirection(x0) => Action::MoveWindowDirection(*x0),
            Action::MoveWindowToIndex(x0) => Action::MoveWindowToIndex(*x0),
            Action::MoveWindowTo(x0, x1) => Action::MoveWindowTo(*x0, *x1),
            Action::MoveWindowToWorkspaceAndFollow(x0, x1) => Action::MoveWindowToWorkspaceAndFollow(*x0, *x1),
            Action::SpawnFloating(x0) => Action::SpawnFloating(x0.clone()),
            Action::SpawnInSlot(x0, x1) => Action::SpawnInSlot(*x0, x1.clone()),
            Action::SpawnOnWorkspace(x0, x1, x2) => Action::SpawnOnWorkspace(*x0, *x1, x2.clone()),
            Action::SpawnStacked(x0) => Action::SpawnStacked(x0.clone()),
            Action::TotalFullscreenExit => Action::TotalFullscreenExit,
            Action::WorkspaceSync => Action::WorkspaceSync,
            Action::WorkspaceRename(x0, x1, x2) => Action::WorkspaceRename(*x0, *x1, x2.clone()),
            Action::MinimapToggle => Action::MinimapToggle,
            Action::ResizeActive(x0, x1) => Action::ResizeActive(*x0, *x1),
            Action::Submap(x0) => Action::Submap(x0.clone()),
            Action::SubmapReset => Action::SubmapReset,
            Action::SubmapActionThenReset(x0) => Action::SubmapActionThenReset(Box::new((**x0).duplicate())),
            Action::OverviewToggle => Action::OverviewToggle,
            Action::OverviewFocusLeft => Action::OverviewFocusLeft,
            Action::OverviewFocusRight => Action::OverviewFocusRight,
            Action::OverviewFocusUp => Action::OverviewFocusUp,
            Action::OverviewFocusDown => Action::OverviewFocusDown,
            Action::OverviewActivate => Action::OverviewActivate,
            Action::OverviewWindowNext => Action::OverviewWindowNext,
            Action::OverviewWindowPrev => Action::OverviewWindowPrev,
            Action::OverviewGrabWindow => Action::OverviewGrabWindow,
            Action::OverviewDropWindow => Action::OverviewDropWindow,
            Action::OverviewCancelGrab => Action::OverviewCancelGrab,
            Action::Screenshot(x0) => Action::Screenshot(x0.clone()),
            Action::ApplyTemplate(x0, x1) => Action::ApplyTemplate(*x0, *x1),
            Action::ToggleSpecial(x0) => Action::ToggleSpecial(x0.clone()),
            Action::MoveToSpecial(x0) => Action::MoveToSpecial(x0.clone()),
            Action::OverviewPeek => Action::OverviewPeek,
            Action::StackPeek => Action::StackPeek,
            Action::SetWindowShader(x0, x1) => Action::SetWindowShader(*x0, x1.clone()),
            Action::ScreenShader(x0) => Action::ScreenShader(x0.clone()),
        }
    }
}

} // verus!
