//! Grid model: NxN workspace grid, window registry, slot assignment, navigation.

pub mod assign;
pub mod conflict;
pub mod focus;
pub mod laws;
pub mod layout;
pub mod model;
pub mod moves;
pub mod navigate;
pub mod placement;
pub mod posts;
pub mod render;
pub mod resize;
pub mod states;
pub mod window;
pub mod workspace;

use vstd::prelude::*;

use crate::config::types::{Config, ConflictPolicy, FocusOnClosePolicy};
use window::{Rect, Slot, WindowId, WindowState};
use workspace::Workspace;

pub use focus::FocusDirection;

verus! {

/// A mapped toplevel with its grid assignment.
pub struct Window {
    pub id: WindowId,
    pub app_id: String,
    pub title: String,
    /// Grid coordinates of the owning workspace; (255, 255) for a window
    /// kept in a named special workspace.
    pub workspace: (u8, u8),
    /// What the window currently is.
    pub current_state: WindowState,
    /// What the user or a rule originally asked for.
    pub requested_state: WindowState,
    /// Current slot (meaningful while Tiled).
    pub current_slot: Option<Slot>,
    /// Originally requested slot, remembered for restore after adaptation.
    pub requested_slot: Option<Slot>,
    /// 0 = top of its stack.
    pub stack_index: u32,
    /// Remembered geometry for Floating.
    pub floating_geom: Rect,
    /// The window asked for focus but was denied it.
    pub is_urgent: bool,
    /// Client process id, when known.
    pub pid: Option<u32>,
    /// The window this one swallowed, if any.
    pub swallowed_id: Option<WindowId>,
    /// Hidden because a child window swallowed it.
    pub is_swallowed: bool,
    /// Pinned to all workspaces.
    pub sticky: bool,
    /// Skip all animations for this window.
    pub no_animations: bool,
    /// Render above TotalFullscreen on the same workspace.
    pub above_total_fullscreen: bool,
    /// Border color override (hex string).
    pub border_color: Option<String>,
    /// Path to a per-window shader.
    pub shader: Option<String>,
    /// May take focus even with focus-steal prevention on.
    pub steal_focus: bool,
}

/// Rule overrides that pre-empt the normal placement policy.
pub struct PlacementHints {
    /// Place on this workspace instead of the focused one.
    pub workspace: Option<(u8, u8)>,
    /// Override the initial slot.
    pub slot: Option<Slot>,
    /// Override the initial state.
    pub state: Option<WindowState>,
    /// Initial floating geometry.
    pub floating_geom: Option<Rect>,
    /// Do not focus the window when it opens.
    pub no_focus: bool,
    /// Client process id.
    pub pid: Option<u32>,
    /// The window this one swallows, if any.
    pub swallows: Option<WindowId>,
    /// Pin to all workspaces as floating.
    pub pin: bool,
    /// Alias for pin.
    pub sticky: bool,
    /// Skip all animations for this window.
    pub no_animations: bool,
    /// Render above TotalFullscreen (None = true).
    pub above_total_fullscreen: Option<bool>,
    /// Border color override.
    pub border_color: Option<String>,
    /// Path to a per-window shader.
    pub shader: Option<String>,
    /// Min-size overflow policy: "float" | "clip" | "ignore".
    pub min_size_overflow: Option<String>,
    /// May take focus even with focus-steal prevention on.
    pub steal_focus: bool,
}

impl Default for PlacementHints {
    fn default() -> (r: Self)
        ensures
            r.workspace is None,
            r.slot is None,
            r.state is None,
            r.floating_geom is None,
            !r.no_focus,
            r.pid is None,
            r.swallows is None,
            !r.pin,
            !r.sticky,
            !r.no_animations,
            r.above_total_fullscreen is None,
            r.border_color is None,
            r.shader is None,
            r.min_size_overflow is None,
            !r.steal_focus,
    {
        PlacementHints {
            workspace: None,
            slot: None,
            state: None,
            floating_geom: None,
            no_focus: false,
            pid: None,
            swallows: None,
            pin: false,
            sticky: false,
            no_animations: false,
            above_total_fullscreen: None,
            border_color: None,
            shader: None,
            min_size_overflow: None,
            steal_focus: false,
        }
    }
}

/// Geometry and flags to send to a window in a configure event.
#[derive(Debug, Clone, Copy, PartialEq, Eq, Structural)]
pub struct ConfigureRequest {
    pub w: i32,
    pub h: i32,
    pub activated: bool,
    pub fullscreen: bool,
}

pub struct Grid {
    pub cols: u8,
    pub rows: u8,
    /// Indexed [row][col]; may hold more cells than cols x rows after a shrink.
    pub workspaces: Vec<Vec<Workspace>>,
    /// Focused workspace coordinates.
    pub focused: (u8, u8),
    /// Workspace navigation history (most recent first).
    pub history: Vec<(u8, u8)>,
    /// Forward history for workspace-forward (cleared on a manual switch).
    pub forward_history: Vec<(u8, u8)>,
    /// All windows, in increasing id order.
    pub windows: Vec<Window>,
    /// Currently focused window.
    pub focused_window: Option<WindowId>,
    pub next_id: u64,
    /// Windows whose geometry or state changed and that are owed a configure
    /// event, in order.
    pub pending_configures: Vec<WindowId>,
    /// Full output pixel dimensions.
    pub output_w: i32,
    pub output_h: i32,
    /// Usable area after exclusive zones; tiled windows are laid out in it.
    pub usable_x: i32,
    pub usable_y: i32,
    pub usable_w: i32,
    pub usable_h: i32,
    pub inner_gap_px: i32,
    pub outer_gap_px: i32,
    pub wrap_x: bool,
    pub wrap_y: bool,
    pub conflict_policy: ConflictPolicy,
    pub slot_adaptation: bool,
    pub fullscreen_adaptation: bool,
    pub fullscreen_auto_restore: bool,
    pub focus_steals_demotes: bool,
    pub focus_on_close: FocusOnClosePolicy,
    pub cross_workspace_focus: bool,
}

/// Result of `Grid::move_window_direction_ex`.
#[derive(Debug, Clone, Copy, PartialEq, Eq)]
pub enum MoveDirectionResult {
    /// Window moved; `skipped` is true if it bypassed TotalFullscreen-protected workspaces.
    Moved { requested: (u8, u8), actual: (u8, u8), skipped: bool },
    /// Every workspace in this direction is protected: move refused.
    Refused,
    /// The mover is not protected against, or the first target was free.
    MovedDirect { target: (u8, u8) },
}

/// Adaptation info returned by `Grid::add_window`.
#[derive(Debug, Clone, Copy, PartialEq, Eq)]
pub struct AddWindowResult {
    pub id: WindowId,
    /// (requested_slot, actual_slot) when a half adapted into a quarter.
    pub slot_adapted: Option<(Slot, Slot)>,
    /// (requested_state, actual_state, actual_slot) when Fullscreen adapted to Tiled.
    pub state_adapted: Option<(WindowState, WindowState, Option<Slot>)>,
}

/// The sentinel workspace of windows kept in a named special workspace.
pub open spec fn special() -> (u8, u8) {
    (255u8, 255u8)
}

impl Grid {
    /// Cell (c, r) exists in the workspace array.
    pub open spec fn allocated(&self, c: int, r: int) -> bool {
        0 <= r < self.workspaces@.len() && 0 <= c < self.workspaces@[r]@.len()
    }

    pub open spec fn ws_at(&self, c: int, r: int) -> Workspace {
        self.workspaces@[r]@[c]
    }

    pub open spec fn in_grid(&self, coords: (u8, u8)) -> bool {
        coords.0 < self.cols && coords.1 < self.rows
    }

    /// The window list, in increasing id order, with ids below `next_id`.
    pub open spec fn ids_ordered(&self) -> bool {
        &&& forall|i: int, j: int| 0 <= i < j < self.windows@.len()
            ==> self.windows@[i].id < self.windows@[j].id
        &&& forall|i: int| 0 <= i < self.windows@.len() ==> self.windows@[i].id < self.next_id
    }

    /// Structural well-formedness kept by every operation.
    pub open spec fn wf(&self) -> bool {
        &&& self.wf_cells()
        &&& self.wf_focus()
        &&& self.wf_windows()
    }

    /// Grid dimensions and the workspace array.
    pub open spec fn wf_cells(&self) -> bool {
        &&& 1 <= self.cols
        &&& 1 <= self.rows
        &&& self.rows <= self.workspaces@.len() <= 255
        &&& forall|r: int| 0 <= r < self.workspaces@.len() ==> self.cols <= #[trigger] self.workspaces@[r]@.len() <= 255
        &&& forall|c: int, r: int| self.allocated(c, r) ==> #[trigger] self.ws_at(c, r).wf()
    }

    /// The focused cell and the navigation histories name existing cells.
    pub open spec fn wf_focus(&self) -> bool {
        &&& self.allocated(self.focused.0 as int, self.focused.1 as int)
        &&& forall|i: int| 0 <= i < self.history@.len()
            ==> self.allocated(#[trigger] self.history@[i].0 as int, self.history@[i].1 as int)
        &&& forall|i: int| 0 <= i < self.forward_history@.len()
            ==> self.allocated(#[trigger] self.forward_history@[i].0 as int, self.forward_history@[i].1 as int)
    }

    /// Window ids are increasing and each window sits in an existing cell or
    /// in the special sentinel.
    pub open spec fn wf_windows(&self) -> bool {
        &&& self.ids_ordered()
        &&& forall|i: int| 0 <= i < self.windows@.len() ==> self.placed_or_special(#[trigger] self.windows@[i].workspace)
    }

    /// Id and workspace of each window, in list order.
    pub open spec fn win_keys(&self) -> Seq<(WindowId, (u8, u8))> {
        self.windows@.map_values(|w: Window| (w.id, w.workspace))
    }

    /// Well-formedness carries over to a grid of the same shape whose cells
    /// are all well-formed, with the same focus data and window keys.
    pub proof fn lemma_wf_transfer(old: &Grid, new: &Grid)
        requires
            old.wf(),
            new.cols == old.cols,
            new.rows == old.rows,
            new.next_id == old.next_id,
            new.same_shape(old),
            forall|c: int, r: int| new.allocated(c, r) ==> #[trigger] new.ws_at(c, r).wf(),
            new.focused == old.focused,
            new.history@ == old.history@,
            new.forward_history@ == old.forward_history@,
            new.win_keys() == old.win_keys(),
        ensures
            new.wf(),
    {
        assert forall|c: int, r: int| new.allocated(c, r) <==> old.allocated(c, r) by {
            if 0 <= r < new.workspaces@.len() {
                assert(new.workspaces@[r]@.len() == old.workspaces@[r]@.len());
            }
        }
        assert(new.windows@.len() == old.windows@.len()) by {
            assert(new.win_keys().len() == new.windows@.len());
        }
        assert forall|i: int| 0 <= i < new.windows@.len() implies new.windows@[i].id == old.windows@[i].id
            && new.windows@[i].workspace == old.windows@[i].workspace by {
            assert(new.win_keys()[i] == old.win_keys()[i]);
        }
        assert forall|r: int| 0 <= r < new.workspaces@.len() implies new.cols <= #[trigger] new.workspaces@[r]@.len() <= 255 by {
            assert(old.workspaces@[r]@.len() == new.workspaces@[r]@.len());
        }
    }

    /// Well-formedness carries over when the cells and focus data are as in
    /// `old` and the windows keep their ids and workspaces.
    pub proof fn lemma_wf_windows_only(old: &Grid, new: &Grid)
        requires
            old.wf(),
            new.cols == old.cols,
            new.rows == old.rows,
            new.next_id == old.next_id,
            new.workspaces@ == old.workspaces@,
            new.focused == old.focused,
            new.history@ == old.history@,
            new.forward_history@ == old.forward_history@,
            new.win_keys() == old.win_keys(),
        ensures
            new.wf(),
    {
        assert forall|c: int, r: int| new.allocated(c, r) implies #[trigger] new.ws_at(c, r).wf() by {
            assert(old.allocated(c, r));
            assert(new.ws_at(c, r) == old.ws_at(c, r));
        }
        Grid::lemma_wf_transfer(old, new);
    }

    /// Well-formedness carries over when only the focus data changed and it
    /// still names existing cells.
    pub proof fn lemma_wf_refocus(old: &Grid, new: &Grid)
        requires
            old.wf(),
            new.cols == old.cols,
            new.rows == old.rows,
            new.next_id == old.next_id,
            new.workspaces@ == old.workspaces@,
            new.windows@ == old.windows@,
            new.wf_focus(),
        ensures
            new.wf(),
    {
        assert forall|c: int, r: int| new.allocated(c, r) implies #[trigger] new.ws_at(c, r).wf() by {
            assert(old.allocated(c, r));
            assert(new.ws_at(c, r) == old.ws_at(c, r));
        }
        assert forall|i: int| 0 <= i < new.windows@.len() implies new.placed_or_special(#[trigger] new.windows@[i].workspace) by {
            assert(old.placed_or_special(old.windows@[i].workspace));
        }
    }

    /// The cells all stay well-formed when only cell (c, r) changes and it
    /// stays well-formed.
    pub proof fn lemma_cells_after_change(old: &Grid, new: &Grid, c: int, r: int)
        requires
            old.wf(),
            new.cells_same_except(old, c, r),
            new.allocated(c, r) ==> new.ws_at(c, r).wf(),
        ensures
            forall|c2: int, r2: int| new.allocated(c2, r2) ==> #[trigger] new.ws_at(c2, r2).wf(),
    {
        assert forall|c2: int, r2: int| new.allocated(c2, r2) implies #[trigger] new.ws_at(c2, r2).wf() by {
            assert(new.workspaces@[r2]@.len() == old.workspaces@[r2]@.len());
            if !(c2 == c && r2 == r) {
                assert(new.ws_at(c2, r2) == old.ws_at(c2, r2));
                assert(old.allocated(c2, r2));
            }
        }
    }

    /// A workspace coordinate that is either an existing cell or the special sentinel.
    pub open spec fn placed_or_special(&self, coords: (u8, u8)) -> bool {
        coords == special() || self.allocated(coords.0 as int, coords.1 as int)
    }

    pub open spec fn has_window(&self, id: WindowId) -> bool {
        exists|i: int| 0 <= i < self.windows@.len() && self.windows@[i].id == id
    }

    /// Position of window `id` in the window list.
    pub open spec fn win_index(&self, id: WindowId) -> int {
        choose|i: int| 0 <= i < self.windows@.len() && self.windows@[i].id == id
    }

    pub open spec fn win(&self, id: WindowId) -> Window {
        self.windows@[self.win_index(id)]
    }

    /// Everything but the workspace array, the window list, the focus fields
    /// and the pending configures is as in `old`.
    pub open spec fn settings_same(&self, old: &Grid) -> bool {
        &&& self.config_same(old)
        &&& self.next_id == old.next_id
    }

    /// Dimensions, output geometry and configuration are as in `old`.
    pub open spec fn config_same(&self, old: &Grid) -> bool {
        &&& self.cols == old.cols
        &&& self.rows == old.rows
        &&& self.prefs_same(old)
    }

    /// Output geometry and configuration are as in `old`.
    pub open spec fn prefs_same(&self, old: &Grid) -> bool {
        &&& self.output_w == old.output_w
        &&& self.output_h == old.output_h
        &&& self.usable_x == old.usable_x
        &&& self.usable_y == old.usable_y
        &&& self.usable_w == old.usable_w
        &&& self.usable_h == old.usable_h
        &&& self.inner_gap_px == old.inner_gap_px
        &&& self.outer_gap_px == old.outer_gap_px
        &&& self.wrap_x == old.wrap_x
        &&& self.wrap_y == old.wrap_y
        &&& self.conflict_policy == old.conflict_policy
        &&& self.slot_adaptation == old.slot_adaptation
        &&& self.fullscreen_adaptation == old.fullscreen_adaptation
        &&& self.fullscreen_auto_restore == old.fullscreen_auto_restore
        &&& self.focus_steals_demotes == old.focus_steals_demotes
        &&& self.focus_on_close == old.focus_on_close
        &&& self.cross_workspace_focus == old.cross_workspace_focus
    }

    /// The workspace array has the shape of `old`'s.
    pub open spec fn same_shape(&self, old: &Grid) -> bool {
        &&& self.workspaces@.len() == old.workspaces@.len()
        &&& forall|r: int| 0 <= r < self.workspaces@.len()
            ==> #[trigger] self.workspaces@[r]@.len() == old.workspaces@[r]@.len()
    }

    /// All cells but (c, r) are as in `old`.
    pub open spec fn cells_same_except(&self, old: &Grid, c: int, r: int) -> bool {
        &&& self.same_shape(old)
        &&& forall|c2: int, r2: int| self.allocated(c2, r2) && !(c2 == c && r2 == r)
            ==> #[trigger] self.ws_at(c2, r2) == old.ws_at(c2, r2)
    }

    pub open spec fn lists_same(&self, old: &Grid) -> bool {
        &&& self.workspaces@ == old.workspaces@
        &&& self.windows@ == old.windows@
        &&& self.history@ == old.history@
        &&& self.forward_history@ == old.forward_history@
    }

    pub fn new(config: &Config, output_w: i32, output_h: i32) -> (g: Self)
        ensures
            g.wf(),
            g.cols == (if config.grid.cols < 1 { 1 } else { config.grid.cols }),
            g.rows == (if config.grid.rows < 1 { 1 } else { config.grid.rows }),
            g.focused.0 == (if config.grid.default[0] < g.cols - 1 { config.grid.default[0] as int } else { g.cols - 1 }),
            g.focused.1 == (if config.grid.default[1] < g.rows - 1 { config.grid.default[1] as int } else { g.rows - 1 }),
            g.workspaces@.len() == g.rows,
            forall|r: int| 0 <= r < g.rows ==> #[trigger] g.workspaces@[r]@.len() == g.cols,
            forall|c: int, r: int| g.allocated(c, r) ==> #[trigger] g.ws_at(c, r).total_len() == 0
                && g.ws_at(c, r).focus_history@.len() == 0 && g.ws_at(c, r).col == c && g.ws_at(c, r).row == r,
            g.windows@.len() == 0,
            g.focused_window is None,
            g.history@.len() == 0,
            g.forward_history@.len() == 0,
            g.pending_configures@.len() == 0,
            g.next_id == 1,
            g.output_w == output_w,
            g.output_h == output_h,
            g.usable_x == 0 && g.usable_y == 0,
            g.usable_w == output_w && g.usable_h == output_h,
            g.inner_gap_px == config.theme.gaps.windows.inner_px,
            g.outer_gap_px == config.theme.gaps.windows.outer_px,
            g.wrap_x == config.grid.wrap_x,
            g.wrap_y == config.grid.wrap_y,
            g.conflict_policy == config.windows.on_slot_conflict,
            g.slot_adaptation == config.windows.slot_adaptation,
            g.fullscreen_adaptation == config.windows.fullscreen_adaptation,
            g.fullscreen_auto_restore == config.windows.fullscreen_auto_restore,
            g.focus_steals_demotes == config.windows.focus_steals_demotes,
            g.focus_on_close == config.windows.focus_on_close,
            g.cross_workspace_focus == config.input.cross_workspace_focus,
    {
        let cols: u8 = if config.grid.cols < 1 { 1 } else { config.grid.cols };
        let rows: u8 = if config.grid.rows < 1 { 1 } else { config.grid.rows };
        let mut workspaces: Vec<Vec<Workspace>> = Vec::new();
        let mut r: u8 = 0;
        while r < rows
            invariant
                r <= rows,
                workspaces@.len() == r,
                forall|k: int| 0 <= k < r ==> #[trigger] workspaces@[k]@.len() == cols,
                forall|k: int, c: int| 0 <= k < r && 0 <= c < cols ==> #[trigger] workspaces@[k]@[c].wf()
                    && workspaces@[k]@[c].total_len() == 0 && workspaces@[k]@[c].focus_history@.len() == 0
                    && workspaces@[k]@[c].col == c && workspaces@[k]@[c].row == k,
            decreases rows - r,
        {
            let mut row: Vec<Workspace> = Vec::new();
            let mut c: u8 = 0;
            while c < cols
                invariant
                    c <= cols,
                    row@.len() == c,
                    forall|k: int| 0 <= k < c ==> #[trigger] row@[k].wf() && row@[k].total_len() == 0
                        && row@[k].focus_history@.len() == 0 && row@[k].col == k && row@[k].row == r,
                decreases cols - c,
            {
                let ws = Workspace::new(c, r);
                proof {
                    assert(ws.stack(Slot::HalfLeft).len() == 0);
                    assert(ws.stack(Slot::HalfRight).len() == 0);
                    assert(ws.stack(Slot::QuarterTL).len() == 0);
                    assert(ws.stack(Slot::QuarterTR).len() == 0);
                    assert(ws.stack(Slot::QuarterBL).len() == 0);
                    assert(ws.stack(Slot::QuarterBR).len() == 0);
                    assert(ws.total_len() == 0);
                }
                row.push(ws);
                c += 1;
            }
            workspaces.push(row);
            r += 1;
        }
        let ghost ws_all = workspaces@;
        assert forall|k: int, c: int| 0 <= k < rows && 0 <= c < ws_all[k]@.len() implies #[trigger] ws_all[k]@[c].wf()
            && ws_all[k]@[c].total_len() == 0 && ws_all[k]@[c].focus_history@.len() == 0
            && ws_all[k]@[c].col == c && ws_all[k]@[c].row == k by {
            assert(ws_all[k]@.len() == cols);
        }
        let fc = if config.grid.default[0] < cols - 1 { config.grid.default[0] } else { cols - 1 };
        let fr = if config.grid.default[1] < rows - 1 { config.grid.default[1] } else { rows - 1 };
        let g = Self {
            cols,
            rows,
            workspaces,
            focused: (fc, fr),
            history: Vec::new(),
            forward_history: Vec::new(),
            windows: Vec::new(),
            focused_window: None,
            next_id: 1,
            pending_configures: Vec::new(),
            output_w,
            output_h,
            usable_x: 0,
            usable_y: 0,
            usable_w: output_w,
            usable_h: output_h,
            inner_gap_px: config.theme.gaps.windows.inner_px,
            outer_gap_px: config.theme.gaps.windows.outer_px,
            wrap_x: config.grid.wrap_x,
            wrap_y: config.grid.wrap_y,
            conflict_policy: config.windows.on_slot_conflict,
            slot_adaptation: config.windows.slot_adaptation,
            fullscreen_adaptation: config.windows.fullscreen_adaptation,
            fullscreen_auto_restore: config.windows.fullscreen_auto_restore,
            focus_steals_demotes: config.windows.focus_steals_demotes,
            focus_on_close: config.windows.focus_on_close,
            cross_workspace_focus: config.input.cross_workspace_focus,
        };
        assert forall|c: int, r: int| g.allocated(c, r) implies #[trigger] g.ws_at(c, r).total_len() == 0
            && g.ws_at(c, r).focus_history@.len() == 0 && g.ws_at(c, r).col == c && g.ws_at(c, r).row == r by {
            assert(g.ws_at(c, r) == ws_all[r]@[c]);
            assert(ws_all[r]@[c].wf());
        }
        g
    }
}

impl Grid {
    /// Ids of all windows, in list order.
    pub open spec fn window_ids(&self) -> Seq<WindowId> {
        self.windows@.map_values(|w: Window| w.id)
    }

    /// Focus history front of cell (c, r).
    pub open spec fn last_focused_at(&self, c: int, r: int) -> Option<WindowId> {
        let h = self.ws_at(c, r).focus_history@;
        if h.len() > 0 {
            Some(h[0])
        } else {
            None
        }
    }

    /// With increasing ids, the index of a window is the one `win_index` names.
    pub proof fn lemma_index_unique(&self, i: int, id: WindowId)
        requires
            self.ids_ordered(),
            0 <= i < self.windows@.len(),
            self.windows@[i].id == id,
        ensures
            self.has_window(id),
            self.win_index(id) == i,
            self.win(id) == self.windows@[i],
    {
        let j = self.win_index(id);
        assert(0 <= j < self.windows@.len() && self.windows@[j].id == id);
        if j < i {
            assert(self.windows@[j].id < self.windows@[i].id);
        } else if i < j {
            assert(self.windows@[i].id < self.windows@[j].id);
        }
    }

    /// Position of window `id` in the window list.
    pub fn find_window(&self, id: WindowId) -> (r: Option<usize>)
        requires
            self.ids_ordered(),
        ensures
            match r {
                Some(i) => i < self.windows@.len() && self.windows@[i as int].id == id && self.has_window(id)
                    && self.win_index(id) == i,
                None => !self.has_window(id),
            },
    {
        let mut i: usize = 0;
        while i < self.windows.len()
            invariant
                i <= self.windows@.len(),
                self.ids_ordered(),
                forall|k: int| 0 <= k < i ==> self.windows@[k].id != id,
            decreases self.windows.len() - i,
        {
            if self.windows[i].id == id {
                proof {
                    self.lemma_index_unique(i as int, id);
                }
                return Some(i);
            }
            i += 1;
        }
        None
    }

    pub fn ws(&self, col: u8, row: u8) -> (r: &Workspace)
        requires
            self.allocated(col as int, row as int),
        ensures
            *r == self.ws_at(col as int, row as int),
    {
        &self.workspaces[row as usize][col as usize]
    }

    pub fn focused_ws(&self) -> (r: &Workspace)
        requires
            self.wf(),
        ensures
            *r == self.ws_at(self.focused.0 as int, self.focused.1 as int),
    {
        self.ws(self.focused.0, self.focused.1)
    }

    /// Queue a configure event for every window, in list order.
    fn configure_all(&mut self)
        ensures
            final(self).pending_configures@ == old(self).pending_configures@ + old(self).window_ids(),
            final(self).lists_same(old(self)),
            final(self).settings_same(old(self)),
            final(self).focused == old(self).focused,
            final(self).focused_window == old(self).focused_window,
    {
        let mut i: usize = 0;
        let ghost start = self.pending_configures@;
        while i < self.windows.len()
            invariant
                i <= self.windows@.len(),
                self.windows@ == old(self).windows@,
                self.pending_configures@ == start + old(self).window_ids().take(i as int),
                start == old(self).pending_configures@,
                self.lists_same(old(self)),
                self.settings_same(old(self)),
                self.focused == old(self).focused,
                self.focused_window == old(self).focused_window,
            decreases self.windows.len() - i,
        {
            let id = self.windows[i].id;
            self.pending_configures.push(id);
            assert(self.pending_configures@ =~= start + old(self).window_ids().take(i as int + 1));
            i += 1;
        }
        assert(old(self).window_ids().take(self.windows@.len() as int) =~= old(self).window_ids());
    }

    /// `self` is `old` with the gap, wrap and window-policy settings taken
    /// from `config` and a configure queued for every window, in list order.
    pub open spec fn updated_from(&self, old: &Grid, config: &Config) -> bool {
        &&& self.inner_gap_px == config.theme.gaps.windows.inner_px
        &&& self.outer_gap_px == config.theme.gaps.windows.outer_px
        &&& self.wrap_x == config.grid.wrap_x
        &&& self.wrap_y == config.grid.wrap_y
        &&& self.conflict_policy == config.windows.on_slot_conflict
        &&& self.slot_adaptation == config.windows.slot_adaptation
        &&& self.fullscreen_adaptation == config.windows.fullscreen_adaptation
        &&& self.fullscreen_auto_restore == config.windows.fullscreen_auto_restore
        &&& self.focus_steals_demotes == config.windows.focus_steals_demotes
        &&& self.focus_on_close == config.windows.focus_on_close
        &&& self.cross_workspace_focus == config.input.cross_workspace_focus
        &&& self.cols == old.cols && self.rows == old.rows
        &&& self.next_id == old.next_id
        &&& self.output_w == old.output_w && self.output_h == old.output_h
        &&& self.usable_x == old.usable_x && self.usable_y == old.usable_y
        &&& self.usable_w == old.usable_w && self.usable_h == old.usable_h
        &&& self.lists_same(old)
        &&& self.focused == old.focused
        &&& self.focused_window == old.focused_window
        &&& self.pending_configures@ == old.pending_configures@ + old.window_ids()
    }

    /// Apply updated config values without resetting window or workspace state.
    pub fn update_from_config(&mut self, config: &Config)
        ensures
            final(self).updated_from(old(self), config),
    {
        self.inner_gap_px = config.theme.gaps.windows.inner_px;
        self.outer_gap_px = config.theme.gaps.windows.outer_px;
        self.wrap_x = config.grid.wrap_x;
        self.wrap_y = config.grid.wrap_y;
        self.conflict_policy = config.windows.on_slot_conflict;
        self.slot_adaptation = config.windows.slot_adaptation;
        self.fullscreen_adaptation = config.windows.fullscreen_adaptation;
        self.fullscreen_auto_restore = config.windows.fullscreen_auto_restore;
        self.focus_steals_demotes = config.windows.focus_steals_demotes;
        self.focus_on_close = config.windows.focus_on_close;
        self.cross_workspace_focus = config.input.cross_workspace_focus;
        // Reconfigure all windows to apply new gap values.
        self.configure_all();
    }

    pub fn set_output_size(&mut self, w: i32, h: i32)
        ensures
            final(self).output_w == w && final(self).output_h == h,
            final(self).usable_x == 0 && final(self).usable_y == 0,
            final(self).usable_w == w && final(self).usable_h == h,
            final(self).lists_same(old(self)),
            final(self).focused == old(self).focused,
            final(self).focused_window == old(self).focused_window,
            final(self).cols == old(self).cols && final(self).rows == old(self).rows,
            final(self).pending_configures@ == old(self).pending_configures@ + old(self).window_ids(),
    {
        self.output_w = w;
        self.output_h = h;
        // Reset the usable area to the full output.
        self.usable_w = w;
        self.usable_h = h;
        self.usable_x = 0;
        self.usable_y = 0;
        self.configure_all();
    }

    /// Set the usable area for tiled layout (after exclusive zones).
    pub fn set_usable_area(&mut self, x: i32, y: i32, w: i32, h: i32)
        ensures
            final(self).usable_x == x && final(self).usable_y == y,
            final(self).usable_w == w && final(self).usable_h == h,
            final(self).output_w == old(self).output_w && final(self).output_h == old(self).output_h,
            final(self).lists_same(old(self)),
            final(self).focused == old(self).focused,
            final(self).focused_window == old(self).focused_window,
            final(self).cols == old(self).cols && final(self).rows == old(self).rows,
            final(self).pending_configures@ == old(self).pending_configures@ + old(self).window_ids(),
    {
        self.usable_x = x;
        self.usable_y = y;
        self.usable_w = w;
        self.usable_h = h;
        self.configure_all();
    }

    pub fn wrap_x(&self) -> (r: bool)
        ensures
            r == self.wrap_x,
    {
        self.wrap_x
    }

    pub fn wrap_y(&self) -> (r: bool)
        ensures
            r == self.wrap_y,
    {
        self.wrap_y
    }
}

} // verus!
