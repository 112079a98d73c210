//! What each grid operation leaves, as predicates over the grid before and
//! after: the contracts of the operations, named so that a caller that runs
//! one of several operations can state which one ran.
use vstd::prelude::*;

use super::assign::collapse_geom;
use super::conflict::DisplacedWindow;
use super::model::{place_model, remove_model, swap_one};
use super::states::{flip_to_top, rotate_next, rotate_prev, swap_at};
use super::window::{Slot, WindowId, WindowState};
use super::workspace::Workspace;
use super::{special, FocusDirection, Grid, Window};
use crate::seqs::remove_id;

verus! {

/// What `toggle_fullscreen` leaves.
pub open spec fn toggle_fullscreen_post(old: &Grid, new: &Grid) -> bool {
    &&& (new.wf())
    &&& (old.focused_known() is None ==> *new == *old)
    &&& (old.focused_known() matches Some(id) ==> {
        let i = old.win_index(id);
        let w = old.win(id);
        let (c, r) = (w.workspace.0 as int, w.workspace.1 as int);
        match w.current_state {
        WindowState::Fullscreen => new.retiled(old, i, id, c, r, WindowState::Fullscreen,
        match w.current_slot { Some(s) => s, None => Slot::HalfLeft }),
        WindowState::TotalFullscreen => {
        let ows = old.ws_at(c, r);
        let nws = new.ws_at(c, r);
        &&& new.pending_configures@ == old.pending_configures@.push(id)
        &&& new.focused_window == old.focused_window
        &&& new.one_cell_one_window(old, c, r, i, Window {
        current_state: WindowState::Fullscreen,
        ..w
        })
        &&& nws.total_fullscreen_stack@ == remove_id(ows.total_fullscreen_stack@, id)
        &&& nws.fullscreen_stack@ == seq![id] + ows.fullscreen_stack@
        &&& forall|s: Slot| #[trigger] nws.stack(s) == ows.stack(s)
        &&& nws.floating@ == ows.floating@
        &&& nws.focus_history@ == ows.focus_history@
        },
        _ => new.promoted(old, i, id, c, r, WindowState::Fullscreen),
        }
        })
}

/// What `toggle_total_fullscreen` leaves.
pub open spec fn toggle_total_fullscreen_post(old: &Grid, new: &Grid) -> bool {
    &&& (new.wf())
    &&& (old.focused_known() is None ==> *new == *old)
    &&& (old.focused_known() matches Some(id) ==> {
        let i = old.win_index(id);
        let w = old.win(id);
        let (c, r) = (w.workspace.0 as int, w.workspace.1 as int);
        if w.current_state == WindowState::TotalFullscreen {
        new.retiled(old, i, id, c, r, WindowState::TotalFullscreen,
        match w.current_slot { Some(s) => s, None => Slot::HalfLeft })
        } else {
        new.promoted(old, i, id, c, r, WindowState::TotalFullscreen)
        }
        })
}

/// What `toggle_floating` leaves.
pub open spec fn toggle_floating_post(old: &Grid, new: &Grid) -> bool {
    &&& (new.wf())
    &&& (old.focused_known() is None ==> *new == *old)
    &&& (old.focused_known() matches Some(id) ==> {
        let i = old.win_index(id);
        let w = old.win(id);
        let (c, r) = (w.workspace.0 as int, w.workspace.1 as int);
        if w.current_state == WindowState::Floating {
        new.retiled(old, i, id, c, r, WindowState::Floating,
        match w.requested_slot { Some(s) => s, None => Slot::HalfLeft })
        } else {
        new.promoted(old, i, id, c, r, WindowState::Floating)
        }
        })
}

/// What `assign_slot` leaves.
pub open spec fn assign_slot_post(old: &Grid, new: &Grid, slot: Slot) -> bool {
    &&& (new.wf())
    &&& (old.focused_known() is None ==> *new == *old)
    &&& (old.focused_known() is Some ==> exists|mid: Workspace| #[trigger] new.assigned_via(old, slot, mid))
}

/// What `stack_next` leaves.
pub open spec fn stack_next_post(old: &Grid, new: &Grid) -> bool {
    &&& (new.wf())
    &&& (match old.stack_site() {
        None => *new == *old,
        Some((i, id, c, r, slot)) => {
        let st = old.ws_at(c, r).stack(slot);
        if st.len() < 2 {
        *new == *old
        } else {
        new.restacked(old, c, r, slot, rotate_next(st), Some(st[1]), true)
        }
        },
        })
}

/// What `stack_prev` leaves.
pub open spec fn stack_prev_post(old: &Grid, new: &Grid) -> bool {
    &&& (new.wf())
    &&& (match old.stack_site() {
        None => *new == *old,
        Some((i, id, c, r, slot)) => {
        let st = old.ws_at(c, r).stack(slot);
        if st.len() < 2 {
        *new == *old
        } else {
        new.restacked(old, c, r, slot, rotate_prev(st), Some(st.last()), true)
        }
        },
        })
}

/// What `stack_flip` leaves.
pub open spec fn stack_flip_post(old: &Grid, new: &Grid, n: u32) -> bool {
    &&& (new.wf())
    &&& (match old.stack_site() {
        None => *new == *old,
        Some((i, id, c, r, slot)) => {
        let st = old.ws_at(c, r).stack(slot);
        if n >= st.len() {
        *new == *old
        } else {
        new.restacked(old, c, r, slot, flip_to_top(st, n as int), Some(st[n as int]), true)
        }
        },
        })
}

/// What `stack_promote` leaves.
pub open spec fn stack_promote_post(old: &Grid, new: &Grid) -> bool {
    &&& (new.wf())
    &&& (match old.stack_site() {
        None => *new == *old,
        Some((i, id, c, r, slot)) => {
        let st = old.ws_at(c, r).stack(slot);
        let pos = st.index_of_first(id);
        let new_st = match pos {
        Some(p) => if p > 0 { flip_to_top(st, p) } else { st },
        None => st,
        };
        new.restacked(old, c, r, slot, new_st, Some(id), true)
        },
        })
}

/// What `stack_collapse` leaves.
pub open spec fn stack_collapse_post(old: &Grid, new: &Grid) -> bool {
    &&& (new.wf())
    &&& (match old.focused_known() {
        Some(id) => {
        let i = old.win_index(id);
        let w = old.win(id);
        let (c, r) = w.workspace;
        if w.current_state == WindowState::Tiled && w.current_slot is Some {
        &&& new.cells_same_except(old, c as int, r as int)
        &&& new.cell_named_as(old, c as int, r as int)
        &&& new.ws_at(c as int, r as int).model() == swap_one(
        old.ws_at(c as int, r as int).model(),
        DisplacedWindow { id, from_slot: w.current_slot->0 },
        )
        &&& new.windows@ == old.windows@.update(i, Window {
        floating_geom: collapse_geom(w.floating_geom, old.output_w, old.output_h),
        current_state: WindowState::Floating,
        current_slot: None,
        ..w
        })
        &&& new.focused_window == old.focused_window
        &&& new.focused == old.focused
        &&& new.history@ == old.history@
        &&& new.forward_history@ == old.forward_history@
        &&& new.pending_configures@ == old.pending_configures@.push(id)
        &&& new.settings_same(old)
        } else {
        *new == *old
        }
        },
        None => *new == *old,
        })
}

/// What `stack_move_up` leaves.
pub open spec fn stack_move_up_post(old: &Grid, new: &Grid) -> bool {
    &&& (new.wf())
    &&& (match old.stack_site() {
        None => *new == *old,
        Some((i, id, c, r, slot)) => {
        let st = old.ws_at(c, r).stack(slot);
        match st.index_of_first(id) {
        Some(p) => if p > 0 {
        let new_st = swap_at(st, p, p - 1);
        new.restacked(old, c, r, slot, new_st, Some(new_st[0]), false)
        } else {
        *new == *old
        },
        None => *new == *old,
        }
        },
        })
}

/// What `stack_move_down` leaves.
pub open spec fn stack_move_down_post(old: &Grid, new: &Grid) -> bool {
    &&& (new.wf())
    &&& (match old.stack_site() {
        None => *new == *old,
        Some((i, id, c, r, slot)) => {
        let st = old.ws_at(c, r).stack(slot);
        match st.index_of_first(id) {
        Some(p) => if p + 1 < st.len() {
        let new_st = swap_at(st, p, p + 1);
        new.restacked(old, c, r, slot, new_st, Some(new_st[0]), true)
        } else {
        *new == *old
        },
        None => *new == *old,
        }
        },
        })
}

/// What `move_focus` leaves.
pub open spec fn move_focus_post(old: &Grid, new: &Grid, direction: FocusDirection) -> bool {
    &&& (new.wf())
    &&& (match old.focus_move_target(direction) {
        Some(n) => {
        let (c, r) = (old.focused.0 as int, old.focused.1 as int);
        &&& new.focused_window == Some(n)
        &&& new.cells_same_except(old, c, r)
        &&& new.ws_at(c, r).focus_recorded(&old.ws_at(c, r), n)
        &&& new.windows@ == old.windows@
        &&& new.focused == old.focused
        &&& new.history@ == old.history@
        &&& new.forward_history@ == old.forward_history@
        &&& new.pending_configures@ == old.pending_configures@
        &&& new.settings_same(old)
        },
        None => if old.cross_workspace_focus {
        &&& new.only_focus_changed(old)
        &&& match old.step(old.focused.0, old.focused.1, direction) {
        Some(t) => new.switched_to(old, t),
        None => *new == *old,
        }
        } else {
        *new == *old
        },
        })
}

/// What `navigate` leaves.
pub open spec fn navigate_post(old: &Grid, new: &Grid, direction: FocusDirection) -> bool {
    &&& (new.wf())
    &&& (new.only_focus_changed(old))
    &&& (match old.step(old.focused.0, old.focused.1, direction) {
        Some(t) => new.switched_to(old, t),
        None => *new == *old,
        })
}

/// What `switch_workspace` leaves.
pub open spec fn switch_workspace_post(old: &Grid, new: &Grid, coords: (u8, u8)) -> bool {
    &&& (new.wf())
    &&& (new.only_focus_changed(old))
    &&& (new.switched_to(old, coords))
}

/// What `workspace_back` leaves.
pub open spec fn workspace_back_post(old: &Grid, new: &Grid) -> bool {
    &&& (new.wf())
    &&& (new.only_focus_changed(old))
    &&& (new.went_back(old))
}

/// What `workspace_forward` leaves.
pub open spec fn workspace_forward_post(old: &Grid, new: &Grid) -> bool {
    &&& (new.wf())
    &&& (new.only_focus_changed(old))
    &&& (new.went_forward(old))
}

/// What `move_window_to` leaves.
pub open spec fn move_window_to_post(old: &Grid, new: &Grid, target: (u8, u8)) -> bool {
    &&& (new.wf())
    &&& (new.moved_to(old, target))
}

/// What `detach_window_to_special` leaves.
pub open spec fn detach_window_to_special_post(old: &Grid, new: &Grid, id: WindowId) -> bool {
    &&& (new.wf())
    &&& (!old.has_window(id) || old.win(id).workspace.0 == 255 ==> *new == *old)
    &&& (old.has_window(id) && old.win(id).workspace.0 != 255 ==> {
        let i = old.win_index(id);
        let w = old.win(id);
        let (c, r) = w.workspace;
        &&& new.cells_same_except(old, c as int, r as int)
        &&& new.cell_named_as(old, c as int, r as int)
        &&& new.ws_at(c as int, r as int).model() == remove_model(old.ws_at(c as int, r as int).model(), id)
        &&& new.windows@ == old.windows@.update(i, Window { workspace: special(), ..w })
        &&& new.focused_window == (if old.focused_window == Some(id) {
        new.last_focused_at(old.focused.0 as int, old.focused.1 as int)
        } else {
        old.focused_window
        })
        &&& new.focused == old.focused
        &&& new.history@ == old.history@
        &&& new.forward_history@ == old.forward_history@
        &&& new.pending_configures@ == old.pending_configures@
        &&& new.settings_same(old)
        })
}

/// What `attach_window_from_special` leaves.
pub open spec fn attach_window_from_special_post(old: &Grid, new: &Grid, id: WindowId, target: (u8, u8)) -> bool {
    &&& (new.wf())
    &&& (!old.has_window(id) || old.win(id).workspace != special() ==> *new == *old)
    &&& (old.has_window(id) && old.win(id).workspace == special() ==> {
        let i = old.win_index(id);
        let w = old.win(id);
        &&& new.cells_same_except(old, target.0 as int, target.1 as int)
        &&& new.cell_named_as(old, target.0 as int, target.1 as int)
        &&& new.ws_at(target.0 as int, target.1 as int).model() == place_model(
        old.ws_at(target.0 as int, target.1 as int).model(),
        WindowState::Floating,
        None,
        id,
        )
        &&& new.windows@ == old.windows@.update(i, Window { workspace: target, ..w })
        &&& new.focused_window == Some(id)
        &&& new.focused == old.focused
        &&& new.history@ == old.history@
        &&& new.forward_history@ == old.forward_history@
        &&& new.pending_configures@ == old.pending_configures@
        &&& new.settings_same(old)
        })
}

/// What `rename_workspace` leaves.
pub open spec fn rename_workspace_post(old: &Grid, new: &Grid, col: u8, row: u8, name: String) -> bool {
    &&& (new.wf())
    &&& (new.windows@ == old.windows@)
    &&& (new.focused == old.focused)
    &&& (new.focused_window == old.focused_window)
    &&& (new.pending_configures@ == old.pending_configures@)
    &&& (new.settings_same(old))
    &&& (!(col < old.cols && row < old.rows) ==> new.workspaces@ == old.workspaces@)
    &&& (col < old.cols && row < old.rows ==> {
        &&& new.cells_same_except(old, col as int, row as int)
        &&& new.ws_at(col as int, row as int) == (Workspace {
        name: if name@.len() == 0 { None } else { Some(name) },
        ..old.ws_at(col as int, row as int)
        })
        })
}

} // verus!
