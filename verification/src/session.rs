//! Session state: the window-to-workspace assignments kept across restarts,
//! and the lookup that hands each saved entry to the first window that
//! matches it.
use vstd::prelude::*;

use crate::grid::{Grid, Window};
use crate::ipc::commands::{slot_name, slot_name_spec, state_name, state_name_spec};
use crate::text::str_eq;

verus! {

/// One saved window.
pub struct SessionWindow {
    pub app_id: String,
    pub title: String,
    /// Slot name ("HalfLeft", "QuarterTL", ...); `None` if it had no slot.
    pub slot: Option<String>,
    /// State name: "Tiled", "Floating", "Fullscreen" or "TotalFullscreen".
    pub state: String,
    pub workspace_col: u8,
    pub workspace_row: u8,
}

/// The saved session.
pub struct SessionState {
    pub version: u32,
    pub windows: Vec<SessionWindow>,
}

/// What a saved window holds, as plain values.
pub struct SessionWindowV {
    pub app_id: Seq<char>,
    pub title: Seq<char>,
    pub slot: Option<Seq<char>>,
    pub state: Seq<char>,
    pub workspace_col: u8,
    pub workspace_row: u8,
}

impl SessionWindow {
    pub open spec fn view(&self) -> SessionWindowV {
        SessionWindowV {
            app_id: self.app_id@,
            title: self.title@,
            slot: match self.slot {
                Some(s) => Some(s@),
                None => None,
            },
            state: self.state@,
            workspace_col: self.workspace_col,
            workspace_row: self.workspace_row,
        }
    }
}

/// `w` is a hint for a window with this `app_id` (and, when `exact`, this
/// `title` too).
pub open spec fn hint_matches(w: SessionWindow, app_id: Seq<char>, title: Seq<char>, exact: bool) -> bool {
    w.app_id@ == app_id && (exact ==> w.title@ == title)
}

/// `i` is the first entry of `ws` that matches.
pub open spec fn first_match(ws: Seq<SessionWindow>, i: int, app_id: Seq<char>, title: Seq<char>, exact: bool) -> bool {
    &&& 0 <= i < ws.len()
    &&& hint_matches(ws[i], app_id, title, exact)
    &&& forall|j: int| 0 <= j < i ==> !hint_matches(#[trigger] ws[j], app_id, title, exact)
}

pub open spec fn any_match(ws: Seq<SessionWindow>, app_id: Seq<char>, title: Seq<char>, exact: bool) -> bool {
    exists|i: int| 0 <= i < ws.len() && hint_matches(#[trigger] ws[i], app_id, title, exact)
}

/// `new` and `r` are what `take_hint` leaves and gives on the entries `ws`:
/// the first entry with both fields equal is taken out, else the first with
/// the same `app_id`; with neither, nothing changes.
pub open spec fn took_hint(
    ws: Seq<SessionWindow>,
    new: Seq<SessionWindow>,
    app_id: Seq<char>,
    title: Seq<char>,
    r: Option<SessionWindow>,
) -> bool {
    if any_match(ws, app_id, title, true) {
        exists|i: int| first_match(ws, i, app_id, title, true) && r == Some(ws[i]) && new == ws.remove(i)
    } else if any_match(ws, app_id, title, false) {
        exists|i: int| first_match(ws, i, app_id, title, false) && r == Some(ws[i]) && new == ws.remove(i)
    } else {
        r is None && new == ws
    }
}

/// The position of the first matching entry.
fn position(ws: &Vec<SessionWindow>, app_id: &str, title: &str, exact: bool) -> (r: Option<usize>)
    ensures
        match r {
            Some(i) => first_match(ws@, i as int, app_id@, title@, exact),
            None => !any_match(ws@, app_id@, title@, exact),
        },
{
    let mut i: usize = 0;
    while i < ws.len()
        invariant
            i <= ws.len(),
            forall|j: int| 0 <= j < i ==> !hint_matches(#[trigger] ws@[j], app_id@, title@, exact),
        decreases ws.len() - i,
    {
        let w = &ws[i];
        if str_eq(w.app_id.as_str(), app_id) && (!exact || str_eq(w.title.as_str(), title)) {
            return Some(i);
        }
        i += 1;
    }
    None
}

impl SessionState {
    /// Find the saved entry best matching `app_id` and `title`: the first
    /// with both equal, else the first with the same `app_id`, else none.
    /// The entry handed out is removed, so each is applied at most once.
    pub fn take_hint(&mut self, app_id: &str, title: &str) -> (r: Option<SessionWindow>)
        ensures
            final(self).version == old(self).version,
            took_hint(old(self).windows@, final(self).windows@, app_id@, title@, r),
    {
        match position(&self.windows, app_id, title, true) {
            Some(i) => {
                return Some(self.windows.remove(i));
            },
            None => {},
        }
        match position(&self.windows, app_id, title, false) {
            Some(i) => Some(self.windows.remove(i)),
            None => None,
        }
    }
}

/// A window that the session keeps: not in a special workspace, not swallowed.
pub open spec fn is_saved(w: Window) -> bool {
    w.workspace != (u8::MAX, u8::MAX) && !w.is_swallowed
}

/// The entry saved for `w`.
pub open spec fn saved_entry(w: Window) -> SessionWindowV {
    SessionWindowV {
        app_id: w.app_id@,
        title: w.title@,
        slot: match w.current_slot {
            Some(s) => Some(slot_name_spec(s)),
            None => None,
        },
        state: state_name_spec(w.current_state),
        workspace_col: w.workspace.0,
        workspace_row: w.workspace.1,
    }
}

/// The entries saved for the windows `ws`, in order.
pub open spec fn saved_entries(ws: Seq<Window>) -> Seq<SessionWindowV>
    decreases ws.len(),
{
    if ws.len() == 0 {
        Seq::empty()
    } else if is_saved(ws.last()) {
        saved_entries(ws.drop_last()).push(saved_entry(ws.last()))
    } else {
        saved_entries(ws.drop_last())
    }
}

fn save_entry(w: &Window) -> (r: SessionWindow)
    ensures
        r.view() == saved_entry(*w),
{
    let slot = match w.current_slot {
        Some(s) => Some(String::from_str(slot_name(s))),
        None => None,
    };
    SessionWindow {
        app_id: w.app_id.clone(),
        title: w.title.clone(),
        slot,
        state: String::from_str(state_name(w.current_state)),
        workspace_col: w.workspace.0,
        workspace_row: w.workspace.1,
    }
}

impl SessionState {
    /// The session to save for `grid` (version 1): an entry per window,
    /// in window order, leaving out special-workspace and swallowed windows.
    pub fn from_grid(grid: &Grid) -> (r: SessionState)
        ensures
            r.version == 1,
            r.windows@.map_values(|e: SessionWindow| e.view()) == saved_entries(grid.windows@),
    {
        let mut windows: Vec<SessionWindow> = Vec::new();
        let mut i: usize = 0;
        while i < grid.windows.len()
            invariant
                i <= grid.windows.len(),
                windows@.map_values(|e: SessionWindow| e.view()) == saved_entries(grid.windows@.take(i as int)),
            decreases grid.windows.len() - i,
        {
            let w = &grid.windows[i];
            proof {
                assert(grid.windows@.take(i as int + 1).drop_last() =~= grid.windows@.take(i as int));
            }
            if !(w.workspace.0 == u8::MAX && w.workspace.1 == u8::MAX) && !w.is_swallowed {
                let e = save_entry(w);
                windows.push(e);
            }
            proof {
                assert(windows@.map_values(|e: SessionWindow| e.view()) =~= saved_entries(
                    grid.windows@.take(i as int + 1),
                ));
            }
            i += 1;
        }
        proof {
            assert(grid.windows@.take(i as int) =~= grid.windows@);
        }
        SessionState { version: 1, windows }
    }
}

} // verus!
