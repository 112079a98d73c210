//! What a surface commit of a mapped window does to the model: its app id
//! and title follow the client, and a tiled window whose slot is smaller
//! than its minimum size may be forced to float.
use vstd::prelude::*;

use crate::config::types::MinSizeOverflow;
use crate::grid::assign::{min_float_fits, min_float_geom};
use crate::grid::model::{detach_model, place_model};
use crate::grid::window::{Rect, WindowId, WindowState};
use crate::grid::{Grid, Window};
use crate::ipc::commands::{slot_name, slot_name_spec};
use crate::ipc::events::{event_view, Event, EventV};
use crate::text::str_eq;
use vstd::string::StrSliceExecFns;

verus! {

/// The events for a new app id and title of window `id`, whose previous
/// ones were `prev_app` and `prev_title`: the title, then the app id, each
/// when it is not empty and differs from the previous one.
pub open spec fn metadata_events(
    id: WindowId,
    prev_app: Seq<char>,
    prev_title: Seq<char>,
    app_id: Seq<char>,
    title: Seq<char>,
) -> Seq<EventV> {
    (if title.len() > 0 && title != prev_title {
        seq![EventV::WindowTitle { id, title }]
    } else {
        Seq::empty()
    }) + (if app_id.len() > 0 && app_id != prev_app {
        seq![EventV::WindowAppId { id, app_id }]
    } else {
        Seq::empty()
    })
}

/// The event for window `id` of `g` forced to float: the slot it left (its
/// name, empty when it had none), its minimum size and the slot's size.
pub open spec fn float_event(g: Grid, id: WindowId, min_w: i32, min_h: i32) -> EventV {
    EventV::WindowSizeConstraintFloat {
        id,
        slot: match g.win(id).current_slot {
            Some(s) => slot_name_spec(s),
            None => Seq::empty(),
        },
        min_w,
        min_h,
        slot_w: g.rect_spec(id)->0.w,
        slot_h: g.rect_spec(id)->0.h,
    }
}

/// The commit forces window `id` to float: the policy is `Float` and its
/// tiled slot is smaller than its minimum size.
pub open spec fn commit_floats(g: Grid, id: WindowId, min_w: i32, min_h: i32, overflow: MinSizeOverflow) -> bool {
    overflow == MinSizeOverflow::Float && g.overflows_min_size(id, min_w, min_h)
}

/// Window `w` (the window `id` of `old`) after the commit.
pub open spec fn committed_window(
    old: Grid,
    id: WindowId,
    app_id: Seq<char>,
    title: Seq<char>,
    min_w: i32,
    min_h: i32,
    floats: bool,
    w2: Window,
) -> bool {
    let w = old.win(id);
    &&& w2.app_id@ == app_id
    &&& w2.title@ == title
    &&& if floats {
        w2 == Window {
            app_id: w2.app_id,
            title: w2.title,
            current_state: WindowState::Floating,
            current_slot: None,
            requested_slot: if w.requested_slot is None {
                w.current_slot
            } else {
                w.requested_slot
            },
            floating_geom: min_float_geom(old.rect_spec(id)->0, min_w, min_h),
            ..w
        }
    } else {
        w2 == Window { app_id: w2.app_id, title: w2.title, ..w }
    }
}

/// Everything but the window list is as `force_min_size_float` leaves it
/// (when the window floats) or unchanged.
pub open spec fn commit_rest(old: &Grid, new: &Grid, id: WindowId, floats: bool) -> bool {
    if floats {
        let (c, r) = old.win(id).workspace;
        &&& new.cells_same_except(old, c as int, r as int)
        &&& new.cell_named_as(old, c as int, r as int)
        &&& new.ws_at(c as int, r as int).model() == place_model(
            detach_model(old.ws_at(c as int, r as int).model(), id),
            WindowState::Floating,
            None,
            id,
        )
        &&& new.focused_window == old.focused_window
        &&& new.focused == old.focused
        &&& new.history@ == old.history@
        &&& new.forward_history@ == old.forward_history@
        &&& new.pending_configures@ == old.pending_configures@.push(id)
        &&& new.settings_same(old)
    } else {
        &&& new.workspaces@ == old.workspaces@
        &&& new.focused == old.focused
        &&& new.focused_window == old.focused_window
        &&& new.history@ == old.history@
        &&& new.forward_history@ == old.forward_history@
        &&& new.pending_configures@ == old.pending_configures@
        &&& new.settings_same(old)
    }
}

/// A grid with the workspace array and size of `b` has the cells of `b`.
proof fn lemma_same_cells(a: &Grid, b: &Grid, old: &Grid, c: int, r: int)
    requires
        b.cells_same_except(old, c, r),
        b.cell_named_as(old, c, r),
        a.workspaces@ == b.workspaces@,
        a.cols == b.cols,
        a.rows == b.rows,
    ensures
        a.cells_same_except(old, c, r),
        a.cell_named_as(old, c, r),
        a.ws_at(c, r) == b.ws_at(c, r),
{
    assert forall|c2: int, r2: int| a.allocated(c2, r2) && !(c2 == c && r2 == r)
        implies #[trigger] a.ws_at(c2, r2) == old.ws_at(c2, r2) by {
        assert(b.allocated(c2, r2));
        assert(a.workspaces@[r2] == b.workspaces@[r2]);
        assert(a.ws_at(c2, r2) == b.ws_at(c2, r2));
    }
}

/// A commit of window `id` with the client's `app_id` and `title` and
/// minimum size `min_w` x `min_h` (0 = none): the window takes the app id
/// and title; under the `Float` overflow policy a tiled window whose slot
/// is too small is forced to float. The events are those of
/// `metadata_events`, then the float event when it floated.
#[verifier::spinoff_prover]
#[verifier::rlimit(30)]
pub fn commit_metadata(
    g: &mut Grid,
    id: WindowId,
    app_id: String,
    title: String,
    min_w: i32,
    min_h: i32,
    overflow: MinSizeOverflow,
) -> (events: Vec<Event>)
    requires
        old(g).wf(),
        old(g).layout_ok(),
        overflow == MinSizeOverflow::Float ==> (old(g).rect_spec(id) matches Some(rect) ==> min_float_fits(
            rect,
            min_w,
            min_h,
        )),
    ensures
        final(g).wf(),
        !old(g).has_window(id) ==> *final(g) == *old(g) && events@.len() == 0,
        old(g).has_window(id) ==> {
            let floats = commit_floats(*old(g), id, min_w, min_h, overflow);
            let w = old(g).win(id);
            &&& events@.map_values(|e: Event| event_view(e)) == metadata_events(id, w.app_id@, w.title@, app_id@, title@)
                + if floats {
                seq![float_event(*old(g), id, min_w, min_h)]
            } else {
                Seq::empty()
            }
            &&& final(g).windows@.len() == old(g).windows@.len()
            &&& forall|k: int| 0 <= k < old(g).windows@.len() && k != old(g).win_index(id)
                ==> final(g).windows@[k] == old(g).windows@[k]
            &&& committed_window(*old(g), id, app_id@, title@, min_w, min_h, floats,
                final(g).windows@[old(g).win_index(id)])
            &&& commit_rest(old(g), final(g), id, floats)
        },
{
    let i = match g.find_window(id) {
        Some(i) => i,
        None => return Vec::new(),
    };
    let ghost g0 = *g;
    proof {
        assert(g0.win(id) == g0.windows@[i as int]);
    }
    let mut events = metadata_event_list(id, &g.windows[i].app_id, &g.windows[i].title, &app_id, &title);
    let floated = float_if_too_small(g, id, min_w, min_h, overflow);
    let floats = floated.is_some();
    if let Some(e) = floated {
        let ghost before = events@.map_values(|e: Event| event_view(e));
        events.push(e);
        assert(events@.map_values(|e: Event| event_view(e)) =~= before.push(float_event(g0, id, min_w, min_h)));
    } else {
        assert(events@.map_values(|e: Event| event_view(e)) =~= events@.map_values(|e: Event| event_view(e))
            + Seq::<EventV>::empty());
    }
    let ghost g1 = *g;
    g.update_window_metadata(id, app_id, title);
    proof {
        assert(g1.win_index(id) == i);
        assert(g.windows@[i as int] == Window {
            app_id: g.windows@[i as int].app_id,
            title: g.windows@[i as int].title,
            ..g1.windows@[i as int]
        });
        if floats {
            let (c, r) = g0.win(id).workspace;
            lemma_same_cells(g, &g1, &g0, c as int, r as int);
        }
    }
    events
}

fn metadata_event_list(id: WindowId, prev_app: &String, prev_title: &String, app_id: &String, title: &String) -> (events: Vec<
    Event,
>)
    ensures
        events@.map_values(|e: Event| event_view(e)) == metadata_events(id, prev_app@, prev_title@, app_id@, title@),
{
    let mut events: Vec<Event> = Vec::new();
    if title.as_str().unicode_len() > 0 && !str_eq(title.as_str(), prev_title.as_str()) {
        events.push(Event::WindowTitle { id, title: title.clone() });
    }
    if app_id.as_str().unicode_len() > 0 && !str_eq(app_id.as_str(), prev_app.as_str()) {
        events.push(Event::WindowAppId { id, app_id: app_id.clone() });
    }
    assert(events@.map_values(|e: Event| event_view(e)) =~= metadata_events(id, prev_app@, prev_title@, app_id@, title@));
    events
}

/// Under the `Float` policy, force window `id` to float when its tiled slot
/// is smaller than its minimum size; the event for it when it did.
fn float_if_too_small(g: &mut Grid, id: WindowId, min_w: i32, min_h: i32, overflow: MinSizeOverflow) -> (ev: Option<Event>)
    requires
        old(g).wf(),
        old(g).layout_ok(),
        old(g).has_window(id),
        overflow == MinSizeOverflow::Float ==> (old(g).rect_spec(id) matches Some(rect) ==> min_float_fits(
            rect,
            min_w,
            min_h,
        )),
    ensures
        final(g).wf(),
        (ev is Some) == commit_floats(*old(g), id, min_w, min_h, overflow),
        ev matches Some(e) ==> event_view(e) == float_event(*old(g), id, min_w, min_h),
        ev is None ==> *final(g) == *old(g),
        ev is Some ==> {
            let i = old(g).win_index(id);
            let w = old(g).win(id);
            &&& commit_rest(old(g), final(g), id, true)
            &&& final(g).windows@ == old(g).windows@.update(i, Window {
                current_state: WindowState::Floating,
                current_slot: None,
                requested_slot: if w.requested_slot is None { w.current_slot } else { w.requested_slot },
                floating_geom: min_float_geom(old(g).rect_spec(id)->0, min_w, min_h),
                ..w
            })
        },
{
    if !matches!(overflow, MinSizeOverflow::Float) {
        return None;
    }
    let i = match g.find_window(id) {
        Some(i) => i,
        None => return None,
    };
    let slot = match g.windows[i].current_slot {
        Some(s) => String::from_str(slot_name(s)),
        None => String::new(),
    };
    let rect = g.compute_rect(id);
    if !g.force_min_size_float(id, min_w, min_h) {
        return None;
    }
    let r = match rect {
        Some(r) => r,
        None => Rect::new(0, 0, 0, 0),
    };
    assert(slot@ =~= match old(g).win(id).current_slot {
        Some(s) => slot_name_spec(s),
        None => Seq::empty(),
    });
    Some(Event::WindowSizeConstraintFloat { id, slot, min_w, min_h, slot_w: r.w, slot_h: r.h })
}

} // verus!
