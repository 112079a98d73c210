//! Properties that span several grid operations.
use vstd::prelude::*;

use super::layout::{at_least_1, div_trunc, slot_rect_spec};
use super::model::{lemma_restore_keys, restore_upto};
use super::model::CellModel;
use super::conflict::{conflicts, half_to_quarter};
use super::focus::{dist2, is_candidate, lemma_nearest_upto, nearest, spatial_focus_spec, FocusDirection};
use super::placement::{first_where, free_and_clear, placement_spec};
use super::resize::{lemma_relocate_keys, relocate_upto, relocated_window, relocation};
use super::states::{rotate_next, rotate_prev};
use super::workspace::lemma_slots_where;
use super::window::WindowState;
use super::window::{Slot, WindowId};
use super::workspace::Workspace;
use super::{special, AddWindowResult, Grid, PlacementHints, Window};

verus! {

/// Going back right after switching to another cell returns to the cell
/// left, with the focus on the front of its focus history, and offers the
/// switched-to cell for going forward.
pub proof fn law_back_undoes_switch(a: &Grid, b: &Grid, c: &Grid, coords: (u8, u8))
    requires
        coords != a.focused,
        b.switched_to(a, coords),
        b.only_focus_changed(a),
        c.went_back(b),
    ensures
        c.focused == a.focused,
        c.focused_window == a.last_focused_at(a.focused.0 as int, a.focused.1 as int),
        c.forward_history@ == seq![coords],
        a.history@.len() < 64 ==> c.history@ == a.history@,
{
    assert(b.history@.len() > 0);
    assert(b.history@[0] == a.focused);
    assert(b.ws_at(a.focused.0 as int, a.focused.1 as int) == a.ws_at(a.focused.0 as int, a.focused.1 as int));
    assert(c.forward_history@ =~= seq![coords]);
    if a.history@.len() < 64 {
        assert(c.history@ =~= a.history@);
    }
}

/// Going forward right after going back returns to the cell left, with
/// the focus on the front of its focus history.
pub proof fn law_forward_redoes_back(a: &Grid, b: &Grid, c: &Grid)
    requires
        a.history@.len() > 0,
        b.went_back(a),
        b.workspaces@ == a.workspaces@,
        c.went_forward(b),
    ensures
        c.focused == a.focused,
        c.focused_window == a.last_focused_at(a.focused.0 as int, a.focused.1 as int),
        a.forward_history@.len() < 64 ==> c.forward_history@ == a.forward_history@,
        a.history@.len() <= 64 ==> c.history@ == a.history@,
{
    assert(b.forward_history@[0] == a.focused);
    assert(b.ws_at(a.focused.0 as int, a.focused.1 as int) == a.ws_at(a.focused.0 as int, a.focused.1 as int));
    if a.forward_history@.len() < 64 {
        assert(c.forward_history@ =~= a.forward_history@);
    }
    if a.history@.len() <= 64 {
        assert(c.history@ =~= a.history@);
    }
}

/// After a resize to `nc` x `nr`, every window of a well-formed grid is in
/// a special workspace or on a cell inside the new grid; none changes id.
pub proof fn law_resize_windows_in_grid(g: &Grid, cells: spec_fn(int, int) -> CellModel, nc: u8, nr: u8)
    requires
        g.wf(),
        1 <= nc,
        1 <= nr,
    ensures
        ({
            let wl = relocate_upto(cells, g.windows@, nc, nr, g.windows@.len() as int).1;
            &&& wl.len() == g.windows@.len()
            &&& forall|k: int| 0 <= k < wl.len() ==> #[trigger] wl[k].id == g.windows@[k].id
                && (wl[k].workspace == special() || (wl[k].workspace.0 < nc && wl[k].workspace.1 < nr))
        }),
{
    lemma_resize_prefix(g, cells, nc, nr, g.windows@.len() as int);
}

/// The windows already relocated lie in the new grid or a special workspace.
proof fn lemma_resize_prefix(g: &Grid, cells: spec_fn(int, int) -> CellModel, nc: u8, nr: u8, k: int)
    requires
        g.wf(),
        1 <= nc,
        1 <= nr,
        0 <= k <= g.windows@.len(),
    ensures
        ({
            let wl = relocate_upto(cells, g.windows@, nc, nr, k).1;
            &&& wl.len() == g.windows@.len()
            &&& forall|j: int| 0 <= j < wl.len() ==> #[trigger] wl[j].id == g.windows@[j].id
            &&& forall|j: int| 0 <= j < k ==> #[trigger] wl[j].workspace == special()
                || (wl[j].workspace.0 < nc && wl[j].workspace.1 < nr)
        }),
    decreases k,
{
    lemma_relocate_keys(cells, g.windows@, nc, nr, k);
    if k > 0 {
        lemma_resize_prefix(g, cells, nc, nr, k - 1);
        lemma_relocate_keys(cells, g.windows@, nc, nr, k - 1);
        let (c1, w1) = relocate_upto(cells, g.windows@, nc, nr, k - 1);
        let w = w1[k - 1];
        assert(w == g.windows@[k - 1]);
        assert(g.placed_or_special(g.windows@[k - 1].workspace));
        if w.workspace != special() {
            assert(g.workspaces@[w.workspace.1 as int]@.len() <= 255);
        }
        let wl = relocate_upto(cells, g.windows@, nc, nr, k).1;
        assert forall|j: int| 0 <= j < k implies #[trigger] wl[j].workspace == special()
            || (wl[j].workspace.0 < nc && wl[j].workspace.1 < nr) by {
            if j < k - 1 {
                assert(wl[j] == w1[j]);
            }
        }
    }
}

/// A removed window is no longer registered.
pub proof fn law_removed_window_gone(old: &Grid, new: &Grid, id: WindowId, mid: Workspace)
    requires
        old.wf(),
        old.has_window(id),
        new.removed_via(old, id, mid),
    ensures
        !new.has_window(id),
{
    let i = old.win_index(id);
    let w = old.win(id);
    let wl1 = old.windows@.remove(i);
    old.lemma_index_unique(i, id);
    assert forall|k: int| 0 <= k < wl1.len() implies wl1[k].id != id by {
        let k2 = if k < i { k } else { k + 1 };
        assert(wl1[k] == old.windows@[k2]);
        if k2 < i {
            assert(old.windows@[k2].id < old.windows@[i].id);
        } else {
            assert(old.windows@[i].id < old.windows@[k2].id);
        }
    }
    let (c, r) = w.workspace;
    let wl2 = if w.workspace != special() && old.fullscreen_auto_restore {
        restore_upto(mid.model(), wl1, (c, r), wl1.len() as int).1
    } else {
        wl1
    };
    if w.workspace != special() && old.fullscreen_auto_restore {
        lemma_restore_keys(mid.model(), wl1, (c, r), wl1.len() as int);
    }
    assert forall|k: int| 0 <= k < new.windows@.len() implies new.windows@[k].id != id by {
        assert(new.windows@.len() == wl2.len());
        assert(new.windows@[k].id == wl2[k].id);
    }
}

/// An added window is registered under a fresh id, larger than every id
/// before, on the cell the rule or the focus chose.
pub proof fn law_added_window_registered(old: &Grid, new: &Grid, hints: PlacementHints, res: AddWindowResult, mid: Workspace)
    requires
        old.wf(),
        new.added_via(old, hints, res, mid),
    ensures
        !old.has_window(res.id),
        forall|k: int| 0 <= k < old.windows@.len() ==> old.windows@[k].id < res.id,
        new.has_window(res.id),
        new.windows@.last().id == res.id,
        new.windows@.last().workspace == old.add_target(hints),
{
    reveal(Grid::added_via);
    assert forall|k: int| 0 <= k < old.windows@.len() implies old.windows@[k].id < res.id by {
        assert(old.windows@[k].id < old.next_id);
    }
    let n = new.windows@.len() - 1;
    assert(new.windows@[n].id == res.id);
}

/// The two halves and the inner gap between them span the usable width
/// whenever the right half is not clamped to its one-pixel minimum.
pub proof fn law_halves_span_width(ow: int, oh: int, inner: int, outer: int, smart: bool)
    requires
        ({
            let (o, i) = if smart { (0int, 0int) } else { (outer, inner) };
            let usable_w = at_least_1(ow - o - o);
            let left_w = at_least_1(usable_w / 2 - div_trunc(i, 2));
            usable_w - left_w - i >= 1
        }),
    ensures
        ({
            let l = slot_rect_spec(Slot::HalfLeft, ow, oh, inner, outer, smart);
            let r = slot_rect_spec(Slot::HalfRight, ow, oh, inner, outer, smart);
            let (o, i) = if smart { (0int, 0int) } else { (outer, inner) };
            &&& l.0 == o
            &&& r.0 == l.0 + l.2 + i
            &&& r.0 + r.2 == o + at_least_1(ow - o - o)
        }),
{
}

/// The two quarters of a column share its x and width, and with the inner
/// gap between them span the half's height whenever the lower one is not
/// clamped to its one-pixel minimum.
pub proof fn law_quarters_split_halves(ow: int, oh: int, inner: int, outer: int, smart: bool)
    requires
        ({
            let (o, i) = if smart { (0int, 0int) } else { (outer, inner) };
            let usable_h = at_least_1(oh - o - o);
            let top_h = at_least_1(usable_h / 2 - div_trunc(i, 2));
            usable_h - top_h - i >= 1
        }),
    ensures
        ({
            let hl = slot_rect_spec(Slot::HalfLeft, ow, oh, inner, outer, smart);
            let hr = slot_rect_spec(Slot::HalfRight, ow, oh, inner, outer, smart);
            let tl = slot_rect_spec(Slot::QuarterTL, ow, oh, inner, outer, smart);
            let bl = slot_rect_spec(Slot::QuarterBL, ow, oh, inner, outer, smart);
            let tr = slot_rect_spec(Slot::QuarterTR, ow, oh, inner, outer, smart);
            let br = slot_rect_spec(Slot::QuarterBR, ow, oh, inner, outer, smart);
            let (o, i) = if smart { (0int, 0int) } else { (outer, inner) };
            &&& tl.0 == hl.0 && bl.0 == hl.0 && tl.2 == hl.2 && bl.2 == hl.2
            &&& tr.0 == hr.0 && br.0 == hr.0 && tr.2 == hr.2 && br.2 == hr.2
            &&& tl.1 == hl.1 && tr.1 == hr.1
            &&& bl.1 == tl.1 + tl.3 + i && br.1 == bl.1
            &&& tl.3 + i + bl.3 == hl.3 && tr.3 + i + br.3 == hr.3
        }),
{
}

// ─── Slot adaptation ─────────────────────────────────────────────────────────

/// A requested half adapts into a quarter only when exactly one of the two
/// quarters on its side is taken: the quarter it gets lies on that side and
/// is free, and the other quarter of that side is the taken one. A quarter
/// never adapts.
pub proof fn law_half_adapts_into_free_quarter(ws: &Workspace, incoming: Slot)
    ensures
        half_to_quarter(ws, incoming) matches Some(q) ==> {
            &&& incoming.spec_is_half()
            &&& !q.spec_is_half()
            &&& conflicts(q, incoming)
            &&& !ws.occupied(q)
            &&& forall|o: Slot| !o.spec_is_half() && conflicts(o, incoming) && o != q ==> ws.occupied(o)
        },
        half_to_quarter(ws, incoming) is None ==> !incoming.spec_is_half() || forall|a: Slot, b: Slot|
            !a.spec_is_half() && !b.spec_is_half() && conflicts(a, incoming) && conflicts(b, incoming)
            ==> ws.occupied(a) == ws.occupied(b),
{
}

// ─── New-window placement ────────────────────────────────────────────────────

/// A new window placed on a free slot never overlaps a window already
/// tiled: no occupied slot but its own conflicts with it. A Tiled placement
/// on a taken slot stacks onto the first taken slot in reading order.
pub proof fn law_new_window_overlaps_nothing(ws: &Workspace)
    ensures
        ({
            let (p, _) = placement_spec(ws);
            (p.slot matches Some(s) && !ws.occupied(s)) ==> forall|occ: Slot| ws.occupied(occ) && occ != p.slot->0
                ==> !conflicts(p.slot->0, occ)
        }),
        ({
            let (p, _) = placement_spec(ws);
            (p.slot matches Some(s) && ws.occupied(s)) ==> forall|o: Slot| o.idx() < p.slot->0.idx() ==> !ws.occupied(o)
        }),
{
    let cand = |c: Slot| free_and_clear(ws, c);
    let occ = |c: Slot| ws.occupied(c);
    lemma_slots_where(cand);
    lemma_slots_where(occ);
    let (p, _) = placement_spec(ws);
    if ws.total_len() != 0 && !(ws.fullscreen_stack@.len() == 1 && ws.total_fullscreen_stack@.len() == 0
        && (forall|s: Slot| #[trigger] ws.stack(s).len() == 0) && ws.floating@.len() == 0) {
        match first_where(cand) {
            Some(c) => {
                assert(cand(super::workspace::slots_where(cand)[0]));
                assert(free_and_clear(ws, c));
            },
            None => {
                match first_where(occ) {
                    Some(s) => {
                        let sw = super::workspace::slots_where(occ);
                        assert(occ(sw[0]));
                        assert forall|o: Slot| o.idx() < s.idx() implies !ws.occupied(o) by {
                            if ws.occupied(o) {
                                assert(sw.contains(o));
                                let k = choose|k: int| 0 <= k < sw.len() && sw[k] == o;
                                if k > 0 {
                                    assert(sw[0].idx() < sw[k].idx());
                                }
                            }
                        }
                    },
                    None => {
                        assert forall|o: Slot| !ws.occupied(o) by {
                            assert(!occ(o));
                        }
                    },
                }
            },
        }
    }
}

// ─── Spatial focus ───────────────────────────────────────────────────────────

/// Center of slot `s` lies in direction `dir` from the center of `from`
/// (y grows downward).
pub open spec fn center_toward(from: Slot, s: Slot, dir: FocusDirection) -> bool {
    match dir {
        FocusDirection::Left => s.center4().0 < from.center4().0,
        FocusDirection::Right => s.center4().0 > from.center4().0,
        FocusDirection::Up => s.center4().1 < from.center4().1,
        FocusDirection::Down => s.center4().1 > from.center4().1,
    }
}

/// Spatial focus toward `dir` reaches an occupied slot other than the
/// focused one whose center lies strictly that way, and one nearest among
/// all such slots; it reaches nothing only when no such slot exists.
pub proof fn law_spatial_focus_goes_that_way(ws: &Workspace, from: Slot, dir: FocusDirection)
    ensures
        nearest(ws, from, Some(dir)) matches Some(s) ==> {
            &&& ws.occupied(s)
            &&& s != from
            &&& center_toward(from, s, dir)
            &&& forall|o: Slot| ws.occupied(o) && o != from && center_toward(from, o, dir) ==> dist2(s, from) <= dist2(
                o,
                from,
            )
        },
        nearest(ws, from, Some(dir)) is None ==> forall|o: Slot| ws.occupied(o) && o != from ==> !center_toward(
            from,
            o,
            dir,
        ),
{
    lemma_nearest_upto(ws, from, Some(dir), 6);
    assert forall|o: Slot| ws.occupied(o) && o != from && #[trigger] center_toward(from, o, dir) implies is_candidate(
        ws,
        from,
        Some(dir),
        o,
    ) && o.idx() < 6 by {}
    if let Some(b) = nearest(ws, from, Some(dir)) {
        assert(is_candidate(ws, from, Some(dir), b));
        assert(center_toward(from, b, dir));
    }
}

/// The window spatial focus picks toward `dir` is the top window of an
/// occupied slot, other than the focused one, whose center lies strictly
/// that way; it picks none only when no occupied slot lies that way.
pub proof fn law_spatial_focus_picks_window_that_way(ws: &Workspace, from: Slot, dir: FocusDirection)
    ensures
        spatial_focus_spec(ws, from, dir) matches Some(id) ==> exists|s: Slot| {
            &&& ws.occupied(s)
            &&& s != from
            &&& #[trigger] center_toward(from, s, dir)
            &&& ws.stack(s)[0] == id
        },
        spatial_focus_spec(ws, from, dir) is None ==> forall|o: Slot| ws.occupied(o) && o != from ==> !center_toward(
            from,
            o,
            dir,
        ),
{
    law_spatial_focus_goes_that_way(ws, from, dir);
    if let Some(s) = nearest(ws, from, Some(dir)) {
        assert(center_toward(from, s, dir));
    }
}

// ─── Resizing the grid ───────────────────────────────────────────────────────

/// Each window of the list after relocating the first `k`.
proof fn lemma_relocate_each(cells: spec_fn(int, int) -> CellModel, ws: Seq<Window>, nc: u8, nr: u8, k: int)
    requires
        0 <= k <= ws.len(),
    ensures
        forall|j: int| 0 <= j < k ==> #[trigger] relocate_upto(cells, ws, nc, nr, k).1[j] == match relocation(ws[j], nc, nr) {
            Some(t) => relocated_window(ws[j], t),
            None => ws[j],
        },
    decreases k,
{
    lemma_relocate_keys(cells, ws, nc, nr, k);
    if k > 0 {
        lemma_relocate_each(cells, ws, nc, nr, k - 1);
        lemma_relocate_keys(cells, ws, nc, nr, k - 1);
        let w1 = relocate_upto(cells, ws, nc, nr, k - 1).1;
        assert(w1[k - 1] == ws[k - 1]);
        let wl = relocate_upto(cells, ws, nc, nr, k).1;
        assert forall|j: int| 0 <= j < k - 1 implies #[trigger] wl[j] == w1[j] by {}
    }
}

/// Resizing the grid to `nc` x `nr` keeps each coordinate of a window's
/// cell that is still inside the new grid and clamps the other to the last
/// column or row; a window whose cell changes becomes Floating with no
/// slot, and a window in a special workspace stays there.
pub proof fn law_resize_clamps_each_coordinate(cells: spec_fn(int, int) -> CellModel, ws: Seq<Window>, nc: u8, nr: u8)
    requires
        1 <= nc,
        1 <= nr,
    ensures
        ({
            let wl = relocate_upto(cells, ws, nc, nr, ws.len() as int).1;
            &&& wl.len() == ws.len()
            &&& forall|j: int| 0 <= j < ws.len() && ws[j].workspace.0 != 255 ==> (#[trigger] wl[j]).workspace == (
                if ws[j].workspace.0 < nc { ws[j].workspace.0 } else { (nc - 1) as u8 },
                if ws[j].workspace.1 < nr { ws[j].workspace.1 } else { (nr - 1) as u8 },
            )
            &&& forall|j: int| 0 <= j < ws.len() && ws[j].workspace.0 == 255 ==> #[trigger] wl[j] == ws[j]
            &&& forall|j: int| 0 <= j < ws.len() && (#[trigger] wl[j]).workspace != ws[j].workspace ==> {
                &&& wl[j].current_state == WindowState::Floating
                &&& wl[j].current_slot is None
                &&& wl[j].id == ws[j].id
            }
        }),
{
    lemma_relocate_keys(cells, ws, nc, nr, ws.len() as int);
    lemma_relocate_each(cells, ws, nc, nr, ws.len() as int);
}

// ─── Stack rotation ──────────────────────────────────────────────────────────

/// `stack_next` rotates the stack by one: the window at position `i` is
/// the one that was at `i + 1`, and the old top goes to the bottom; so
/// repeated calls reach every window of the stack. `stack_prev` undoes it.
pub proof fn law_stack_next_rotates_by_one(s: Seq<WindowId>)
    requires
        s.len() >= 1,
    ensures
        rotate_next(s).len() == s.len(),
        forall|i: int| 0 <= i < s.len() ==> #[trigger] rotate_next(s)[i] == s[(i + 1) % (s.len() as int)],
        rotate_prev(rotate_next(s)) == s,
        rotate_next(rotate_prev(s)) == s,
        forall|i: int| 0 <= i < s.len() ==> #[trigger] rotate_prev(s)[i] == s[(i + s.len() - 1) % (s.len() as int)],
{
    let n = s.len() as int;
    assert forall|i: int| 0 <= i < n implies #[trigger] rotate_next(s)[i] == s[(i + 1) % n] by {
        if i + 1 < n {
            assert((i + 1) % n == i + 1) by (nonlinear_arith)
                requires 0 <= i + 1 < n;
        } else {
            assert((i + 1) % n == 0) by (nonlinear_arith)
                requires i + 1 == n, n > 0;
        }
    }
    assert forall|i: int| 0 <= i < n implies #[trigger] rotate_prev(s)[i] == s[(i + n - 1) % n] by {
        if i == 0 {
            assert((n - 1) % n == n - 1) by (nonlinear_arith)
                requires n > 0;
        } else {
            assert((i + n - 1) % n == i - 1) by (nonlinear_arith)
                requires 0 < i < n;
        }
    }
    assert(rotate_prev(rotate_next(s)) =~= s);
    assert(rotate_next(rotate_prev(s)) =~= s);
}

} // verus!
