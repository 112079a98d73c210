//! Resizing the grid.
use vstd::prelude::*;

use super::model::{place_model, remove_model, CellModel};
use super::window::{Rect, WindowId, WindowState};
use super::workspace::Workspace;
use super::{Grid, Window};

verus! {

/// The lists of a cell holding no window.
pub open spec fn empty_model() -> CellModel {
    CellModel {
        stacks: Seq::new(6, |i: int| Seq::<WindowId>::empty()),
        floating: Seq::empty(),
        fullscreen: Seq::empty(),
        total: Seq::empty(),
        history: Seq::empty(),
    }
}

/// `v` clamped to `[lo, hi]`.
pub open spec fn clamp(v: int, lo: int, hi: int) -> int {
    if v < lo {
        lo
    } else if v > hi {
        hi
    } else {
        v
    }
}

pub open spec fn min(a: int, b: int) -> int {
    if a < b {
        a
    } else {
        b
    }
}

pub open spec fn max(a: int, b: int) -> int {
    if a < b {
        b
    } else {
        a
    }
}

/// Where a resize to `nc` x `nr` moves a window: the nearest cell inside
/// the grid when its cell falls outside; None for a window already inside
/// or in a special workspace.
pub open spec fn relocation(w: Window, nc: u8, nr: u8) -> Option<(u8, u8)> {
    if w.workspace.0 == 255 {
        None
    } else {
        let t = (min(w.workspace.0 as int, nc - 1) as u8, min(w.workspace.1 as int, nr - 1) as u8);
        if t != w.workspace {
            Some(t)
        } else {
            None
        }
    }
}

/// A relocated window: on its new cell, Floating with no slot, with a
/// default floating geometry if it had no slot and an empty one.
pub open spec fn relocated_window(w: Window, t: (u8, u8)) -> Window {
    Window {
        workspace: t,
        current_state: WindowState::Floating,
        current_slot: None,
        floating_geom: if w.current_slot is None && w.floating_geom.w == 0 {
            Rect { x: 100, y: 100, w: 800, h: 600 }
        } else {
            w.floating_geom
        },
        ..w
    }
}

/// Relocation of the first `k` windows of the list, in order: each one
/// leaves every list of its old cell and goes to the top of the floating
/// layer of its new one. Gives the cell models and the window list.
pub open spec fn relocate_upto(cells: spec_fn(int, int) -> CellModel, ws: Seq<Window>, nc: u8, nr: u8, k: int)
    -> (spec_fn(int, int) -> CellModel, Seq<Window>)
    decreases k,
{
    if k <= 0 {
        (cells, ws)
    } else {
        let (c1, w1) = relocate_upto(cells, ws, nc, nr, k - 1);
        let w = w1[k - 1];
        match relocation(w, nc, nr) {
            Some(t) => (
                |x: int, y: int|
                    if x == w.workspace.0 && y == w.workspace.1 {
                        remove_model(c1(x, y), w.id)
                    } else if x == t.0 && y == t.1 {
                        place_model(c1(x, y), WindowState::Floating, None, w.id)
                    } else {
                        c1(x, y)
                    },
                w1.update(k - 1, relocated_window(w, t)),
            ),
            None => (c1, w1),
        }
    }
}

/// Relocation keeps the length of the list and every id.
pub proof fn lemma_relocate_keys(cells: spec_fn(int, int) -> CellModel, ws: Seq<Window>, nc: u8, nr: u8, k: int)
    requires
        k <= ws.len(),
    ensures
        relocate_upto(cells, ws, nc, nr, k).1.len() == ws.len(),
        forall|j: int| 0 <= j < ws.len() ==> #[trigger] relocate_upto(cells, ws, nc, nr, k).1[j].id == ws[j].id,
        forall|j: int| k <= j < ws.len() ==> #[trigger] relocate_upto(cells, ws, nc, nr, k).1[j] == ws[j],
    decreases k,
{
    if k > 0 {
        lemma_relocate_keys(cells, ws, nc, nr, k - 1);
    }
}

impl Grid {
    /// Row length after growing the array for `nc` columns: an existing row
    /// grows to at least `nc`, a new row gets the larger of the old and new
    /// column counts.
    pub open spec fn grown_row_len(&self, r: int, nc: int) -> int {
        if r < self.workspaces@.len() {
            max(self.workspaces@[r]@.len() as int, nc)
        } else {
            max(self.cols as int, nc)
        }
    }

    /// The cell models right after the array grew: old cells as they were,
    /// new ones empty.
    pub open spec fn grown_cells(&self) -> spec_fn(int, int) -> CellModel {
        |c: int, r: int| if self.allocated(c, r) { self.ws_at(c, r).model() } else { empty_model() }
    }

    /// Grow the workspace array to `nr` rows and every row to `nc` cells.
    fn grow(&mut self, nc: u8, nr: u8)
        requires
            old(self).wf(),
            1 <= nc <= 16,
            1 <= nr <= 16,
        ensures
            final(self).wf(),
            final(self).workspaces@.len() == max(old(self).workspaces@.len() as int, nr as int),
            forall|r: int| 0 <= r < final(self).workspaces@.len() ==> #[trigger] final(self).workspaces@[r]@.len()
                == old(self).grown_row_len(r, nc as int),
            forall|c: int, r: int| #[trigger] final(self).allocated(c, r) ==> {
                &&& final(self).ws_at(c, r).wf()
                &&& old(self).allocated(c, r) ==> final(self).ws_at(c, r) == old(self).ws_at(c, r)
                &&& !old(self).allocated(c, r) ==> {
                    &&& final(self).ws_at(c, r).model() == empty_model()
                    &&& final(self).ws_at(c, r).col == c
                    &&& final(self).ws_at(c, r).row == r
                    &&& final(self).ws_at(c, r).name is None
                }
            },
            final(self).windows@ == old(self).windows@,
            final(self).focused == old(self).focused,
            final(self).focused_window == old(self).focused_window,
            final(self).history@ == old(self).history@,
            final(self).forward_history@ == old(self).forward_history@,
            final(self).pending_configures@ == old(self).pending_configures@,
            final(self).settings_same(old(self)),
    {
        let width: u8 = if self.cols < nc { nc } else { self.cols };
        let ghost olen = old(self).workspaces@.len();
        while self.workspaces.len() < nr as usize
            invariant
                self.workspaces@.len() <= max(olen as int, nr as int),
                olen <= self.workspaces@.len(),
                olen == old(self).workspaces@.len(),
                olen <= 255,
                nr <= 16,
                forall|r: int| 0 <= r < olen ==> #[trigger] self.workspaces@[r] == old(self).workspaces@[r],
                forall|r: int| olen <= r < self.workspaces@.len() ==> #[trigger] self.workspaces@[r]@.len() == width,
                forall|c: int, r: int| olen <= r < self.workspaces@.len() && 0 <= c < width ==> {
                    &&& #[trigger] self.workspaces@[r]@[c].wf()
                    &&& self.workspaces@[r]@[c].model() == empty_model()
                    &&& self.workspaces@[r]@[c].col == c
                    &&& self.workspaces@[r]@[c].row == r
                    &&& self.workspaces@[r]@[c].name is None
                },
                self.windows@ == old(self).windows@,
                self.focused == old(self).focused,
                self.focused_window == old(self).focused_window,
                self.history@ == old(self).history@,
                self.forward_history@ == old(self).forward_history@,
                self.pending_configures@ == old(self).pending_configures@,
                self.settings_same(old(self)),
            decreases nr as usize - self.workspaces.len(),
        {
            let r = self.workspaces.len() as u8;
            let mut row: Vec<Workspace> = Vec::new();
            let mut c: u8 = 0;
            while c < width
                invariant
                    c <= width,
                    row@.len() == c,
                    forall|k: int| 0 <= k < c ==> {
                        &&& #[trigger] row@[k].wf()
                        &&& row@[k].model() == empty_model()
                        &&& row@[k].col == k
                        &&& row@[k].row == r
                        &&& row@[k].name is None
                    },
                decreases width - c,
            {
                let ws = Workspace::new(c, r);
                proof {
                    assert(ws.model().stacks =~= empty_model().stacks) by {
                        assert forall|i: int| 0 <= i < 6 implies ws.model().stacks[i] == empty_model().stacks[i] by {
                            let s = super::window::all_slots()[i];
                            super::window::lemma_idx_slot(i);
                            assert(ws.stack(s).len() == 0);
                        }
                    }
                    assert(ws.model() =~= empty_model());
                }
                row.push(ws);
                c += 1;
            }
            self.workspaces.push(row);
        }
        let ghost s1 = *self;
        let mut r: usize = 0;
        while r < self.workspaces.len()
            invariant
                self.workspaces@.len() == s1.workspaces@.len(),
                s1.workspaces@.len() == max(olen as int, nr as int),
                olen == old(self).workspaces@.len(),
                olen <= 255,
                nc <= 16,
                nr <= 16,
                r <= self.workspaces@.len(),
                forall|k: int| 0 <= k < r ==> #[trigger] self.workspaces@[k]@.len() == max(s1.workspaces@[k]@.len() as int, nc as int),
                forall|k: int| r <= k < self.workspaces@.len() ==> #[trigger] self.workspaces@[k] == s1.workspaces@[k],
                forall|k: int, c: int| 0 <= k < r && 0 <= c < self.workspaces@[k]@.len() ==> {
                    &&& c < s1.workspaces@[k]@.len() ==> #[trigger] self.workspaces@[k]@[c] == s1.workspaces@[k]@[c]
                    &&& c >= s1.workspaces@[k]@.len() ==> {
                        &&& self.workspaces@[k]@[c].wf()
                        &&& self.workspaces@[k]@[c].model() == empty_model()
                        &&& self.workspaces@[k]@[c].col == c
                        &&& self.workspaces@[k]@[c].row == k
                        &&& self.workspaces@[k]@[c].name is None
                    }
                },
                self.windows@ == old(self).windows@,
                self.focused == old(self).focused,
                self.focused_window == old(self).focused_window,
                self.history@ == old(self).history@,
                self.forward_history@ == old(self).forward_history@,
                self.pending_configures@ == old(self).pending_configures@,
                self.settings_same(old(self)),
            decreases s1.workspaces@.len() - r,
        {
            let ghost start = self.workspaces@[r as int]@;
            let ghost before = self.workspaces@;
            while self.workspaces[r].len() < nc as usize
                invariant
                    r < self.workspaces@.len(),
                    self.workspaces@.len() == before.len(),
                    forall|k: int| 0 <= k < before.len() && k != r ==> #[trigger] self.workspaces@[k] == before[k],
                    start == before[r as int]@,
                    self.windows@ == old(self).windows@,
                    self.focused == old(self).focused,
                    self.focused_window == old(self).focused_window,
                    self.history@ == old(self).history@,
                    self.forward_history@ == old(self).forward_history@,
                    self.pending_configures@ == old(self).pending_configures@,
                    self.settings_same(old(self)),
                    start.len() <= self.workspaces@[r as int]@.len(),
                    self.workspaces@[r as int]@.len() <= max(start.len() as int, nc as int),
                    nc <= 16,
                    r < 255,
                    forall|c: int| 0 <= c < start.len() ==> #[trigger] self.workspaces@[r as int]@[c] == start[c],
                    forall|c: int| start.len() <= c < self.workspaces@[r as int]@.len() ==> {
                        &&& #[trigger] self.workspaces@[r as int]@[c].wf()
                        &&& self.workspaces@[r as int]@[c].model() == empty_model()
                        &&& self.workspaces@[r as int]@[c].col == c
                        &&& self.workspaces@[r as int]@[c].row == r
                        &&& self.workspaces@[r as int]@[c].name is None
                    },
                decreases nc as usize - self.workspaces@[r as int]@.len(),
            {
                let c = self.workspaces[r].len() as u8;
                let ws = Workspace::new(c, r as u8);
                proof {
                    assert(ws.model().stacks =~= empty_model().stacks) by {
                        assert forall|i: int| 0 <= i < 6 implies ws.model().stacks[i] == empty_model().stacks[i] by {
                            let s = super::window::all_slots()[i];
                            super::window::lemma_idx_slot(i);
                            assert(ws.stack(s).len() == 0);
                        }
                    }
                    assert(ws.model() =~= empty_model());
                }
                self.workspaces[r].push(ws);
            }
            proof {
                assert(before[r as int] == s1.workspaces@[r as int]);
                assert forall|k: int, c: int| 0 <= k <= r && 0 <= c < self.workspaces@[k]@.len() implies {
                    &&& c < s1.workspaces@[k]@.len() ==> #[trigger] self.workspaces@[k]@[c] == s1.workspaces@[k]@[c]
                    &&& c >= s1.workspaces@[k]@.len() ==> {
                        &&& self.workspaces@[k]@[c].wf()
                        &&& self.workspaces@[k]@[c].model() == empty_model()
                        &&& self.workspaces@[k]@[c].col == c
                        &&& self.workspaces@[k]@[c].row == k
                        &&& self.workspaces@[k]@[c].name is None
                    }
                } by {
                    if k < r {
                        assert(self.workspaces@[k] == before[k]);
                    }
                }
            }
            r += 1;
        }
        proof {
            assert forall|k: int| 0 <= k < self.workspaces@.len() implies #[trigger] self.workspaces@[k]@.len()
                == old(self).grown_row_len(k, nc as int) by {
                if k < olen {
                    assert(s1.workspaces@[k] == old(self).workspaces@[k]);
                }
            }
            assert forall|c: int, r2: int| #[trigger] self.allocated(c, r2) implies {
                &&& self.ws_at(c, r2).wf()
                &&& old(self).allocated(c, r2) ==> self.ws_at(c, r2) == old(self).ws_at(c, r2)
                &&& !old(self).allocated(c, r2) ==> {
                    &&& self.ws_at(c, r2).model() == empty_model()
                    &&& self.ws_at(c, r2).col == c
                    &&& self.ws_at(c, r2).row == r2
                    &&& self.ws_at(c, r2).name is None
                }
            } by {
                if r2 < olen {
                    assert(s1.workspaces@[r2] == old(self).workspaces@[r2]);
                    if c < s1.workspaces@[r2]@.len() {
                        assert(self.workspaces@[r2]@[c] == s1.workspaces@[r2]@[c]);
                        assert(old(self).allocated(c, r2));
                        assert(old(self).ws_at(c, r2).wf());
                    } else {
                        assert(self.workspaces@[r2]@[c].wf());
                    }
                } else {
                    if c < s1.workspaces@[r2]@.len() {
                        assert(self.workspaces@[r2]@[c] == s1.workspaces@[r2]@[c]);
                        assert(s1.workspaces@[r2]@[c].wf());
                    } else {
                        assert(self.workspaces@[r2]@[c].wf());
                    }
                }
            }
            assert forall|r2: int| 0 <= r2 < self.workspaces@.len() implies self.cols <= #[trigger] self.workspaces@[r2]@.len() <= 255 by {
                if r2 < olen {
                    assert(s1.workspaces@[r2] == old(self).workspaces@[r2]);
                    assert(self.cols <= old(self).workspaces@[r2]@.len() <= 255);
                }
            }
            assert forall|c: int, r2: int| old(self).allocated(c, r2) implies self.allocated(c, r2) by {
                assert(s1.workspaces@[r2] == old(self).workspaces@[r2]);
            }
            assert forall|i: int| 0 <= i < self.windows@.len() implies self.placed_or_special(#[trigger] self.windows@[i].workspace) by {
                assert(old(self).placed_or_special(old(self).windows@[i].workspace));
            }
            assert forall|i: int| 0 <= i < self.history@.len()
                implies self.allocated(#[trigger] self.history@[i].0 as int, self.history@[i].1 as int) by {
                assert(old(self).allocated(old(self).history@[i].0 as int, old(self).history@[i].1 as int));
            }
            assert forall|i: int| 0 <= i < self.forward_history@.len()
                implies self.allocated(#[trigger] self.forward_history@[i].0 as int, self.forward_history@[i].1 as int) by {
                assert(old(self).allocated(old(self).forward_history@[i].0 as int, old(self).forward_history@[i].1 as int));
            }
            assert(old(self).allocated(old(self).focused.0 as int, old(self).focused.1 as int));
        }
    }
}


impl Grid {
    /// Window `i` moves to cell `t` as Floating with no slot (see `relocated_window`).
    fn relocate_window(&mut self, i: usize, t: (u8, u8))
        requires
            old(self).wf(),
            i < old(self).windows@.len(),
            old(self).allocated(t.0 as int, t.1 as int),
        ensures
            final(self).wf(),
            final(self).windows_changed(old(self)),
            final(self).windows@ == old(self).windows@.update(i as int, relocated_window(old(self).windows@[i as int], t)),
    {
        let w = self.window_mut(i);
        w.workspace = t;
        w.current_state = WindowState::Floating;
        if w.current_slot.is_none() {
            if w.floating_geom.w == 0 {
                w.floating_geom = Rect::new(100, 100, 800, 600);
            }
        }
        w.current_slot = None;
        proof {
            let o = old(self).windows@;
            let n = self.windows@;
            assert(n == o.update(i as int, relocated_window(o[i as int], t)));
            assert forall|a: int, b: int| 0 <= a < b < n.len() implies n[a].id < n[b].id by {
                assert(o[a].id < o[b].id);
            }
            assert forall|a: int| 0 <= a < n.len() implies n[a].id < self.next_id by {
                assert(o[a].id < old(self).next_id);
            }
            assert forall|a: int| 0 <= a < n.len() implies self.placed_or_special(#[trigger] n[a].workspace) by {
                if a != i {
                    assert(old(self).placed_or_special(o[a].workspace));
                }
            }
            assert forall|c2: int, r2: int| self.allocated(c2, r2) implies #[trigger] self.ws_at(c2, r2).wf() by {
                assert(old(self).allocated(c2, r2));
                assert(old(self).ws_at(c2, r2).wf());
                assert(self.ws_at(c2, r2) == old(self).ws_at(c2, r2));
            }
        }
    }

    /// One relocation step of a resize to the current dimensions: window
    /// `i`, if its cell is outside the grid, goes to the nearest cell inside.
    fn relocate_at(&mut self, i: usize)
        requires
            old(self).wf(),
            i < old(self).windows@.len(),
        ensures
            final(self).wf(),
            ({
                let w = old(self).windows@[i as int];
                match relocation(w, old(self).cols, old(self).rows) {
                    Some(t) => {
                        &&& final(self).same_shape(old(self))
                        &&& forall|c: int, r: int| #[trigger] final(self).allocated(c, r) ==> {
                            &&& final(self).ws_at(c, r).model() == (if c == w.workspace.0 && r == w.workspace.1 {
                                remove_model(old(self).ws_at(c, r).model(), w.id)
                            } else if c == t.0 && r == t.1 {
                                place_model(old(self).ws_at(c, r).model(), WindowState::Floating, None, w.id)
                            } else {
                                old(self).ws_at(c, r).model()
                            })
                            &&& final(self).ws_at(c, r).col == old(self).ws_at(c, r).col
                            &&& final(self).ws_at(c, r).row == old(self).ws_at(c, r).row
                            &&& final(self).ws_at(c, r).name == old(self).ws_at(c, r).name
                        }
                        &&& final(self).windows@ == old(self).windows@.update(i as int, relocated_window(w, t))
                        &&& final(self).focused == old(self).focused
                        &&& final(self).focused_window == old(self).focused_window
                        &&& final(self).history@ == old(self).history@
                        &&& final(self).forward_history@ == old(self).forward_history@
                        &&& final(self).pending_configures@ == old(self).pending_configures@
                        &&& final(self).settings_same(old(self))
                    },
                    None => *final(self) == *old(self),
                }
            }),
    {
        let id = self.windows[i].id;
        let (wc, wr) = self.windows[i].workspace;
        if wc == 255 {
            return;
        }
        proof {
            self.lemma_placed(i as int);
        }
        let cc: u8 = if wc < self.cols - 1 { wc } else { self.cols - 1 };
        let cr: u8 = if wr < self.rows - 1 { wr } else { self.rows - 1 };
        if cc == wc && cr == wr {
            return;
        }
        proof {
            assert(self.workspaces@[cr as int]@.len() >= self.cols);
        }
        self.cell_remove(wc, wr, id);
        let ghost s1 = *self;
        self.cell_place(cc, cr, WindowState::Floating, None, id);
        let ghost s2 = *self;
        self.relocate_window(i, (cc, cr));
        proof {
            assert forall|c: int, r: int| #[trigger] self.allocated(c, r) implies {
                &&& self.ws_at(c, r) == s2.ws_at(c, r)
                &&& s1.allocated(c, r)
                &&& old(self).allocated(c, r)
            } by {
                assert(s2.workspaces@[r]@.len() == s1.workspaces@[r]@.len());
                assert(s1.workspaces@[r]@.len() == old(self).workspaces@[r]@.len());
            }
            assert forall|r: int| 0 <= r < self.workspaces@.len()
                implies #[trigger] self.workspaces@[r]@.len() == old(self).workspaces@[r]@.len() by {
                assert(s2.workspaces@[r]@.len() == s1.workspaces@[r]@.len());
            }
        }
    }

    /// Resize the grid to `new_cols` x `new_rows`, each clamped to 1..=16,
    /// returning the old dimensions. The workspace array grows to hold the
    /// new grid (cells are never dropped); each window whose cell falls
    /// outside moves, in list order, to the nearest cell inside, onto the
    /// top of its floating layer as Floating; the focused cell is clamped
    /// into the grid.
    #[verifier::spinoff_prover]
    #[verifier::rlimit(40)]
    pub fn resize_grid(&mut self, new_cols: u8, new_rows: u8) -> (res: (u8, u8))
        requires
            old(self).wf(),
        ensures
            final(self).wf(),
            res == (old(self).cols, old(self).rows),
            final(self).cols == clamp(new_cols as int, 1, 16),
            final(self).rows == clamp(new_rows as int, 1, 16),
            final(self).workspaces@.len() == max(old(self).workspaces@.len() as int, final(self).rows as int),
            forall|r: int| 0 <= r < final(self).workspaces@.len() ==> #[trigger] final(self).workspaces@[r]@.len()
                == old(self).grown_row_len(r, final(self).cols as int),
            ({
                let (cells, wl) = relocate_upto(
                    old(self).grown_cells(),
                    old(self).windows@,
                    final(self).cols,
                    final(self).rows,
                    old(self).windows@.len() as int,
                );
                &&& forall|c: int, r: int| #[trigger] final(self).allocated(c, r) ==> final(self).ws_at(c, r).model() == cells(c, r)
                &&& final(self).windows@ == wl
            }),
            forall|c: int, r: int| #[trigger] final(self).allocated(c, r) ==> {
                &&& old(self).allocated(c, r) ==> {
                    &&& final(self).ws_at(c, r).col == old(self).ws_at(c, r).col
                    &&& final(self).ws_at(c, r).row == old(self).ws_at(c, r).row
                    &&& final(self).ws_at(c, r).name == old(self).ws_at(c, r).name
                }
                &&& !old(self).allocated(c, r) ==> {
                    &&& final(self).ws_at(c, r).col == c
                    &&& final(self).ws_at(c, r).row == r
                    &&& final(self).ws_at(c, r).name is None
                }
            },
            final(self).focused == (
                min(old(self).focused.0 as int, final(self).cols - 1) as u8,
                min(old(self).focused.1 as int, final(self).rows - 1) as u8,
            ),
            final(self).focused_window == old(self).focused_window,
            final(self).history@ == old(self).history@,
            final(self).forward_history@ == old(self).forward_history@,
            final(self).pending_configures@ == old(self).pending_configures@,
            final(self).next_id == old(self).next_id,
            final(self).prefs_same(old(self)),
    {
        let nc: u8 = if new_cols < 1 { 1 } else if new_cols > 16 { 16 } else { new_cols };
        let nr: u8 = if new_rows < 1 { 1 } else if new_rows > 16 { 16 } else { new_rows };
        let old_cols = self.cols;
        let old_rows = self.rows;
        self.grow(nc, nr);
        let ghost s1 = *self;
        self.cols = nc;
        self.rows = nr;
        proof {
            assert forall|r: int| 0 <= r < self.workspaces@.len() implies self.cols <= #[trigger] self.workspaces@[r]@.len() <= 255 by {
                assert(s1.workspaces@[r]@.len() == old(self).grown_row_len(r, nc as int));
                if r < old(self).workspaces@.len() {
                    assert(old(self).workspaces@[r]@.len() <= 255);
                }
            }
            assert forall|c: int, r: int| self.allocated(c, r) implies #[trigger] self.ws_at(c, r).wf() by {
                assert(s1.allocated(c, r));
            }
            assert forall|i: int| 0 <= i < self.windows@.len() implies self.placed_or_special(#[trigger] self.windows@[i].workspace) by {
                assert(s1.placed_or_special(s1.windows@[i].workspace));
            }
            assert forall|i: int| 0 <= i < self.history@.len()
                implies self.allocated(#[trigger] self.history@[i].0 as int, self.history@[i].1 as int) by {
                assert(s1.allocated(s1.history@[i].0 as int, s1.history@[i].1 as int));
            }
            assert forall|i: int| 0 <= i < self.forward_history@.len()
                implies self.allocated(#[trigger] self.forward_history@[i].0 as int, self.forward_history@[i].1 as int) by {
                assert(s1.allocated(s1.forward_history@[i].0 as int, s1.forward_history@[i].1 as int));
            }
            assert(s1.allocated(s1.focused.0 as int, s1.focused.1 as int));
            assert(self.ids_ordered());
        }
        let ghost s2 = *self;
        let ghost g = old(self).grown_cells();
        let ghost w0 = old(self).windows@;
        proof {
            assert forall|c: int, r: int| #[trigger] self.allocated(c, r) implies {
                &&& self.ws_at(c, r).model() == (relocate_upto(g, w0, nc, nr, 0).0)(c, r)
            } by {
                assert(s1.allocated(c, r));
            }
        }
        let n = self.windows.len();
        let mut i: usize = 0;
        while i < n
            invariant
                self.wf(),
                i <= n,
                n == w0.len(),
                self.cols == nc && self.rows == nr,
                self.same_shape(&s2),
                forall|c: int, r: int| #[trigger] self.allocated(c, r) ==> {
                    &&& self.ws_at(c, r).model() == (relocate_upto(g, w0, nc, nr, i as int).0)(c, r)
                    &&& self.ws_at(c, r).col == s2.ws_at(c, r).col
                    &&& self.ws_at(c, r).row == s2.ws_at(c, r).row
                    &&& self.ws_at(c, r).name == s2.ws_at(c, r).name
                },
                self.windows@ == relocate_upto(g, w0, nc, nr, i as int).1,
                self.focused == s2.focused,
                self.focused_window == s2.focused_window,
                self.history@ == s2.history@,
                self.forward_history@ == s2.forward_history@,
                self.pending_configures@ == s2.pending_configures@,
                self.settings_same(&s2),
            decreases n - i,
        {
            proof {
                lemma_relocate_keys(g, w0, nc, nr, i as int);
            }
            let ghost before = *self;
            self.relocate_at(i);
            proof {
                let (c1, w1) = relocate_upto(g, w0, nc, nr, i as int);
                assert(before.windows@[i as int] == w1[i as int]);
                assert forall|c: int, r: int| #[trigger] self.allocated(c, r) implies {
                    &&& self.ws_at(c, r).model() == (relocate_upto(g, w0, nc, nr, i as int + 1).0)(c, r)
                    &&& self.ws_at(c, r).col == s2.ws_at(c, r).col
                    &&& self.ws_at(c, r).row == s2.ws_at(c, r).row
                    &&& self.ws_at(c, r).name == s2.ws_at(c, r).name
                } by {
                    assert(before.allocated(c, r)) by {
                        assert(self.workspaces@[r]@.len() == before.workspaces@[r]@.len());
                    }
                }
                assert forall|r: int| 0 <= r < self.workspaces@.len()
                    implies #[trigger] self.workspaces@[r]@.len() == s2.workspaces@[r]@.len() by {
                    assert(self.workspaces@[r]@.len() == before.workspaces@[r]@.len());
                }
            }
            i += 1;
        }
        let ghost s3 = *self;
        self.focused.0 = if self.focused.0 < nc - 1 { self.focused.0 } else { nc - 1 };
        self.focused.1 = if self.focused.1 < nr - 1 { self.focused.1 } else { nr - 1 };
        proof {
            assert(self.workspaces@[self.focused.1 as int]@.len() >= self.cols);
            assert forall|c: int, r: int| #[trigger] self.allocated(c, r) implies {
                &&& self.ws_at(c, r).model() == (relocate_upto(g, w0, nc, nr, n as int).0)(c, r)
                &&& s2.allocated(c, r)
            } by {
                assert(s3.allocated(c, r));
                assert(self.ws_at(c, r) == s3.ws_at(c, r));
                assert(self.workspaces@[r]@.len() == s2.workspaces@[r]@.len());
            }
            assert forall|c: int, r: int| self.allocated(c, r) implies #[trigger] self.ws_at(c, r).wf() by {
                assert(s3.allocated(c, r));
                assert(self.ws_at(c, r) == s3.ws_at(c, r));
            }
            assert forall|c: int, r: int| #[trigger] self.allocated(c, r) implies {
                &&& old(self).allocated(c, r) ==> {
                    &&& self.ws_at(c, r).col == old(self).ws_at(c, r).col
                    &&& self.ws_at(c, r).row == old(self).ws_at(c, r).row
                    &&& self.ws_at(c, r).name == old(self).ws_at(c, r).name
                }
                &&& !old(self).allocated(c, r) ==> {
                    &&& self.ws_at(c, r).col == c
                    &&& self.ws_at(c, r).row == r
                    &&& self.ws_at(c, r).name is None
                }
            } by {
                assert(s3.allocated(c, r));
                assert(self.ws_at(c, r) == s3.ws_at(c, r));
                assert(self.workspaces@[r]@.len() == s2.workspaces@[r]@.len());
                assert(s1.allocated(c, r));
                assert(s2.ws_at(c, r) == s1.ws_at(c, r));
            }
        }
        (old_cols, old_rows)
    }
}

} // verus!
