use vstd::prelude::*;

use super::window::{all_slots, Slot, WindowId, WindowState};
use crate::seqs::{remove_id, retain_not};

verus! {

/// A single (col, row) cell on the grid.
pub struct Workspace {
    pub col: u8,
    pub row: u8,
    pub name: Option<String>,
    /// Six tiled slot stacks, indexed by slot position in reading order;
    /// index 0 of each stack is its top (visible) window.
    pub slots: Vec<Vec<WindowId>>,
    /// Floating windows in Z order (bottom to top within the floating layer).
    pub floating: Vec<WindowId>,
    /// Fullscreen promotion stack; index 0 = top.
    pub fullscreen_stack: Vec<WindowId>,
    /// TotalFullscreen promotion stack; index 0 = top.
    pub total_fullscreen_stack: Vec<WindowId>,
    /// Focus history, most recent first.
    pub focus_history: Vec<WindowId>,
}

/// The one-element sequence holding `s`'s first element, or the empty one.
pub open spec fn head_seq(s: Seq<WindowId>) -> Seq<WindowId> {
    if s.len() > 0 {
        seq![s[0]]
    } else {
        Seq::empty()
    }
}

/// The one-element sequence holding `s` when `p(s)`, else the empty one.
pub open spec fn slot_if(p: spec_fn(Slot) -> bool, s: Slot) -> Seq<Slot> {
    if p(s) {
        seq![s]
    } else {
        Seq::empty()
    }
}

/// The slots among the first `k` in reading order that satisfy `p`, in order.
pub open spec fn slots_upto(p: spec_fn(Slot) -> bool, k: int) -> Seq<Slot>
    decreases k,
{
    if k <= 0 {
        Seq::empty()
    } else {
        slots_upto(p, k - 1) + slot_if(p, all_slots()[k - 1])
    }
}

/// The slots, in reading order, that satisfy `p`.
pub open spec fn slots_where(p: spec_fn(Slot) -> bool) -> Seq<Slot> {
    slots_upto(p, 6)
}

/// `slots_upto(p, k)` holds exactly the slots of index below `k` that
/// satisfy `p`, in increasing index order.
pub proof fn lemma_slots_upto(p: spec_fn(Slot) -> bool, k: int)
    requires
        0 <= k <= 6,
    ensures
        forall|s: Slot| #[trigger] slots_upto(p, k).contains(s) <==> (p(s) && s.idx() < k),
        forall|i: int, j: int| 0 <= i < j < slots_upto(p, k).len()
            ==> slots_upto(p, k)[i].idx() < slots_upto(p, k)[j].idx(),
        forall|i: int| 0 <= i < slots_upto(p, k).len() ==> p(#[trigger] slots_upto(p, k)[i]) && slots_upto(p, k)[i].idx() < k,
        slots_upto(p, k).len() <= k,
    decreases k,
{
    if k > 0 {
        lemma_slots_upto(p, k - 1);
        let prev = slots_upto(p, k - 1);
        let t = all_slots()[k - 1];
        let cur = slots_upto(p, k);
        assert(t.idx() == k - 1);
        assert forall|s: Slot| #[trigger] cur.contains(s) <==> (p(s) && s.idx() < k) by {
            if cur.contains(s) {
                let i = choose|i: int| 0 <= i < cur.len() && cur[i] == s;
                if i < prev.len() {
                    assert(prev[i] == s);
                    assert(prev.contains(s));
                }
            }
            if p(s) && s.idx() < k {
                if s.idx() < k - 1 {
                    assert(prev.contains(s));
                    let i = choose|i: int| 0 <= i < prev.len() && prev[i] == s;
                    assert(cur[i] == s);
                } else {
                    assert(s == t);
                    assert(cur[prev.len() as int] == s);
                }
            }
        }
    }
}

/// `slots_where(p)` holds exactly the slots satisfying `p`, each once, in
/// reading order.
pub proof fn lemma_slots_where(p: spec_fn(Slot) -> bool)
    ensures
        forall|s: Slot| #[trigger] slots_where(p).contains(s) <==> p(s),
        slots_where(p).no_duplicates(),
        forall|i: int, j: int| 0 <= i < j < slots_where(p).len()
            ==> slots_where(p)[i].idx() < slots_where(p)[j].idx(),
        slots_where(p).len() == 0 <==> forall|s: Slot| !#[trigger] p(s),
        forall|i: int| 0 <= i < slots_where(p).len() ==> p(#[trigger] slots_where(p)[i]),
{
    lemma_slots_upto(p, 6);
    let r = slots_where(p);
    assert forall|s: Slot| #[trigger] r.contains(s) <==> p(s) by {
        assert(s.idx() < 6);
    }
    if r.len() != 0 {
        assert(r.contains(r[0]));
    } else {
        assert forall|s: Slot| !#[trigger] p(s) by {
            if p(s) {
                assert(r.contains(s));
            }
        }
    }
}

impl Workspace {
    /// The workspace holds exactly six slot stacks.
    pub open spec fn wf(&self) -> bool {
        self.slots@.len() == 6
    }

    /// The stack of `slot` (index 0 = top).
    pub open spec fn stack(&self, slot: Slot) -> Seq<WindowId> {
        self.slots@[slot.idx()]@
    }

    pub open spec fn occupied(&self, slot: Slot) -> bool {
        self.stack(slot).len() > 0
    }

    pub open spec fn top(&self, slot: Slot) -> Option<WindowId> {
        if self.occupied(slot) {
            Some(self.stack(slot)[0])
        } else {
            None
        }
    }

    /// Number of tiled windows: the sum of the six stack sizes.
    pub open spec fn tiled_len(&self) -> int {
        (self.slots@[0]@.len() + self.slots@[1]@.len() + self.slots@[2]@.len()
            + self.slots@[3]@.len() + self.slots@[4]@.len() + self.slots@[5]@.len()) as int
    }

    /// Number of windows over all lists of the workspace.
    pub open spec fn total_len(&self) -> int {
        self.tiled_len() + self.floating@.len() + self.fullscreen_stack@.len()
            + self.total_fullscreen_stack@.len()
    }

    /// Occupied slots in reading order.
    pub open spec fn occupied_seq(&self) -> Seq<Slot> {
        slots_where(|s: Slot| self.occupied(s))
    }

    /// Bottom-to-top render order: the six stack tops in reading order, the
    /// fullscreen top, the total-fullscreen top, then the floating layer.
    pub open spec fn z_order(&self) -> Seq<WindowId> {
        head_seq(self.stack(Slot::HalfLeft)) + head_seq(self.stack(Slot::HalfRight))
            + head_seq(self.stack(Slot::QuarterTL)) + head_seq(self.stack(Slot::QuarterTR))
            + head_seq(self.stack(Slot::QuarterBL)) + head_seq(self.stack(Slot::QuarterBR))
            + head_seq(self.fullscreen_stack@) + head_seq(self.total_fullscreen_stack@)
            + self.floating@
    }

    /// Every list of `self` equals the same list of `old` except the stack of `slot`.
    pub open spec fn same_except_stack(&self, old: &Workspace, slot: Slot) -> bool {
        &&& self.col == old.col
        &&& self.row == old.row
        &&& self.name == old.name
        &&& self.slots@.len() == old.slots@.len()
        &&& forall|s: Slot| s != slot ==> #[trigger] self.stack(s) == old.stack(s)
        &&& self.floating@ == old.floating@
        &&& self.fullscreen_stack@ == old.fullscreen_stack@
        &&& self.total_fullscreen_stack@ == old.total_fullscreen_stack@
        &&& self.focus_history@ == old.focus_history@
    }

    /// `self` is `old` with `id` moved to the front of the focus history.
    pub open spec fn focus_recorded(&self, old: &Workspace, id: WindowId) -> bool {
        &&& self.focus_history@ == seq![id] + remove_id(old.focus_history@, id)
        &&& self.slots@ == old.slots@
        &&& self.floating@ == old.floating@
        &&& self.fullscreen_stack@ == old.fullscreen_stack@
        &&& self.total_fullscreen_stack@ == old.total_fullscreen_stack@
        &&& self.col == old.col
        &&& self.row == old.row
        &&& self.name == old.name
    }

    pub fn new(col: u8, row: u8) -> (ws: Self)
        ensures
            ws.wf(),
            ws.col == col,
            ws.row == row,
            ws.name is None,
            forall|s: Slot| #[trigger] ws.stack(s).len() == 0,
            ws.floating@.len() == 0,
            ws.fullscreen_stack@.len() == 0,
            ws.total_fullscreen_stack@.len() == 0,
            ws.focus_history@.len() == 0,
    {
        let mut slots: Vec<Vec<WindowId>> = Vec::new();
        let mut i: usize = 0;
        while i < 6
            invariant
                i <= 6,
                slots@.len() == i,
                forall|k: int| 0 <= k < i ==> #[trigger] slots@[k]@.len() == 0,
            decreases 6 - i,
        {
            slots.push(Vec::new());
            i += 1;
        }
        Self {
            col,
            row,
            name: None,
            slots,
            floating: Vec::new(),
            fullscreen_stack: Vec::new(),
            total_fullscreen_stack: Vec::new(),
            focus_history: Vec::new(),
        }
    }

    // ── Counts ─────────────────────────────────────────────────────────────

    pub fn tiled_count(&self) -> (n: usize)
        requires
            self.wf(),
            self.tiled_len() <= usize::MAX,
        ensures
            n == self.tiled_len(),
    {
        self.slots[0].len() + self.slots[1].len() + self.slots[2].len() + self.slots[3].len()
            + self.slots[4].len() + self.slots[5].len()
    }

    pub fn window_count(&self) -> (n: usize)
        requires
            self.wf(),
            self.total_len() <= usize::MAX,
        ensures
            n == self.total_len(),
    {
        self.tiled_count() + self.floating.len() + self.fullscreen_stack.len()
            + self.total_fullscreen_stack.len()
    }

    pub fn is_empty(&self) -> (r: bool)
        requires
            self.wf(),
        ensures
            r == (self.total_len() == 0),
    {
        self.slots[0].len() == 0 && self.slots[1].len() == 0 && self.slots[2].len() == 0
            && self.slots[3].len() == 0 && self.slots[4].len() == 0 && self.slots[5].len() == 0
            && self.floating.len() == 0 && self.fullscreen_stack.len() == 0
            && self.total_fullscreen_stack.len() == 0
    }

    pub fn has_total_fullscreen(&self) -> (r: bool)
        ensures
            r == (self.total_fullscreen_stack@.len() > 0),
    {
        self.total_fullscreen_stack.len() != 0
    }

    /// True when there is exactly one (tiled) window and nothing else; smart
    /// gaps then collapse.
    pub fn should_use_smart_gaps(&self) -> (r: bool)
        requires
            self.wf(),
        ensures
            r == (self.tiled_len() == 1 && self.floating@.len() == 0
                && self.fullscreen_stack@.len() == 0 && self.total_fullscreen_stack@.len() == 0),
    {
        self.has_single_tiled() && self.floating.len() == 0 && self.fullscreen_stack.len() == 0
            && self.total_fullscreen_stack.len() == 0
    }

    /// Whether exactly one window is tiled (summed without overflow).
    pub fn has_single_tiled(&self) -> (r: bool)
        requires
            self.wf(),
        ensures
            r == (self.tiled_len() == 1),
    {
        let mut total: usize = 0;
        let mut i: usize = 0;
        while i < 6
            invariant
                i <= 6,
                self.wf(),
                total <= 2,
                total == (if self.partial_tiled(i as int) >= 2 { 2 } else { self.partial_tiled(i as int) }),
            decreases 6 - i,
        {
            let n = self.slots[i].len();
            if n >= 2 {
                total = 2;
            } else {
                total = total + n;
                if total > 2 {
                    total = 2;
                }
            }
            i += 1;
        }
        assert(self.partial_tiled(6) == self.tiled_len()) by {
            reveal_with_fuel(Workspace::partial_tiled, 7);
        }
        total == 1
    }

    /// Sum of the sizes of the first `k` stacks.
    pub open spec fn partial_tiled(&self, k: int) -> int
        decreases k,
    {
        if k <= 0 {
            0
        } else {
            self.partial_tiled(k - 1) + self.slots@[k - 1]@.len()
        }
    }

    /// True when exactly one Fullscreen-promoted window exists and nothing else.
    pub fn has_only_fullscreen(&self) -> (r: bool)
        requires
            self.wf(),
        ensures
            r == (self.fullscreen_stack@.len() == 1 && self.total_fullscreen_stack@.len() == 0
                && (forall|s: Slot| #[trigger] self.stack(s).len() == 0)
                && self.floating@.len() == 0),
    {
        let r = self.fullscreen_stack.len() == 1 && self.total_fullscreen_stack.len() == 0
            && self.slots[0].len() == 0 && self.slots[1].len() == 0 && self.slots[2].len() == 0
            && self.slots[3].len() == 0 && self.slots[4].len() == 0 && self.slots[5].len() == 0
            && self.floating.len() == 0;
        proof {
            if !r && self.fullscreen_stack@.len() == 1 && self.total_fullscreen_stack@.len() == 0
                && self.floating@.len() == 0 {
                if self.slots@[0]@.len() != 0 { assert(self.stack(Slot::HalfLeft).len() != 0); }
                if self.slots@[1]@.len() != 0 { assert(self.stack(Slot::HalfRight).len() != 0); }
                if self.slots@[2]@.len() != 0 { assert(self.stack(Slot::QuarterTL).len() != 0); }
                if self.slots@[3]@.len() != 0 { assert(self.stack(Slot::QuarterTR).len() != 0); }
                if self.slots@[4]@.len() != 0 { assert(self.stack(Slot::QuarterBL).len() != 0); }
                if self.slots@[5]@.len() != 0 { assert(self.stack(Slot::QuarterBR).len() != 0); }
            }
        }
        r
    }

    // ── Slot queries ───────────────────────────────────────────────────────

    pub fn slot_top(&self, slot: Slot) -> (r: Option<WindowId>)
        requires
            self.wf(),
        ensures
            r == self.top(slot),
    {
        let i = slot.index();
        if self.slots[i].len() > 0 {
            Some(self.slots[i][0])
        } else {
            None
        }
    }

    pub fn slot_stack(&self, slot: Slot) -> (r: &[WindowId])
        requires
            self.wf(),
        ensures
            r@ == self.stack(slot),
    {
        self.slots[slot.index()].as_slice()
    }

    pub fn slot_stack_mut(&mut self, slot: Slot) -> (r: &mut Vec<WindowId>)
        requires
            old(self).wf(),
        ensures
            r@ == old(self).stack(slot),
            final(self).wf(),
            final(self).stack(slot) == final(r)@,
            final(self).same_except_stack(old(self), slot),
    {
        let i = slot.index();
        &mut self.slots[i]
    }

    /// Occupied slots (those with at least one window), in reading order.
    pub fn occupied_slots(&self) -> (r: Vec<Slot>)
        requires
            self.wf(),
        ensures
            r@ == self.occupied_seq(),
    {
        let mut r: Vec<Slot> = Vec::new();
        let ghost p = |s: Slot| self.occupied(s);
        let mut i: usize = 0;
        while i < 6
            invariant
                i <= 6,
                self.wf(),
                p == (|s: Slot| self.occupied(s)),
                r@ == slots_upto(p, i as int),
            decreases 6 - i,
        {
            let slot = Slot::from_index(i);
            if self.slots[i].len() > 0 {
                r.push(slot);
            }
            assert(r@ =~= slots_upto(p, i as int + 1));
            i += 1;
        }
        assert(r@ =~= self.occupied_seq());
        r
    }

    // ── Mutations ──────────────────────────────────────────────────────────

    pub fn push_to_slot_top(&mut self, slot: Slot, id: WindowId)
        requires
            old(self).wf(),
        ensures
            final(self).wf(),
            final(self).stack(slot) == seq![id] + old(self).stack(slot),
            final(self).same_except_stack(old(self), slot),
    {
        let i = slot.index();
        self.slots[i].insert(0, id);
        proof {
            assert(self.slots@[i as int]@ =~= seq![id] + old(self).slots@[i as int]@);
        }
        self.reindex_slot(slot);
    }

    pub fn add_floating(&mut self, id: WindowId)
        ensures
            final(self).floating@ == old(self).floating@.push(id),
            final(self).slots@ == old(self).slots@,
            final(self).fullscreen_stack@ == old(self).fullscreen_stack@,
            final(self).total_fullscreen_stack@ == old(self).total_fullscreen_stack@,
            final(self).focus_history@ == old(self).focus_history@,
            final(self).col == old(self).col,
            final(self).row == old(self).row,
            final(self).name == old(self).name,
    {
        self.floating.push(id);
    }

    pub fn push_to_promotion_top(&mut self, state: WindowState, id: WindowId)
        ensures
            final(self).fullscreen_stack@ == (if state == WindowState::Fullscreen {
                seq![id] + old(self).fullscreen_stack@
            } else {
                old(self).fullscreen_stack@
            }),
            final(self).total_fullscreen_stack@ == (if state == WindowState::TotalFullscreen {
                seq![id] + old(self).total_fullscreen_stack@
            } else {
                old(self).total_fullscreen_stack@
            }),
            final(self).slots@ == old(self).slots@,
            final(self).floating@ == old(self).floating@,
            final(self).focus_history@ == old(self).focus_history@,
            final(self).col == old(self).col,
            final(self).row == old(self).row,
            final(self).name == old(self).name,
    {
        match state {
            WindowState::Fullscreen => {
                self.fullscreen_stack.insert(0, id);
                assert(self.fullscreen_stack@ =~= seq![id] + old(self).fullscreen_stack@);
            },
            WindowState::TotalFullscreen => {
                self.total_fullscreen_stack.insert(0, id);
                assert(self.total_fullscreen_stack@ =~= seq![id] + old(self).total_fullscreen_stack@);
            },
            _ => {},
        }
    }

    /// Remove a window from every list of this workspace, focus history included.
    pub fn remove_window(&mut self, id: WindowId)
        requires
            old(self).wf(),
        ensures
            final(self).wf(),
            forall|s: Slot| #[trigger] final(self).stack(s) == remove_id(old(self).stack(s), id),
            final(self).floating@ == remove_id(old(self).floating@, id),
            final(self).fullscreen_stack@ == remove_id(old(self).fullscreen_stack@, id),
            final(self).total_fullscreen_stack@ == remove_id(old(self).total_fullscreen_stack@, id),
            final(self).focus_history@ == remove_id(old(self).focus_history@, id),
            final(self).col == old(self).col,
            final(self).row == old(self).row,
            final(self).name == old(self).name,
    {
        self.detach(id);
        let ghost mid = *self;
        retain_not(&mut self.focus_history, id);
        assert forall|s: Slot| #[trigger] self.stack(s) == remove_id(old(self).stack(s), id) by {
            assert(mid.stack(s) == remove_id(old(self).stack(s), id));
            assert(self.stack(s) == mid.stack(s));
        }
    }

    /// Remove a window from the slot, floating and promotion lists, leaving
    /// the focus history as it is.
    pub fn detach(&mut self, id: WindowId)
        requires
            old(self).wf(),
        ensures
            final(self).wf(),
            forall|s: Slot| #[trigger] final(self).stack(s) == remove_id(old(self).stack(s), id),
            final(self).floating@ == remove_id(old(self).floating@, id),
            final(self).fullscreen_stack@ == remove_id(old(self).fullscreen_stack@, id),
            final(self).total_fullscreen_stack@ == remove_id(old(self).total_fullscreen_stack@, id),
            final(self).focus_history@ == old(self).focus_history@,
            final(self).col == old(self).col,
            final(self).row == old(self).row,
            final(self).name == old(self).name,
    {
        retain_not(&mut self.slots[0], id);
        retain_not(&mut self.slots[1], id);
        retain_not(&mut self.slots[2], id);
        retain_not(&mut self.slots[3], id);
        retain_not(&mut self.slots[4], id);
        retain_not(&mut self.slots[5], id);
        retain_not(&mut self.floating, id);
        retain_not(&mut self.fullscreen_stack, id);
        retain_not(&mut self.total_fullscreen_stack, id);
        assert forall|s: Slot| #[trigger] self.stack(s) == remove_id(old(self).stack(s), id) by {
            assert(0 <= s.idx() < 6);
        }
    }

    /// Take `id` off the fullscreen stack and put it on top of `slot`'s stack.
    pub fn demote_fullscreen(&mut self, slot: Slot, id: WindowId)
        requires
            old(self).wf(),
        ensures
            final(self).wf(),
            final(self).fullscreen_stack@ == remove_id(old(self).fullscreen_stack@, id),
            final(self).stack(slot) == seq![id] + old(self).stack(slot),
            forall|s: Slot| s != slot ==> #[trigger] final(self).stack(s) == old(self).stack(s),
            final(self).floating@ == old(self).floating@,
            final(self).total_fullscreen_stack@ == old(self).total_fullscreen_stack@,
            final(self).focus_history@ == old(self).focus_history@,
            final(self).col == old(self).col,
            final(self).row == old(self).row,
            final(self).name == old(self).name,
    {
        retain_not(&mut self.fullscreen_stack, id);
        let ghost mid = *self;
        self.push_to_slot_top(slot, id);
        assert forall|s: Slot| s != slot implies #[trigger] self.stack(s) == old(self).stack(s) by {
            assert(self.stack(s) == mid.stack(s));
        }
    }

    /// Take `id` off the total-fullscreen stack and put it on top of the
    /// fullscreen stack.
    pub fn step_down_total(&mut self, id: WindowId)
        requires
            old(self).wf(),
        ensures
            final(self).wf(),
            final(self).total_fullscreen_stack@ == remove_id(old(self).total_fullscreen_stack@, id),
            final(self).fullscreen_stack@ == seq![id] + old(self).fullscreen_stack@,
            final(self).slots@ == old(self).slots@,
            final(self).floating@ == old(self).floating@,
            final(self).focus_history@ == old(self).focus_history@,
            final(self).col == old(self).col,
            final(self).row == old(self).row,
            final(self).name == old(self).name,
    {
        retain_not(&mut self.total_fullscreen_stack, id);
        self.fullscreen_stack.insert(0, id);
        assert(self.fullscreen_stack@ =~= seq![id] + old(self).fullscreen_stack@);
    }

    /// Take `id` off the total-fullscreen stack and put it on top of `slot`'s stack.
    pub fn demote_total(&mut self, slot: Slot, id: WindowId)
        requires
            old(self).wf(),
        ensures
            final(self).wf(),
            final(self).total_fullscreen_stack@ == remove_id(old(self).total_fullscreen_stack@, id),
            final(self).stack(slot) == seq![id] + old(self).stack(slot),
            forall|s: Slot| s != slot ==> #[trigger] final(self).stack(s) == old(self).stack(s),
            final(self).floating@ == old(self).floating@,
            final(self).fullscreen_stack@ == old(self).fullscreen_stack@,
            final(self).focus_history@ == old(self).focus_history@,
            final(self).col == old(self).col,
            final(self).row == old(self).row,
            final(self).name == old(self).name,
    {
        retain_not(&mut self.total_fullscreen_stack, id);
        let ghost mid = *self;
        self.push_to_slot_top(slot, id);
        assert forall|s: Slot| s != slot implies #[trigger] self.stack(s) == old(self).stack(s) by {
            assert(self.stack(s) == mid.stack(s));
        }
    }

    /// Take `id` off the floating layer and put it on top of `slot`'s stack.
    pub fn unfloat(&mut self, slot: Slot, id: WindowId)
        requires
            old(self).wf(),
        ensures
            final(self).wf(),
            final(self).floating@ == remove_id(old(self).floating@, id),
            final(self).stack(slot) == seq![id] + old(self).stack(slot),
            forall|s: Slot| s != slot ==> #[trigger] final(self).stack(s) == old(self).stack(s),
            final(self).fullscreen_stack@ == old(self).fullscreen_stack@,
            final(self).total_fullscreen_stack@ == old(self).total_fullscreen_stack@,
            final(self).focus_history@ == old(self).focus_history@,
            final(self).col == old(self).col,
            final(self).row == old(self).row,
            final(self).name == old(self).name,
    {
        retain_not(&mut self.floating, id);
        let ghost mid = *self;
        self.push_to_slot_top(slot, id);
        assert forall|s: Slot| s != slot implies #[trigger] self.stack(s) == old(self).stack(s) by {
            assert(self.stack(s) == mid.stack(s));
        }
    }

    /// Take `id` off every list (focus history excepted) and put it on top of
    /// the promotion stack of `state`, or at the top of the floating layer
    /// when `state` is Floating.
    pub fn reattach(&mut self, state: WindowState, id: WindowId)
        requires
            old(self).wf(),
            state != WindowState::Tiled,
        ensures
            final(self).wf(),
            forall|s: Slot| #[trigger] final(self).stack(s) == remove_id(old(self).stack(s), id),
            final(self).floating@ == (if state == WindowState::Floating {
                remove_id(old(self).floating@, id).push(id)
            } else {
                remove_id(old(self).floating@, id)
            }),
            final(self).fullscreen_stack@ == (if state == WindowState::Fullscreen {
                seq![id] + remove_id(old(self).fullscreen_stack@, id)
            } else {
                remove_id(old(self).fullscreen_stack@, id)
            }),
            final(self).total_fullscreen_stack@ == (if state == WindowState::TotalFullscreen {
                seq![id] + remove_id(old(self).total_fullscreen_stack@, id)
            } else {
                remove_id(old(self).total_fullscreen_stack@, id)
            }),
            final(self).focus_history@ == old(self).focus_history@,
            final(self).col == old(self).col,
            final(self).row == old(self).row,
            final(self).name == old(self).name,
    {
        self.detach(id);
        let ghost mid = *self;
        if state == WindowState::Floating {
            self.add_floating(id);
        } else {
            self.push_to_promotion_top(state, id);
        }
        assert forall|s: Slot| #[trigger] self.stack(s) == remove_id(old(self).stack(s), id) by {
            assert(self.stack(s) == mid.stack(s));
        }
    }

    /// Take `id` off the list of `from` and put it on top of `slot`'s stack.
    pub fn retile_from(&mut self, from: WindowState, slot: Slot, id: WindowId)
        requires
            old(self).wf(),
            from != WindowState::Tiled,
        ensures
            final(self).wf(),
            final(self).stack(slot) == seq![id] + old(self).stack(slot),
            forall|s: Slot| s != slot ==> #[trigger] final(self).stack(s) == old(self).stack(s),
            final(self).floating@ == (if from == WindowState::Floating { remove_id(old(self).floating@, id) } else { old(self).floating@ }),
            final(self).fullscreen_stack@ == (if from == WindowState::Fullscreen {
                remove_id(old(self).fullscreen_stack@, id)
            } else {
                old(self).fullscreen_stack@
            }),
            final(self).total_fullscreen_stack@ == (if from == WindowState::TotalFullscreen {
                remove_id(old(self).total_fullscreen_stack@, id)
            } else {
                old(self).total_fullscreen_stack@
            }),
            final(self).focus_history@ == old(self).focus_history@,
            final(self).col == old(self).col,
            final(self).row == old(self).row,
            final(self).name == old(self).name,
    {
        match from {
            WindowState::Fullscreen => self.demote_fullscreen(slot, id),
            WindowState::TotalFullscreen => self.demote_total(slot, id),
            _ => self.unfloat(slot, id),
        }
    }

    /// Replace the stack of `slot` by `v`.
    pub fn replace_stack(&mut self, slot: Slot, v: Vec<WindowId>)
        requires
            old(self).wf(),
        ensures
            final(self).wf(),
            final(self).stack(slot) == v@,
            final(self).same_except_stack(old(self), slot),
    {
        let i = slot.index();
        self.slots.set(i, v);
    }

    pub fn record_focus(&mut self, id: WindowId)
        ensures
            final(self).focus_history@ == seq![id] + remove_id(old(self).focus_history@, id),
            final(self).slots@ == old(self).slots@,
            final(self).floating@ == old(self).floating@,
            final(self).fullscreen_stack@ == old(self).fullscreen_stack@,
            final(self).total_fullscreen_stack@ == old(self).total_fullscreen_stack@,
            final(self).col == old(self).col,
            final(self).row == old(self).row,
            final(self).name == old(self).name,
    {
        retain_not(&mut self.focus_history, id);
        self.focus_history.insert(0, id);
        assert(self.focus_history@ =~= seq![id] + remove_id(old(self).focus_history@, id));
    }

    /// The (id, position) pairs of the stack of `slot`.
    pub fn reindex_slot(&mut self, slot: Slot) -> (r: Vec<(WindowId, u32)>)
        requires
            old(self).wf(),
        ensures
            *final(self) == *old(self),
            r@.len() == old(self).stack(slot).len(),
            forall|i: int| 0 <= i < r@.len() ==> #[trigger] r@[i] == (old(self).stack(slot)[i], i as u32),
    {
        let stack = &self.slots[slot.index()];
        let mut r: Vec<(WindowId, u32)> = Vec::new();
        let mut i: usize = 0;
        while i < stack.len()
            invariant
                i <= stack@.len(),
                r@.len() == i,
                forall|k: int| 0 <= k < i ==> #[trigger] r@[k] == (stack@[k], k as u32),
            decreases stack.len() - i,
        {
            r.push((stack[i], i as u32));
            i += 1;
        }
        r
    }

    // ── Z-order ────────────────────────────────────────────────────────────

    /// All visible windows in bottom-to-top Z order for rendering.
    pub fn windows_in_z_order(&self) -> (r: Vec<WindowId>)
        requires
            self.wf(),
        ensures
            r@ == self.z_order(),
    {
        let mut r: Vec<WindowId> = Vec::new();
        let mut i: usize = 0;
        while i < 6
            invariant
                i <= 6,
                self.wf(),
                r@ == self.tops_upto(i as int),
            decreases 6 - i,
        {
            let slot = Slot::from_index(i);
            if let Some(top) = self.slot_top(slot) {
                r.push(top);
            }
            assert(r@ =~= self.tops_upto(i as int + 1));
            i += 1;
        }
        if self.fullscreen_stack.len() > 0 {
            r.push(self.fullscreen_stack[0]);
        }
        if self.total_fullscreen_stack.len() > 0 {
            r.push(self.total_fullscreen_stack[0]);
        }
        let mut j: usize = 0;
        let ghost mid = r@;
        while j < self.floating.len()
            invariant
                j <= self.floating@.len(),
                r@ == mid + self.floating@.take(j as int),
            decreases self.floating.len() - j,
        {
            r.push(self.floating[j]);
            assert(r@ =~= mid + self.floating@.take(j as int + 1));
            j += 1;
        }
        proof {
            assert(self.floating@.take(self.floating@.len() as int) =~= self.floating@);
            reveal_with_fuel(Workspace::tops_upto, 7);
            assert(self.tops_upto(6) =~= head_seq(self.stack(Slot::HalfLeft)) + head_seq(self.stack(Slot::HalfRight))
                + head_seq(self.stack(Slot::QuarterTL)) + head_seq(self.stack(Slot::QuarterTR))
                + head_seq(self.stack(Slot::QuarterBL)) + head_seq(self.stack(Slot::QuarterBR)));
            assert(r@ =~= self.z_order());
        }
        r
    }

    /// The stack tops of the first `k` slots in reading order.
    pub open spec fn tops_upto(&self, k: int) -> Seq<WindowId>
        decreases k,
    {
        if k <= 0 {
            Seq::empty()
        } else {
            self.tops_upto(k - 1) + head_seq(self.stack(all_slots()[k - 1]))
        }
    }
}

} // verus!
