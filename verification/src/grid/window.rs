use vstd::prelude::*;

verus! {

pub type WindowId = u64;

/// One of the six geometric tiled regions within a workspace.
#[derive(Debug, Clone, Copy, PartialEq, Eq, Hash, Structural)]
pub enum Slot {
    HalfLeft,
    HalfRight,
    QuarterTL,
    QuarterTR,
    QuarterBL,
    QuarterBR,
}

/// The six slots in reading order (HalfLeft, HalfRight, QuarterTL, QuarterTR,
/// QuarterBL, QuarterBR); this is both the enumeration order and the scan order.
pub open spec fn all_slots() -> Seq<Slot> {
    seq![Slot::HalfLeft, Slot::HalfRight, Slot::QuarterTL, Slot::QuarterTR, Slot::QuarterBL, Slot::QuarterBR]
}

impl Slot {
    /// Position of the slot in reading order.
    pub open spec fn idx(self) -> int {
        match self {
            Slot::HalfLeft => 0,
            Slot::HalfRight => 1,
            Slot::QuarterTL => 2,
            Slot::QuarterTR => 3,
            Slot::QuarterBL => 4,
            Slot::QuarterBR => 5,
        }
    }

    pub open spec fn spec_is_half(self) -> bool {
        self == Slot::HalfLeft || self == Slot::HalfRight
    }

    /// Center of the slot on a 4x4 lattice of the output: the normalized
    /// center (x/4, y/4), so (1, 2) stands for (0.25, 0.5).
    pub open spec fn center4(self) -> (int, int) {
        match self {
            Slot::HalfLeft => (1, 2),
            Slot::HalfRight => (3, 2),
            Slot::QuarterTL => (1, 1),
            Slot::QuarterTR => (3, 1),
            Slot::QuarterBL => (1, 3),
            Slot::QuarterBR => (3, 3),
        }
    }

    pub fn is_half(self) -> (r: bool)
        ensures
            r == self.spec_is_half(),
    {
        matches!(self, Slot::HalfLeft | Slot::HalfRight)
    }

    pub fn is_quarter(self) -> (r: bool)
        ensures
            r == !self.spec_is_half(),
    {
        matches!(self, Slot::QuarterTL | Slot::QuarterTR | Slot::QuarterBL | Slot::QuarterBR)
    }

    /// The slot at position `i` of the reading order.
    pub fn from_index(i: usize) -> (s: Slot)
        requires
            i < 6,
        ensures
            s == all_slots()[i as int],
            s.idx() == i,
    {
        if i == 0 {
            Slot::HalfLeft
        } else if i == 1 {
            Slot::HalfRight
        } else if i == 2 {
            Slot::QuarterTL
        } else if i == 3 {
            Slot::QuarterTR
        } else if i == 4 {
            Slot::QuarterBL
        } else {
            Slot::QuarterBR
        }
    }

    /// Position of the slot in reading order.
    pub fn index(self) -> (i: usize)
        ensures
            i == self.idx(),
            i < 6,
            all_slots()[i as int] == self,
    {
        match self {
            Slot::HalfLeft => 0,
            Slot::HalfRight => 1,
            Slot::QuarterTL => 2,
            Slot::QuarterTR => 3,
            Slot::QuarterBL => 4,
            Slot::QuarterBR => 5,
        }
    }

    /// Slot center on the 4x4 lattice (see `center4`).
    pub fn center_quarters(self) -> (c: (u8, u8))
        ensures
            c.0 == self.center4().0,
            c.1 == self.center4().1,
    {
        match self {
            Slot::HalfLeft => (1, 2),
            Slot::HalfRight => (3, 2),
            Slot::QuarterTL => (1, 1),
            Slot::QuarterTR => (3, 1),
            Slot::QuarterBL => (1, 3),
            Slot::QuarterBR => (3, 3),
        }
    }
}

/// Every slot is at the position of all_slots given by its index.
pub proof fn lemma_slot_index(s: Slot)
    ensures
        0 <= s.idx() < 6,
        all_slots()[s.idx()] == s,
        all_slots().len() == 6,
{
}

/// The slot at position `i` of the reading order has index `i`.
pub proof fn lemma_idx_slot(i: int)
    requires
        0 <= i < 6,
    ensures
        all_slots()[i].idx() == i,
{
    if i == 0 {
    } else if i == 1 {
    } else if i == 2 {
    } else if i == 3 {
    } else if i == 4 {
    } else {
    }
}

/// State determines geometry and Z-order; it is orthogonal to slot membership.
#[derive(Debug, Clone, Copy, PartialEq, Eq, Structural)]
pub enum WindowState {
    Tiled,
    Floating,
    Fullscreen,
    TotalFullscreen,
}

#[derive(Debug, Clone, Copy, Default, PartialEq, Eq, Structural)]
pub struct Rect {
    pub x: i32,
    pub y: i32,
    pub w: i32,
    pub h: i32,
}

impl Rect {
    pub fn new(x: i32, y: i32, w: i32, h: i32) -> (r: Self)
        ensures
            r == (Rect { x, y, w, h }),
    {
        Self { x, y, w, h }
    }
}

} // verus!
