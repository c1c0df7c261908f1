//! Grid coordinates: a signed column/row pair ordered row-first, with
//! component-wise clamping and arithmetic, and a conversion to the
//! unsigned pair a terminal cursor accepts.

use vstd::prelude::*;

verus! {

use core::cmp::Ordering;

/// A 2D grid coordinate. Components may go negative while arithmetic is
/// in flight; they are clamped at the point of use, never rejected.
#[derive(Clone, Copy, Debug, PartialEq, Eq, Structural, Hash)]
pub struct Position {
    pub col: i32,
    pub row: i32,
}

/// The unsigned pair handed to the terminal cursor.
pub type Visible = (u16, u16);

/// One component bounded into `[lo, hi]`, over the mathematical
/// integers.
pub open spec fn spec_clamp_int(v: int, lo: int, hi: int) -> int {
    if v < lo {
        lo
    } else if v > hi {
        hi
    } else {
        v
    }
}

/// One component bounded into `[lo, hi]`.
pub open spec fn spec_clamp_i32(v: i32, lo: i32, hi: i32) -> i32 {
    if v < lo {
        lo
    } else if v > hi {
        hi
    } else {
        v
    }
}

fn clamp_i32(v: i32, lo: i32, hi: i32) -> (r: i32)
    requires
        lo <= hi,
    ensures
        r == spec_clamp_i32(v, lo, hi),
{
    if v < lo {
        lo
    } else if v > hi {
        hi
    } else {
        v
    }
}

/// A signed component floored to zero, then narrowed for the cursor.
pub open spec fn spec_floorcast(signed: i32) -> u16 {
    if signed < 0 {
        0u16
    } else {
        #[verifier::truncate]
        (signed as u16)
    }
}

/// Floors a signed component to zero so off-screen-negative coordinates
/// land on the screen edge rather than wrapping.
pub fn floorcast(signed: i32) -> (r: u16)
    ensures
        r == spec_floorcast(signed),
        signed < 0 ==> r == 0,
        0 <= signed <= u16::MAX ==> r == signed,
{
    if signed < 0 {
        0
    } else {
        #[verifier::truncate]
        (signed as u16)
    }
}

impl Position {
    pub fn new(col: i32, row: i32) -> (p: Self)
        ensures
            p.col == col,
            p.row == row,
    {
        Self { col, row }
    }

    /// Bounds both components independently into `[min, max]`.
    pub fn clamp(&self, min: Position, max: Position) -> (p: Self)
        requires
            min.col <= max.col,
            min.row <= max.row,
        ensures
            p == self.spec_clamp(min, max),
    {
        Self { col: clamp_i32(self.col, min.col, max.col), row: clamp_i32(self.row, min.row, max.row) }
    }

    pub open spec fn spec_clamp(self, min: Position, max: Position) -> Position {
        Position {
            col: spec_clamp_i32(self.col, min.col, max.col),
            row: spec_clamp_i32(self.row, min.row, max.row),
        }
    }

    /// Component-wise sum.
    pub fn add(self, other: Position) -> (p: Self)
        requires
            i32::MIN <= self.col + other.col <= i32::MAX,
            i32::MIN <= self.row + other.row <= i32::MAX,
        ensures
            p.col == self.col + other.col,
            p.row == self.row + other.row,
    {
        Self { col: self.col + other.col, row: self.row + other.row }
    }

    /// Component-wise difference.
    pub fn sub(self, other: Position) -> (p: Self)
        requires
            i32::MIN <= self.col - other.col <= i32::MAX,
            i32::MIN <= self.row - other.row <= i32::MAX,
        ensures
            p.col == self.col - other.col,
            p.row == self.row - other.row,
    {
        Self { col: self.col - other.col, row: self.row - other.row }
    }

    /// Row-first total order: by row, then by column.
    pub open spec fn spec_cmp(self, other: Position) -> Ordering {
        if self.row < other.row {
            Ordering::Less
        } else if self.row > other.row {
            Ordering::Greater
        } else if self.col < other.col {
            Ordering::Less
        } else if self.col > other.col {
            Ordering::Greater
        } else {
            Ordering::Equal
        }
    }

    /// The coordinate as the cursor sees it: each component floored to
    /// zero and narrowed.
    pub fn to_visible(self) -> (v: Visible)
        ensures
            v.0 == spec_floorcast(self.col),
            v.1 == spec_floorcast(self.row),
    {
        (floorcast(self.col), floorcast(self.row))
    }
}

impl PartialOrd for Position {
    fn partial_cmp(&self, other: &Self) -> (r: Option<Ordering>) {
        if self.row < other.row {
            Some(Ordering::Less)
        } else if self.row > other.row {
            Some(Ordering::Greater)
        } else if self.col < other.col {
            Some(Ordering::Less)
        } else if self.col > other.col {
            Some(Ordering::Greater)
        } else {
            Some(Ordering::Equal)
        }
    }
}

impl vstd::std_specs::cmp::PartialOrdSpecImpl for Position {
    open spec fn obeys_partial_cmp_spec() -> bool {
        true
    }

    open spec fn partial_cmp_spec(&self, other: &Self) -> Option<Ordering> {
        Some(self.spec_cmp(*other))
    }
}

impl Default for Position {
    /// The origin.
    fn default() -> (p: Self)
        ensures
            p.col == 0,
            p.row == 0,
    {
        Position { col: 0, row: 0 }
    }
}

impl From<(i32, i32)> for Position {
    fn from(t: (i32, i32)) -> (p: Self) {
        Position { col: t.0, row: t.1 }
    }
}

impl vstd::std_specs::convert::FromSpecImpl<(i32, i32)> for Position {
    open spec fn obeys_from_spec() -> bool {
        true
    }

    open spec fn from_spec(t: (i32, i32)) -> Self {
        Position { col: t.0, row: t.1 }
    }
}

impl From<Visible> for Position {
    fn from(t: Visible) -> (p: Self) {
        Position { col: t.0 as i32, row: t.1 as i32 }
    }
}

impl vstd::std_specs::convert::FromSpecImpl<Visible> for Position {
    open spec fn obeys_from_spec() -> bool {
        true
    }

    open spec fn from_spec(t: Visible) -> Self {
        Position { col: t.0 as i32, row: t.1 as i32 }
    }
}

} // verus!
