//! Cell rectangles and the one-dimensional placement of fixed-length pieces.

use ratatui::layout::{Constraint, Direction, Flex, Layout};
use vstd::prelude::*;

verus! {

/// A rectangle of terminal cells.
#[derive(Clone, Copy, Debug, PartialEq, Eq, Structural)]
pub struct Rect {
    pub x: u16,
    pub y: u16,
    pub width: u16,
    pub height: u16,
}

/// The smaller of two integers.
pub open spec fn least(a: int, b: int) -> int {
    if a <= b {
        a
    } else {
        b
    }
}

/// The larger of two integers.
pub open spec fn greatest(a: int, b: int) -> int {
    if a >= b {
        a
    } else {
        b
    }
}

/// An integer brought into the range of a cell coordinate from above.
pub open spec fn sat16(a: int) -> int {
    least(a, 65535)
}

/// The difference of two integers, or zero where it would be negative.
pub open spec fn minus(a: int, b: int) -> int {
    if a >= b {
        a - b
    } else {
        0
    }
}

/// The smaller of two cell counts.
pub fn min16(a: u16, b: u16) -> (r: u16)
    ensures
        r == least(a as int, b as int),
{
    if a <= b {
        a
    } else {
        b
    }
}

/// The larger of two cell counts.
pub fn max16(a: u16, b: u16) -> (r: u16)
    ensures
        r == greatest(a as int, b as int),
{
    if a >= b {
        a
    } else {
        b
    }
}

impl Rect {
    /// The first column right of the rectangle, at most the last coordinate.
    pub open spec fn spec_right(self) -> int {
        sat16(self.x + self.width)
    }

    /// The first row below the rectangle, at most the last coordinate.
    pub open spec fn spec_bottom(self) -> int {
        sat16(self.y + self.height)
    }

    /// The far edges are coordinates.
    pub open spec fn valid(self) -> bool {
        self.x + self.width <= 65535 && self.y + self.height <= 65535
    }

    /// Whether the rectangle lies in another.
    pub open spec fn within(self, outer: Rect) -> bool {
        &&& outer.x <= self.x
        &&& outer.y <= self.y
        &&& self.x + self.width <= outer.spec_right()
        &&& self.y + self.height <= outer.spec_bottom()
    }

    /// Whether the rectangle covers no cell.
    pub open spec fn spec_is_empty(self) -> bool {
        self.width == 0 || self.height == 0
    }

    /// Whether the cell at `column` and `row` belongs to the rectangle.
    pub open spec fn covers(self, column: int, row: int) -> bool {
        self.x <= column < self.spec_right() && self.y <= row < self.spec_bottom()
    }

    /// The rectangle at a corner with a size, the size cut down until the far
    /// edges are coordinates.
    pub open spec fn spec_new(x: u16, y: u16, width: u16, height: u16) -> Rect {
        Rect {
            x,
            y,
            width: least(width as int, 65535 - x) as u16,
            height: least(height as int, 65535 - y) as u16,
        }
    }

    pub fn new(x: u16, y: u16, width: u16, height: u16) -> (r: Rect)
        ensures
            r == Rect::spec_new(x, y, width, height),
    {
        Rect { x, y, width: min16(width, u16::MAX - x), height: min16(height, u16::MAX - y) }
    }

    /// A rectangle without cells at the origin.
    pub fn zero() -> (r: Rect)
        ensures
            r == (Rect { x: 0, y: 0, width: 0, height: 0 }),
    {
        Rect { x: 0, y: 0, width: 0, height: 0 }
    }

    pub fn is_empty(&self) -> (r: bool)
        ensures
            r == self.spec_is_empty(),
    {
        self.width == 0 || self.height == 0
    }

    pub fn right(&self) -> (r: u16)
        ensures
            r == self.spec_right(),
    {
        self.x.saturating_add(self.width)
    }

    pub fn bottom(&self) -> (r: u16)
        ensures
            r == self.spec_bottom(),
    {
        self.y.saturating_add(self.height)
    }

    pub fn contains(&self, column: u16, row: u16) -> (r: bool)
        ensures
            r == self.covers(column as int, row as int),
    {
        column >= self.x && column < self.right() && row >= self.y && row < self.bottom()
    }

    /// The smallest rectangle around two.
    pub open spec fn spec_union(self, other: Rect) -> Rect {
        let x = least(self.x as int, other.x as int);
        let y = least(self.y as int, other.y as int);
        Rect {
            x: x as u16,
            y: y as u16,
            width: (greatest(self.spec_right(), other.spec_right()) - x) as u16,
            height: (greatest(self.spec_bottom(), other.spec_bottom()) - y) as u16,
        }
    }

    pub fn union(&self, other: Rect) -> (r: Rect)
        ensures
            r == self.spec_union(other),
    {
        let x: u16 = min16(self.x, other.x);
        let y: u16 = min16(self.y, other.y);
        let right: u16 = max16(self.right(), other.right());
        let bottom: u16 = max16(self.bottom(), other.bottom());
        Rect { x, y, width: right - x, height: bottom - y }
    }
}

/// The direction in which pieces follow one another.
#[derive(Clone, Copy, Debug, PartialEq, Eq, Structural)]
pub enum Axis {
    Horizontal,
    Vertical,
}

/// Where piece `n` of a run starts, counted from the start of the run: the
/// lengths of the pieces before it and a gap after each of them.
pub open spec fn run_offset(lengths: Seq<u16>, gap: int, n: int) -> int
    decreases n,
{
    if n <= 0 {
        0
    } else {
        run_offset(lengths, gap, n - 1) + lengths[n - 1] + gap
    }
}

/// Whether a run of pieces with a gap between neighbours fits a length.
pub open spec fn run_fits(lengths: Seq<u16>, gap: int, room: int) -> bool {
    lengths.len() == 0 || run_offset(lengths, gap, lengths.len() as int) - gap <= room
}

/// What a placement of pieces along a horizontal row always satisfies: one
/// rectangle for each piece, in the row, and laid end to end with the gap
/// between neighbours where the whole run fits.
pub open spec fn placed_across(row: Rect, lengths: Seq<u16>, gap: int, rects: Seq<Rect>) -> bool {
    &&& rects.len() == lengths.len()
    &&& forall|i: int|
        0 <= i < rects.len() ==> {
            &&& (#[trigger] rects[i]).y == row.y
            &&& rects[i].height == row.height
            &&& row.x <= rects[i].x
            &&& rects[i].x + rects[i].width <= row.spec_right()
        }
    &&& run_fits(lengths, gap, row.spec_right() - row.x) ==> forall|i: int|
        0 <= i < rects.len() ==> {
            &&& (#[trigger] rects[i]).x == row.x + run_offset(lengths, gap, i)
            &&& rects[i].width == lengths[i]
        }
}

/// What a placement of pieces down a vertical column always satisfies.
pub open spec fn placed_down(column: Rect, lengths: Seq<u16>, gap: int, rects: Seq<Rect>) -> bool {
    &&& rects.len() == lengths.len()
    &&& forall|i: int|
        0 <= i < rects.len() ==> {
            &&& (#[trigger] rects[i]).x == column.x
            &&& rects[i].width == column.width
            &&& column.y <= rects[i].y
            &&& rects[i].y + rects[i].height <= column.spec_bottom()
        }
    &&& run_fits(lengths, gap, column.spec_bottom() - column.y) ==> forall|i: int|
        0 <= i < rects.len() ==> {
            &&& (#[trigger] rects[i]).y == column.y + run_offset(lengths, gap, i)
            &&& rects[i].height == lengths[i]
        }
}

/// Places fixed lengths in an area by `ratatui::layout::Layout::split`, start
/// aligned, with `gap` cells between neighbours.
///
/// Trusted: one rectangle comes back for each length; across the axis it is the
/// area's own extent, along the axis it lies in the area; and where the lengths
/// and gaps fit, each piece has its length and follows its neighbour after the
/// gap. Where they do not fit, how the solver shrinks them is left open.
#[verifier::external_body]
pub(crate) fn split_lengths(area: Rect, axis: Axis, lengths: &[u16], gap: u16) -> (r: Vec<Rect>)
    requires
        gap <= 16,
        lengths@.len() > 0,
    ensures
        axis == Axis::Horizontal ==> placed_across(area, lengths@, gap as int, r@),
        axis == Axis::Vertical ==> placed_down(area, lengths@, gap as int, r@),
{
    let direction = match axis {
        Axis::Horizontal => Direction::Horizontal,
        Axis::Vertical => Direction::Vertical,
    };
    let constraints: Vec<Constraint> = lengths.iter().map(|w| Constraint::Length(*w)).collect();
    let whole = ratatui::layout::Rect { x: area.x, y: area.y, width: area.width, height: area.height };
    Layout::new(direction, constraints)
        .spacing(gap)
        .flex(Flex::Start)
        .split(whole)
        .iter()
        .map(|p| Rect { x: p.x, y: p.y, width: p.width, height: p.height })
        .collect()
}

/// The rectangle around two covers what either does, and no side of it can be
/// moved in.
pub proof fn union_is_the_smallest(a: Rect, b: Rect, column: int, row: int)
    requires
        a.valid() && b.valid(),
        !a.spec_is_empty() && !b.spec_is_empty(),
    ensures
        a.covers(column, row) || b.covers(column, row) ==> a.spec_union(b).covers(column, row),
        a.spec_union(b) == b.spec_union(a),
        a.within(a.spec_union(b)),
        a.spec_union(b).x == a.x || a.spec_union(b).x == b.x,
        a.spec_union(b).y == a.y || a.spec_union(b).y == b.y,
        a.spec_union(b).x + a.spec_union(b).width == a.x + a.width || a.spec_union(b).x
            + a.spec_union(b).width == b.x + b.width,
        a.spec_union(b).y + a.spec_union(b).height == a.y + a.height || a.spec_union(b).y
            + a.spec_union(b).height == b.y + b.height,
{
}

} // verus!
