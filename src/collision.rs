//! Border and self-intersection checks on the head's cell.

use vstd::prelude::*;
use crate::grid::Position;

verus! {

/// The play field: the cells from `min` to `max`, both corners included.
#[derive(Clone, Copy, Debug, PartialEq, Eq, Structural)]
pub struct Field {
    pub min: Position,
    pub max: Position,
}

/// The cell lies within the field.
pub open spec fn inside(p: Position, f: Field) -> bool {
    &&& f.min.x <= p.x <= f.max.x
    &&& f.min.y <= p.y <= f.max.y
}

/// Lowest column and row of the standard field.
pub const FIELD_FROM: i32 = -5;

/// Highest column and row of the standard field.
pub const FIELD_TO: i32 = 6;

/// A field that is not empty in either axis and leaves a cell of room on
/// every side within the coordinate type, for a head that steps out of it.
pub open spec fn field_ok(f: Field) -> bool {
    &&& i32::MIN < f.min.x < f.max.x < i32::MAX
    &&& i32::MIN < f.min.y < f.max.y < i32::MAX
}

/// Number of columns of the ring around the field, walls included.
pub open spec fn ring_width(f: Field) -> int {
    f.max.x - f.min.x + 3
}

/// Number of rows of the ring around the field, walls included.
pub open spec fn ring_height(f: Field) -> int {
    f.max.y - f.min.y + 3
}

/// The `j`-th wall cell around the field: first the top and bottom walls,
/// column by column from left to right (top cell, then bottom cell), then
/// the left and right walls, row by row from bottom to top (left cell, then
/// right cell). The corners occur in both parts.
pub open spec fn border_cell(f: Field, j: int) -> Position {
    let w = ring_width(f);
    if j < 2 * w {
        let x = (f.min.x - 1 + j / 2) as i32;
        if j % 2 == 0 {
            Position { x, y: (f.max.y + 1) as i32 }
        } else {
            Position { x, y: (f.min.y - 1) as i32 }
        }
    } else {
        let k = j - 2 * w;
        let y = (f.min.y - 1 + k / 2) as i32;
        if k % 2 == 0 {
            Position { x: (f.min.x - 1) as i32, y }
        } else {
            Position { x: (f.max.x + 1) as i32, y }
        }
    }
}

impl Field {
    /// The standard field, from `(-5, -5)` to `(6, 6)`.
    pub fn standard() -> (r: Field)
        ensures
            r == (Field {
                min: Position { x: -5i32, y: -5i32 },
                max: Position { x: 6, y: 6 },
            }),
            field_ok(r),
    {
        Field {
            min: Position { x: FIELD_FROM, y: FIELD_FROM },
            max: Position { x: FIELD_TO, y: FIELD_TO },
        }
    }

    /// The wall cells that surround the field, in the order of
    /// `border_cell`.
    pub fn border_cells(&self) -> (r: Vec<Position>)
        requires
            i32::MIN < self.min.x <= self.max.x < i32::MAX,
            i32::MIN < self.min.y <= self.max.y < i32::MAX,
        ensures
            r@.len() == 2 * ring_width(*self) + 2 * ring_height(*self),
            forall|j: int| 0 <= j < r@.len() ==> #[trigger] r@[j] == border_cell(*self, j),
    {
        let mut r: Vec<Position> = Vec::new();
        let top: i32 = self.max.y + 1;
        let bottom: i32 = self.min.y - 1;
        let left: i32 = self.min.x - 1;
        let right: i32 = self.max.x + 1;
        let mut x: i32 = left;
        loop
            invariant_except_break
                left <= x <= right,
                r@.len() == 2 * (x - left),
            invariant
                top == self.max.y + 1,
                bottom == self.min.y - 1,
                left == self.min.x - 1,
                right == self.max.x + 1,
                forall|j: int| 0 <= j < r@.len() ==> #[trigger] r@[j] == border_cell(*self, j),
            ensures
                r@.len() == 2 * ring_width(*self),
            decreases right - x,
        {
            let n = r.len();
            r.push(Position { x, y: top });
            r.push(Position { x, y: bottom });
            assert(r@[n as int] == border_cell(*self, n as int));
            assert(r@[n + 1] == border_cell(*self, n + 1));
            if x == right {
                break ;
            }
            x = x + 1;
        }
        let mut y: i32 = bottom;
        loop
            invariant_except_break
                bottom <= y <= top,
                r@.len() == 2 * ring_width(*self) + 2 * (y - bottom),
            invariant
                top == self.max.y + 1,
                bottom == self.min.y - 1,
                left == self.min.x - 1,
                right == self.max.x + 1,
                forall|j: int| 0 <= j < r@.len() ==> #[trigger] r@[j] == border_cell(*self, j),
            ensures
                r@.len() == 2 * ring_width(*self) + 2 * ring_height(*self),
            decreases top - y,
        {
            let n = r.len();
            r.push(Position { x: left, y });
            r.push(Position { x: right, y });
            assert(r@[n as int] == border_cell(*self, n as int));
            assert(r@[n + 1] == border_cell(*self, n + 1));
            if y == top {
                break ;
            }
            y = y + 1;
        }
        r
    }
}

/// Whether the head has left the field: true exactly when `head` lies
/// outside the rectangle from `field.min` to `field.max`, both included.
pub fn check_border(head: Position, field: Field) -> (r: bool)
    ensures
        r == !inside(head, field),
{
    head.x < field.min.x || head.x > field.max.x || head.y < field.min.y || head.y > field.max.y
}

/// Whether the head has run into the body: true exactly when `head` equals
/// the cell of some body segment.
pub fn check_self(head: Position, body: &Vec<Position>) -> (r: bool)
    ensures
        r == exists|i: int| 0 <= i < body@.len() && #[trigger] body@[i] == head,
{
    let mut i: usize = 0;
    while i < body.len()
        invariant
            i <= body@.len(),
            forall|j: int| 0 <= j < i ==> #[trigger] body@[j] != head,
        decreases body@.len() - i,
    {
        if body[i].x == head.x && body[i].y == head.y {
            return true;
        }
        i = i + 1;
    }
    false
}

} // verus!
