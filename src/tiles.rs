//! The tile classifier: which sprite each body segment shows so that the
//! snake reads as one continuous body.

use vstd::prelude::*;
use crate::grid::{Dir, Position, opposite, direction_from, direction_between};

verus! {

/// The tile shapes a body segment can show.
#[derive(Clone, Copy, Debug, PartialEq, Eq, Structural)]
pub enum SegmentType {
    /// Connects left and right.
    Horizontal,
    /// Connects up and down.
    Vertical,
    /// Connects right and up.
    CornerRightUp,
    /// Connects down and right.
    CornerDownRight,
    /// Connects left and down.
    CornerLeftDown,
    /// Connects up and left.
    CornerUpLeft,
    /// A tail whose body lies below it.
    TailUp,
    /// A tail whose body lies to its left.
    TailRight,
    /// A tail whose body lies above it.
    TailDown,
    /// A tail whose body lies to its right.
    TailLeft,
    /// The shape shown where the neighbours do not share edges with the cell.
    Fallback,
}

/// A direction along the horizontal axis.
pub open spec fn is_horizontal(d: Dir) -> bool {
    d == Dir::Left || d == Dir::Right
}

/// The tile of a cell that connects in directions `a` and `b`; the order of
/// the two does not matter.
pub open spec fn connection_tile(a: Dir, b: Dir) -> SegmentType {
    let has = |d: Dir| a == d || b == d;
    if is_horizontal(a) && is_horizontal(b) {
        SegmentType::Horizontal
    } else if !is_horizontal(a) && !is_horizontal(b) {
        SegmentType::Vertical
    } else if has(Dir::Down) && has(Dir::Right) {
        SegmentType::CornerDownRight
    } else if has(Dir::Left) && has(Dir::Down) {
        SegmentType::CornerLeftDown
    } else if has(Dir::Up) && has(Dir::Left) {
        SegmentType::CornerUpLeft
    } else {
        SegmentType::CornerRightUp
    }
}

/// The tile of an interior cell `cur` between `prev` (toward the head) and
/// `next` (toward the tail).
pub open spec fn segment_tile(prev: Position, cur: Position, next: Position) -> SegmentType {
    match (direction_from(prev, cur), direction_from(cur, next)) {
        (Option::Some(a), Option::Some(b)) => connection_tile(opposite(a), b),
        _ => SegmentType::Fallback,
    }
}

/// The tile of the tail cell `tail`, whose predecessor is `prev`.
pub open spec fn tail_tile(prev: Position, tail: Position) -> SegmentType {
    match direction_from(prev, tail) {
        Option::Some(Dir::Up) => SegmentType::TailUp,
        Option::Some(Dir::Right) => SegmentType::TailRight,
        Option::Some(Dir::Down) => SegmentType::TailDown,
        Option::Some(Dir::Left) => SegmentType::TailLeft,
        Option::None => SegmentType::Fallback,
    }
}

/// The tile of the cell at index `i >= 1` of a chain, head first.
pub open spec fn tile_at(cells: Seq<Position>, i: int) -> SegmentType {
    if i + 1 < cells.len() {
        segment_tile(cells[i - 1], cells[i], cells[i + 1])
    } else {
        tail_tile(cells[i - 1], cells[i])
    }
}

/// The index of the sprite for each tile shape.
pub open spec fn atlas_index(t: SegmentType) -> usize {
    match t {
        SegmentType::Horizontal => 4,
        SegmentType::Vertical => 5,
        SegmentType::CornerDownRight => 8,
        SegmentType::CornerLeftDown => 9,
        SegmentType::CornerUpLeft => 13,
        SegmentType::CornerRightUp => 12,
        SegmentType::TailRight => 11,
        SegmentType::TailDown => 14,
        SegmentType::TailLeft => 15,
        SegmentType::TailUp => 10,
        SegmentType::Fallback => 7,
    }
}

impl SegmentType {
    /// The index of this shape's sprite in the texture atlas.
    pub fn to_atlas_index(self) -> (r: usize)
        ensures
            r == atlas_index(self),
    {
        match self {
            SegmentType::Horizontal => 4,
            SegmentType::Vertical => 5,
            SegmentType::CornerDownRight => 8,
            SegmentType::CornerLeftDown => 9,
            SegmentType::CornerUpLeft => 13,
            SegmentType::CornerRightUp => 12,
            SegmentType::TailRight => 11,
            SegmentType::TailDown => 14,
            SegmentType::TailLeft => 15,
            SegmentType::TailUp => 10,
            SegmentType::Fallback => 7,
        }
    }
}

/// The tile of the interior cell `cur` between `prev` and `next`: where both
/// neighbours share an edge with it, the shape that joins the side facing
/// `prev` to the side facing `next`; otherwise `SegmentType::Fallback`.
pub fn determine_segment_type(prev: Position, cur: Position, next: Position) -> (r: SegmentType)
    ensures
        r == segment_tile(prev, cur, next),
{
    let from_prev = direction_between(prev, cur);
    let to_next = direction_between(cur, next);
    let incoming = match from_prev {
        Option::Some(d) => Option::Some(d.opposite()),
        Option::None => Option::None,
    };
    match (incoming, to_next) {
        (Option::Some(Dir::Left), Option::Some(Dir::Left))
        | (Option::Some(Dir::Right), Option::Some(Dir::Right))
        | (Option::Some(Dir::Left), Option::Some(Dir::Right))
        | (Option::Some(Dir::Right), Option::Some(Dir::Left)) => SegmentType::Horizontal,
        (Option::Some(Dir::Up), Option::Some(Dir::Up))
        | (Option::Some(Dir::Down), Option::Some(Dir::Down))
        | (Option::Some(Dir::Up), Option::Some(Dir::Down))
        | (Option::Some(Dir::Down), Option::Some(Dir::Up)) => SegmentType::Vertical,
        (Option::Some(Dir::Down), Option::Some(Dir::Right))
        | (Option::Some(Dir::Right), Option::Some(Dir::Down)) => SegmentType::CornerDownRight,
        (Option::Some(Dir::Left), Option::Some(Dir::Down))
        | (Option::Some(Dir::Down), Option::Some(Dir::Left)) => SegmentType::CornerLeftDown,
        (Option::Some(Dir::Up), Option::Some(Dir::Left))
        | (Option::Some(Dir::Left), Option::Some(Dir::Up)) => SegmentType::CornerUpLeft,
        (Option::Some(Dir::Right), Option::Some(Dir::Up))
        | (Option::Some(Dir::Up), Option::Some(Dir::Right)) => SegmentType::CornerRightUp,
        _ => SegmentType::Fallback,
    }
}

/// The tile of the tail cell `tail` after `prev`: the cap that points the
/// way from `prev` to `tail`, or `SegmentType::Fallback` where the two cells do
/// not share an edge.
pub fn determine_tail_type(prev: Position, tail: Position) -> (r: SegmentType)
    ensures
        r == tail_tile(prev, tail),
{
    match direction_between(prev, tail) {
        Option::Some(Dir::Left) => SegmentType::TailLeft,
        Option::Some(Dir::Right) => SegmentType::TailRight,
        Option::Some(Dir::Up) => SegmentType::TailUp,
        Option::Some(Dir::Down) => SegmentType::TailDown,
        Option::None => SegmentType::Fallback,
    }
}

/// The tiles of all cells of a chain but the head, head end first: element
/// `k` is the tile of `cells[k + 1]`.
pub fn classify_chain(cells: &Vec<Position>) -> (r: Vec<SegmentType>)
    ensures
        cells@.len() >= 1 ==> r@.len() == cells@.len() - 1,
        cells@.len() == 0 ==> r@.len() == 0,
        forall|k: int| 0 <= k < r@.len() ==> #[trigger] r@[k] == tile_at(cells@, k + 1),
{
    let mut r: Vec<SegmentType> = Vec::new();
    let n = cells.len();
    let mut i: usize = 1;
    while i < n
        invariant
            n == cells@.len(),
            1 <= i,
            i <= n || (n == 0 && i == 1),
            r@.len() == i - 1,
            forall|k: int| 0 <= k < r@.len() ==> #[trigger] r@[k] == tile_at(cells@, k + 1),
        decreases n - i,
    {
        let t = if i + 1 < n {
            determine_segment_type(cells[i - 1], cells[i], cells[i + 1])
        } else {
            determine_tail_type(cells[i - 1], cells[i])
        };
        r.push(t);
        i = i + 1;
    }
    r
}

} // verus!
