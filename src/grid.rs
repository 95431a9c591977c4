//! Grid coordinates and the four compass directions.

use vstd::prelude::*;

verus! {

/// A cell of the play field.
#[derive(Clone, Copy, Debug, PartialEq, Eq, Structural)]
pub struct Position {
    pub x: i32,
    pub y: i32,
}

/// The four directions a snake can move in.
#[derive(Clone, Copy, Debug, PartialEq, Eq, Structural)]
pub enum Dir {
    Up,
    Right,
    Down,
    Left,
}

/// The direction that points the other way.
pub open spec fn opposite(d: Dir) -> Dir {
    match d {
        Dir::Up => Dir::Down,
        Dir::Down => Dir::Up,
        Dir::Left => Dir::Right,
        Dir::Right => Dir::Left,
    }
}

/// Horizontal component of one step in direction `d`.
pub open spec fn dx(d: Dir) -> int {
    match d {
        Dir::Right => 1,
        Dir::Left => -1,
        _ => 0,
    }
}

/// Vertical component of one step in direction `d` (up is `+1`).
pub open spec fn dy(d: Dir) -> int {
    match d {
        Dir::Up => 1,
        Dir::Down => -1,
        _ => 0,
    }
}

/// Whether one step from `p` in direction `d` stays within the coordinate type.
pub open spec fn can_move(p: Position, d: Dir) -> bool {
    &&& i32::MIN <= p.x + dx(d) <= i32::MAX
    &&& i32::MIN <= p.y + dy(d) <= i32::MAX
}

/// The cell one step from `p` in direction `d`.
pub open spec fn moved(p: Position, d: Dir) -> Position {
    Position { x: (p.x + dx(d)) as i32, y: (p.y + dy(d)) as i32 }
}

/// The direction `d` with `moved(a, d) == b`, if the two cells share an edge.
pub open spec fn direction_from(a: Position, b: Position) -> Option<Dir> {
    let ddx = b.x - a.x;
    let ddy = b.y - a.y;
    if ddx == 1 && ddy == 0 {
        Some(Dir::Right)
    } else if ddx == -1 && ddy == 0 {
        Some(Dir::Left)
    } else if ddx == 0 && ddy == 1 {
        Some(Dir::Up)
    } else if ddx == 0 && ddy == -1 {
        Some(Dir::Down)
    } else {
        None
    }
}

/// Two cells that share an edge.
pub open spec fn adjacent(a: Position, b: Position) -> bool {
    direction_from(a, b) is Some
}

impl Dir {
    pub fn opposite(self) -> (r: Dir)
        ensures
            r == opposite(self),
    {
        match self {
            Dir::Up => Dir::Down,
            Dir::Down => Dir::Up,
            Dir::Left => Dir::Right,
            Dir::Right => Dir::Left,
        }
    }

    /// Index of the head sprite that faces this direction.
    pub fn head_atlas_index(self) -> (r: usize)
        ensures
            r == match self {
                Dir::Up => 0usize,
                Dir::Right => 1usize,
                Dir::Down => 2usize,
                Dir::Left => 3usize,
            },
    {
        match self {
            Dir::Up => 0,
            Dir::Right => 1,
            Dir::Down => 2,
            Dir::Left => 3,
        }
    }
}

impl Position {
    /// The cell one step away in direction `d`.
    pub fn moved(self, d: Dir) -> (r: Position)
        requires
            can_move(self, d),
        ensures
            r == moved(self, d),
    {
        match d {
            Dir::Up => Position { x: self.x, y: self.y + 1 },
            Dir::Down => Position { x: self.x, y: self.y - 1 },
            Dir::Right => Position { x: self.x + 1, y: self.y },
            Dir::Left => Position { x: self.x - 1, y: self.y },
        }
    }
}

/// The direction that leads from `from` to the neighbouring cell `to`, or
/// `None` when the two cells do not share an edge.
pub fn direction_between(from: Position, to: Position) -> (r: Option<Dir>)
    ensures
        r == direction_from(from, to),
{
    let ddx: i64 = to.x as i64 - from.x as i64;
    let ddy: i64 = to.y as i64 - from.y as i64;
    if ddx == 1 && ddy == 0 {
        Some(Dir::Right)
    } else if ddx == -1 && ddy == 0 {
        Some(Dir::Left)
    } else if ddx == 0 && ddy == 1 {
        Some(Dir::Up)
    } else if ddx == 0 && ddy == -1 {
        Some(Dir::Down)
    } else {
        None
    }
}

/// A step from `a` in direction `d` lands on a neighbour, reached by `d`.
pub proof fn lemma_moved_direction(a: Position, d: Dir)
    requires
        can_move(a, d),
    ensures
        direction_from(a, moved(a, d)) == Some(d),
        adjacent(a, moved(a, d)),
{
}

} // verus!
