//! The snake: its head state, the input buffer that rejects reversals, and
//! the movement step that shifts the whole chain and handles growth.

use vstd::prelude::*;
use crate::grid::{Dir, Position, opposite, moved, can_move, adjacent};
use crate::chain::SegmentChain;
use crate::tiles::{SegmentType, classify_chain, tile_at};

verus! {

/// Set when food was eaten and the new tail segment is still owed.
#[derive(Clone, Copy, Debug, PartialEq, Eq, Structural)]
pub struct Ate(pub bool);

/// What the head carries beyond its cell.
#[derive(Clone, Copy, Debug, PartialEq, Eq, Structural)]
pub struct Head {
    /// The direction the head moves in at the next step.
    pub direction: Dir,
    /// The direction the head moved in at the last step.
    pub last_direction: Dir,
    /// Growth owed to the next step.
    pub ate: Ate,
}

/// The head state and the chain of cells, head first.
pub struct Snake {
    pub head: Head,
    pub chain: SegmentChain,
}

/// Consecutive cells share an edge and no cell occurs twice.
pub open spec fn is_simple_path(cells: Seq<Position>) -> bool {
    &&& forall|i: int| 0 <= i < cells.len() - 1 ==> adjacent(#[trigger] cells[i], cells[i + 1])
    &&& forall|i: int, j: int| 0 <= i < j < cells.len() ==> #[trigger] cells[i] != #[trigger] cells[j]
}

/// The cells after one step in direction `d`: the head moves one cell, each
/// other cell takes the place of its predecessor, and with `grow` a new tail
/// takes the place that the old tail left.
pub open spec fn stepped(cells: Seq<Position>, d: Dir, grow: bool) -> Seq<Position> {
    let shifted = seq![moved(cells[0], d)] + cells.drop_last();
    if grow {
        shifted.push(cells.last())
    } else {
        shifted
    }
}

/// The head's cell is also the cell of some other segment.
pub open spec fn hits_body(cells: Seq<Position>) -> bool {
    exists|i: int| 1 <= i < cells.len() && #[trigger] cells[i] == cells[0]
}

/// The direction chosen from the keys held down: the first of left, right,
/// up and down that is held and does not reverse the last move.
pub open spec fn key_choice(left: bool, right: bool, up: bool, down: bool, last: Dir) -> Option<
    Dir,
> {
    if left && last != Dir::Right {
        Some(Dir::Left)
    } else if right && last != Dir::Left {
        Some(Dir::Right)
    } else if up && last != Dir::Down {
        Some(Dir::Up)
    } else if down && last != Dir::Up {
        Some(Dir::Down)
    } else {
        None
    }
}

/// Horizontal coordinate of the head's cell at the start of a session.
pub const START_HEAD_X: i32 = 1;

/// Horizontal coordinate of the first body cell at the start of a session.
pub const START_BODY_X: i32 = 0;

impl Snake {
    /// The chain's links are intact.
    pub open spec fn wf(&self) -> bool {
        self.chain.wf()
    }

    /// The coordinates of all segments, head first.
    pub open spec fn cells(&self) -> Seq<Position> {
        self.chain@
    }

    /// A snake on the given cells, head first, facing `direction`, with no
    /// growth owed.
    pub fn from_cells(cells: &Vec<Position>, direction: Dir) -> (r: Snake)
        requires
            cells@.len() >= 1,
        ensures
            r.wf(),
            r.cells() == cells@,
            r.head == (Head { direction, last_direction: direction, ate: Ate(false) }),
    {
        let mut chain = SegmentChain::new(cells[0]);
        let mut i: usize = 1;
        while i < cells.len()
            invariant
                1 <= i <= cells@.len(),
                chain.wf(),
                chain@ == cells@.subrange(0, i as int),
            decreases cells@.len() - i,
        {
            chain.append_tail(cells[i]);
            assert(chain@ =~= cells@.subrange(0, i + 1));
            i = i + 1;
        }
        assert(chain@ =~= cells@);
        Snake { head: Head { direction, last_direction: direction, ate: Ate(false) }, chain }
    }

    /// The layout at the start of a session: the head at `(1, 0)` facing
    /// right, one body cell at `(0, 0)`.
    pub fn new() -> (r: Snake)
        ensures
            r.wf(),
            r.cells() == seq![Position { x: 1, y: 0 }, Position { x: 0, y: 0 }],
            r.head == (Head { direction: Dir::Right, last_direction: Dir::Right, ate: Ate(false) }),
    {
        let mut chain = SegmentChain::new(Position { x: START_HEAD_X, y: 0 });
        chain.append_tail(Position { x: START_BODY_X, y: 0 });
        assert(chain@ =~= seq![Position { x: 1, y: 0 }, Position { x: 0, y: 0 }]);
        Snake {
            head: Head { direction: Dir::Right, last_direction: Dir::Right, ate: Ate(false) },
            chain,
        }
    }

    /// The head's cell.
    pub fn head_position(&self) -> (r: Position)
        requires
            self.wf(),
        ensures
            self.cells().len() >= 1,
            r == self.cells()[0],
    {
        proof {
            self.chain.lemma_nonempty();
        }
        self.chain.segment(0).pos
    }

    /// The coordinates of all segments, head first.
    pub fn positions(&self) -> (r: Vec<Position>)
        requires
            self.wf(),
        ensures
            r@ == self.cells(),
    {
        proof {
            self.chain.lemma_nonempty();
        }
        let walk = self.chain.traverse_from(0);
        let mut r: Vec<Position> = Vec::new();
        let mut k: usize = 0;
        while k < walk.len()
            invariant
                k <= walk@.len(),
                walk@.len() == self.cells().len(),
                forall|j: int| 0 <= j < walk@.len() ==> #[trigger] walk@[j] == (j as usize, self.cells()[j]),
                r@ == self.cells().subrange(0, k as int),
            decreases walk@.len() - k,
        {
            r.push(walk[k].1);
            assert(r@ =~= self.cells().subrange(0, k + 1));
            k = k + 1;
        }
        assert(r@ =~= self.cells());
        r
    }

    /// The coordinates of all segments but the head, head end first.
    pub fn body_positions(&self) -> (r: Vec<Position>)
        requires
            self.wf(),
        ensures
            r@ == self.cells().drop_first(),
    {
        let mut r: Vec<Position> = Vec::new();
        let n = self.chain.len();
        let mut h: usize = 1;
        while h < n
            invariant
                self.wf(),
                n == self.cells().len(),
                1 <= h <= n,
                r@ == self.cells().subrange(1, h as int),
            decreases n - h,
        {
            r.push(self.chain.segment(h).pos);
            assert(r@ =~= self.cells().subrange(1, h + 1));
            h = h + 1;
        }
        assert(r@ =~= self.cells().drop_first());
        r
    }

    /// The tile of every segment but the head, head end first: element `k`
    /// is the tile of the segment at index `k + 1`.
    pub fn tiles(&self) -> (r: Vec<SegmentType>)
        requires
            self.wf(),
        ensures
            r@.len() == self.cells().len() - 1,
            forall|k: int| 0 <= k < r@.len() ==> #[trigger] r@[k] == tile_at(self.cells(), k + 1),
    {
        proof {
            self.chain.lemma_nonempty();
        }
        let cells = self.positions();
        classify_chain(&cells)
    }

    /// Takes `d` as the next direction unless it reverses the last move, in
    /// which case the request is dropped.
    pub fn request_direction(&mut self, d: Dir)
        ensures
            final(self).head.direction == (if d != opposite(old(self).head.last_direction) {
                d
            } else {
                old(self).head.direction
            }),
            final(self).head.last_direction == old(self).head.last_direction,
            final(self).head.ate == old(self).head.ate,
            final(self).chain == old(self).chain,
    {
        if d != self.head.last_direction.opposite() {
            self.head.direction = d;
        }
    }

    /// Reads the movement keys held down this frame: the first of left, right,
    /// up and down that is held and does not reverse the last move wins.
    pub fn handle_keys(&mut self, left: bool, right: bool, up: bool, down: bool)
        ensures
            final(self).head.direction == (match key_choice(
                left,
                right,
                up,
                down,
                old(self).head.last_direction,
            ) {
                Some(d) => d,
                None => old(self).head.direction,
            }),
            final(self).head.last_direction == old(self).head.last_direction,
            final(self).head.ate == old(self).head.ate,
            final(self).chain == old(self).chain,
    {
        let last = self.head.last_direction;
        if left && last != Dir::Right {
            self.request_direction(Dir::Left);
        } else if right && last != Dir::Left {
            self.request_direction(Dir::Right);
        } else if up && last != Dir::Down {
            self.request_direction(Dir::Up);
        } else if down && last != Dir::Up {
            self.request_direction(Dir::Down);
        }
    }

    /// One movement step: the head moves one cell in its direction, every
    /// other segment takes the place its predecessor held, and owed growth
    /// becomes a new tail on the place the old tail left.
    pub fn step(&mut self)
        requires
            old(self).wf(),
            old(self).cells().len() >= 1,
            can_move(old(self).cells()[0], old(self).head.direction),
        ensures
            final(self).wf(),
            final(self).cells() == stepped(
                old(self).cells(),
                old(self).head.direction,
                old(self).head.ate.0,
            ),
            final(self).head == (Head {
                direction: old(self).head.direction,
                last_direction: old(self).head.direction,
                ate: Ate(false),
            }),
    {
        let head_pos = self.chain.segment(0).pos;
        let new_head = head_pos.moved(self.head.direction);
        self.head.last_direction = self.head.direction;
        let carry = self.chain.follow(new_head);
        if self.head.ate.0 {
            self.head.ate = Ate(false);
            self.chain.append_tail(carry);
        }
    }
}

} // verus!
