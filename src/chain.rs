//! The segment chain: an arena of cells linked head to tail by handles.
//!
//! A handle is the index of a record in the arena. The head's cell has handle
//! `0`; every record links to its successor toward the tail, and the tail's
//! record has no successor. Records are only ever appended at the tail, so a
//! handle stays valid for the life of the chain.

use vstd::prelude::*;
use crate::grid::Position;

verus! {

/// One cell of the chain and the handle of the next cell toward the tail.
#[derive(Clone, Copy, Debug, PartialEq, Eq, Structural)]
pub struct BodySegment {
    pub pos: Position,
    pub next: Option<usize>,
}

/// The successor that the record with handle `i` holds in a chain of `n` cells.
pub open spec fn successor(i: int, n: int) -> Option<usize> {
    if i + 1 < n {
        Some((i + 1) as usize)
    } else {
        None
    }
}

/// An acyclic, finite, non-empty chain of cells, head first.
pub struct SegmentChain {
    segments: Vec<BodySegment>,
}

impl View for SegmentChain {
    /// The coordinates of the cells in head-to-tail order.
    type V = Seq<Position>;

    closed spec fn view(&self) -> Seq<Position> {
        self.segments@.map_values(|s: BodySegment| s.pos)
    }
}

impl SegmentChain {
    /// The records link each handle to the next one, and the last to none.
    pub closed spec fn wf(&self) -> bool {
        &&& self.segments.len() >= 1
        &&& forall|i: int|
            0 <= i < self.segments.len() ==> #[trigger] self.segments@[i].next == successor(
                i,
                self.segments.len() as int,
            )
    }

    /// A well-formed chain holds at least the head's cell.
    pub proof fn lemma_nonempty(&self)
        requires
            self.wf(),
        ensures
            self@.len() >= 1,
    {
    }

    /// A chain of the head's cell alone.
    pub fn new(head: Position) -> (r: SegmentChain)
        ensures
            r.wf(),
            r@ == seq![head],
    {
        let mut segments: Vec<BodySegment> = Vec::new();
        segments.push(BodySegment { pos: head, next: None });
        let r = SegmentChain { segments };
        assert(r@ =~= seq![head]);
        r
    }

    /// A chain is never empty.
    pub fn len(&self) -> (r: usize)
        requires
            self.wf(),
        ensures
            r == self@.len(),
            r >= 1,
    {
        self.segments.len()
    }

    /// The record with handle `h`.
    pub fn segment(&self, h: usize) -> (r: BodySegment)
        requires
            self.wf(),
            h < self@.len(),
        ensures
            r.pos == self@[h as int],
            r.next == successor(h as int, self@.len() as int),
    {
        self.segments[h]
    }

    /// Creates a cell with no successor at `pos`, links it after the current
    /// tail and returns its handle.
    pub fn append_tail(&mut self, pos: Position) -> (h: usize)
        requires
            old(self).wf(),
        ensures
            final(self).wf(),
            final(self)@ == old(self)@.push(pos),
            h == old(self)@.len(),
    {
        let h = self.segments.len();
        let tail = self.segments[h - 1];
        self.segments.set(h - 1, BodySegment { pos: tail.pos, next: Some(h) });
        self.segments.push(BodySegment { pos, next: None });
        assert(self@ =~= old(self)@.push(pos));
        h
    }

    /// The handles and coordinates of the cells from handle `start` to the
    /// tail, following the links.
    pub fn traverse_from(&self, start: usize) -> (r: Vec<(usize, Position)>)
        requires
            self.wf(),
            start < self@.len(),
        ensures
            r@.len() == self@.len() - start,
            forall|k: int|
                0 <= k < r@.len() ==> #[trigger] r@[k] == ((start + k) as usize, self@[start + k]),
    {
        let mut r: Vec<(usize, Position)> = Vec::new();
        let mut cur: usize = start;
        loop
            invariant_except_break
                start <= cur < self.segments.len(),
                r@.len() == cur - start,
            invariant
                self.wf(),
                forall|k: int|
                    0 <= k < r@.len() ==> #[trigger] r@[k] == ((start + k) as usize, self@[start
                        + k]),
            ensures
                r@.len() == self@.len() - start,
                forall|k: int|
                    0 <= k < r@.len() ==> #[trigger] r@[k] == ((start + k) as usize, self@[start
                        + k]),
            decreases self.segments.len() - cur,
        {
            let seg = self.segments[cur];
            r.push((cur, seg.pos));
            match seg.next {
                Some(n) => {
                    cur = n;
                },
                None => {
                    break ;
                },
            }
        }
        r
    }

    /// Moves `lead` into the head's cell and every other cell into the place
    /// its predecessor held before, in one pass with a rolling carry. Returns
    /// the place that the tail held before, which is now free.
    pub fn follow(&mut self, lead: Position) -> (carry: Position)
        requires
            old(self).wf(),
        ensures
            final(self).wf(),
            final(self)@ == seq![lead] + old(self)@.drop_last(),
            carry == old(self)@.last(),
    {
        let ghost before = self@;
        let mut carry = lead;
        let mut cur: usize = 0;
        loop
            invariant_except_break
                cur < self.segments.len(),
                forall|i: int|
                    0 <= i < cur ==> #[trigger] self.segments@[i].pos == (if i == 0 {
                        lead
                    } else {
                        before[i - 1]
                    }),
                forall|i: int| cur <= i < self.segments.len() ==> #[trigger] self.segments@[i].pos == before[i],
                carry == (if cur == 0 {
                    lead
                } else {
                    before[cur - 1]
                }),
            invariant
                before == old(self)@,
                self.segments.len() == before.len(),
                before.len() >= 1,
                forall|i: int|
                    0 <= i < self.segments.len() ==> #[trigger] self.segments@[i].next
                        == successor(i, self.segments.len() as int),
            ensures
                self.segments.len() == before.len(),
                forall|i: int|
                    0 <= i < self.segments.len() ==> #[trigger] self.segments@[i].next
                        == successor(i, self.segments.len() as int),
                forall|i: int|
                    0 <= i < self.segments.len() ==> #[trigger] self.segments@[i].pos == (if i
                        == 0 {
                        lead
                    } else {
                        before[i - 1]
                    }),
                carry == before.last(),
            decreases self.segments.len() - cur,
        {
            let seg = self.segments[cur];
            let temp = seg.pos;
            self.segments.set(cur, BodySegment { pos: carry, next: seg.next });
            carry = temp;
            match seg.next {
                Some(n) => {
                    cur = n;
                },
                None => {
                    break ;
                },
            }
        }
        assert(self@ =~= seq![lead] + before.drop_last());
        carry
    }
}

} // verus!
