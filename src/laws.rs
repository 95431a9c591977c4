//! Laws of the movement step, stated over the chain's cells.

use vstd::prelude::*;
use crate::grid::{Dir, Position, moved, can_move, adjacent, direction_from, opposite};
use crate::snake::{stepped, is_simple_path, hits_body};
use crate::tiles::connection_tile;

verus! {

/// A step keeps the number of segments, unless growth was owed, in which
/// case the chain gains exactly one segment.
pub proof fn lemma_step_length(cells: Seq<Position>, d: Dir, grow: bool)
    requires
        cells.len() >= 1,
    ensures
        stepped(cells, d, grow).len() == cells.len() + (if grow {
            1int
        } else {
            0int
        }),
{
}

/// Growth round trip: after a step with growth owed, the new tail lies where
/// the old tail was, and the old tail lies where its predecessor was.
pub proof fn lemma_growth_round_trip(cells: Seq<Position>, d: Dir)
    requires
        cells.len() >= 2,
    ensures
        stepped(cells, d, true).len() == cells.len() + 1,
        stepped(cells, d, true).last() == cells.last(),
        stepped(cells, d, true)[cells.len() - 1] == cells[cells.len() - 2],
{
}

/// A step from a simple path leaves a simple path, unless the head lands on
/// another segment.
pub proof fn lemma_step_keeps_simple_path(cells: Seq<Position>, d: Dir, grow: bool)
    requires
        cells.len() >= 1,
        is_simple_path(cells),
        can_move(cells[0], d),
        !hits_body(stepped(cells, d, grow)),
    ensures
        is_simple_path(stepped(cells, d, grow)),
{
    let n = stepped(cells, d, grow);
    let m = moved(cells[0], d);
    assert(n[0] == m);
    assert forall|i: int| 1 <= i < n.len() implies #[trigger] n[i] == cells[i - 1] by {}
    assert(direction_from(m, cells[0]) == Some(opposite(d)));
    assert forall|i: int| 0 <= i < n.len() - 1 implies adjacent(#[trigger] n[i], n[i + 1]) by {
        if i > 0 {
            assert(n[i] == cells[i - 1]);
            assert(n[i + 1] == cells[i]);
        }
    }
    assert forall|i: int, j: int| 0 <= i < j < n.len() implies #[trigger] n[i] != #[trigger] n[j] by {
        if i > 0 {
            assert(n[i] == cells[i - 1]);
            assert(n[j] == cells[j - 1]);
        } else {
            assert(n[j] != n[0]);
        }
    }
}

/// A turn from `a` to `b` shows the same tile as a turn from `b` to `a`.
pub proof fn lemma_connection_tile_symmetric(a: Dir, b: Dir)
    ensures
        connection_tile(a, b) == connection_tile(b, a),
{
}

/// The cells after a sequence of steps without growth, one per direction.
pub open spec fn run(cells: Seq<Position>, dirs: Seq<Dir>) -> Seq<Position>
    decreases dirs.len(),
{
    if dirs.len() == 0 {
        cells
    } else {
        run(stepped(cells, dirs[0], false), dirs.drop_first())
    }
}

/// Every step of the sequence stays within the coordinate type and no step
/// lands the head on another segment: the steps a session survives.
pub open spec fn run_survives(cells: Seq<Position>, dirs: Seq<Dir>) -> bool
    decreases dirs.len(),
{
    if dirs.len() == 0 {
        true
    } else {
        &&& can_move(cells[0], dirs[0])
        &&& !hits_body(stepped(cells, dirs[0], false))
        &&& run_survives(stepped(cells, dirs[0], false), dirs.drop_first())
    }
}

/// After any number of steps without growth that the session survives, the
/// cells still form a simple path: unit steps apart, no cell twice.
pub proof fn lemma_run_keeps_simple_path(cells: Seq<Position>, dirs: Seq<Dir>)
    requires
        cells.len() >= 1,
        is_simple_path(cells),
        run_survives(cells, dirs),
    ensures
        run(cells, dirs).len() == cells.len(),
        is_simple_path(run(cells, dirs)),
    decreases dirs.len(),
{
    if dirs.len() > 0 {
        lemma_step_keeps_simple_path(cells, dirs[0], false);
        lemma_run_keeps_simple_path(stepped(cells, dirs[0], false), dirs.drop_first());
    }
}

} // verus!
