//! Food placement: picking the first acceptable cell from a caller-supplied
//! stream of candidate cells, with an explicit failure when no candidate is
//! acceptable.
//!
//! The caller (the surrounding application) draws the candidates from its
//! random source; the engine itself is deterministic in them, so every
//! property of placement is stated over the candidate sequence.

use vstd::prelude::*;

use crate::geometry::{in_bounds, is_aligned, Coords, CELL_SIZE};

verus! {

/// The one designed failure of the engine: no acceptable food cell was found
/// among the candidates, so the board is treated as full.
#[derive(PartialEq, Eq, Structural, Clone, Copy, Debug)]
pub struct BoardFullError;

/// An acceptable food cell: strictly inside the play bounds, aligned to the
/// grid, and free of every occupied cell.
pub open spec fn candidate_ok(c: Coords, occupied: Seq<Coords>) -> bool {
    in_bounds(c) && is_aligned(c) && !occupied.contains(c)
}

/// The cell that placement yields: the first acceptable candidate, or `None`
/// when no candidate is acceptable.
pub open spec fn place_spec(occupied: Seq<Coords>, candidates: Seq<Coords>) -> Option<Coords>
    decreases candidates.len(),
{
    if candidates.len() == 0 {
        None
    } else if candidate_ok(candidates[0], occupied) {
        Some(candidates[0])
    } else {
        place_spec(occupied, candidates.drop_first())
    }
}

/// True when `v` holds `p`, by exact comparison on both axes.
fn contains_point(v: &Vec<Coords>, p: Coords) -> (r: bool)
    ensures
        r == v@.contains(p),
{
    let mut i: usize = 0;
    while i < v.len()
        invariant
            0 <= i <= v@.len(),
            forall|j: int| 0 <= j < i ==> v@[j] != p,
        decreases v@.len() - i,
    {
        if v[i] == p {
            return true;
        }
        i += 1;
    }
    proof {
        assert(!v@.contains(p));
    }
    false
}

/// Picks the position of the next apple: the first candidate that is inside
/// the play bounds, grid-aligned, and not on the snake. When no candidate
/// qualifies the board is considered full and placement fails, rather than
/// retrying forever.
pub fn generate_apple(snake: &Vec<Coords>, candidates: &Vec<Coords>) -> (r: Result<
    Coords,
    BoardFullError,
>)
    ensures
        match r {
            Ok(c) => place_spec(snake@, candidates@) == Some(c),
            Err(_) => place_spec(snake@, candidates@) is None,
        },
{
    let mut i: usize = 0;
    proof {
        assert(candidates@.skip(0) =~= candidates@);
    }
    while i < candidates.len()
        invariant
            0 <= i <= candidates@.len(),
            place_spec(snake@, candidates@) == place_spec(snake@, candidates@.skip(i as int)),
        decreases candidates@.len() - i,
    {
        let c = candidates[i];
        proof {
            assert(candidates@.skip(i as int)[0] == candidates@[i as int]);
        }
        let ok = c.within_bounds() && c.x % CELL_SIZE == 0 && c.y % CELL_SIZE == 0
            && !contains_point(snake, c);
        if ok {
            proof {
                assert(candidate_ok(c, snake@));
            }
            return Ok(c);
        }
        proof {
            assert(candidates@.skip(i as int).drop_first() =~= candidates@.skip(i as int + 1));
        }
        i += 1;
    }
    proof {
        assert(candidates@.skip(i as int).len() == 0);
    }
    Err(BoardFullError)
}

} // verus!
