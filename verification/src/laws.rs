//! The engine's general laws, proved once over the transition specifications
//! that the executable methods are verified against.

use vstd::prelude::*;

use crate::food::{candidate_ok, place_spec};
use crate::geometry::{in_bounds, Coords, BOARD_MIN};
use crate::state::{
    body_after, body_moved, distinct_seq, eats, game_over_after, hits_self, inv, msg_of_dir,
    next_head, opposite, over_spec, score_after, turn_spec, velocity_wf, Direction, Msg, State,
};

verus! {

/// Every body segment of a running state stays distinct across one step:
/// when the step does not end the session, the stepped body has no two
/// coincident segments. (When coincident segments do arise, the game-over
/// check at the end of the step catches them, so the session ends.)
pub proof fn lemma_step_preserves_distinct(s: State, cands: Seq<Coords>)
    requires
        inv(s),
        !s.game_over,
        !game_over_after(s, cands),
    ensures
        distinct_seq(body_after(s)),
{
    let b = body_after(s);
    let m = body_moved(s);
    assert(!hits_self(b));
    assert forall|i: int, j: int| 0 <= i < j < b.len() implies b[i] != b[j] by {
        assert(b[j] == m[j]);
        assert(m[j] == s.snake@[j - 1]);
        if i == 0 {
            assert(b[j] != b[0]);
        } else {
            assert(b[i] == m[i]);
            assert(m[i] == s.snake@[i - 1]);
        }
    }
}

/// A turn never breaks the agreement between the velocity's displacement
/// and its heading: whatever the request, the velocity after `turn` is
/// canonical for its heading.
pub proof fn lemma_turn_preserves_velocity(s: State, m: Msg)
    requires
        velocity_wf(s.velocity),
    ensures
        velocity_wf(turn_spec(s, m).velocity),
{
}

/// Ignored turns change nothing: a request for the current heading or for
/// its direct reverse leaves the whole state as it was — in particular the
/// velocity and the turn window.
pub proof fn lemma_ignored_turn(s: State, m: Msg)
    requires
        m == msg_of_dir(s.velocity.direction) || m == msg_of_dir(opposite(s.velocity.direction)),
    ensures
        turn_spec(s, m) == s,
{
}

/// The growth law: a step that consumes the apple grows the body by exactly
/// one segment and the score by exactly one point; any other step leaves
/// both unchanged.
pub proof fn lemma_growth(s: State)
    requires
        s.snake@.len() >= 1,
    ensures
        eats(s) ==> body_after(s).len() == s.snake@.len() + 1 && score_after(s) == s.score + 1,
        !eats(s) ==> body_after(s).len() == s.snake@.len() && score_after(s) == s.score,
{
}

/// The boundary law: a head standing one unit outside the lower bound ends
/// the session on the next step, for every heading that does not move the
/// head back up in x (a rightward heading re-enters the bounds and is the
/// one excluded input).
pub proof fn lemma_boundary_low(s: State, cands: Seq<Coords>)
    requires
        velocity_wf(s.velocity),
        s.snake@.len() >= 1,
        s.snake@[0].x == BOARD_MIN - 1,
        s.velocity.direction != Direction::Right,
    ensures
        game_over_after(s, cands),
{
    assert(next_head(s).x < BOARD_MIN);
    assert(body_after(s)[0] == next_head(s));
    assert(!in_bounds(body_after(s)[0]));
    assert(over_spec(body_after(s)));
}

/// The placement law: whatever cell food placement yields is inside the
/// play bounds, aligned to the grid, and coincident with no occupied cell.
pub proof fn lemma_place_food_free(occupied: Seq<Coords>, cands: Seq<Coords>)
    ensures
        match place_spec(occupied, cands) {
            Some(c) => candidate_ok(c, occupied),
            None => true,
        },
    decreases cands.len(),
{
    if cands.len() == 0 {
    } else if candidate_ok(cands[0], occupied) {
    } else {
        lemma_place_food_free(occupied, cands.drop_first());
    }
}

} // verus!
