//! The general laws of the game, stated once and proved over the
//! same spec functions the executable contracts use.

use vstd::prelude::*;
use crate::engine::Game;
use crate::game::key_direction;
use crate::game::new_heading;
use crate::game::next_pos;
use crate::game::opposite;
use crate::game::score_spec;
use crate::game::Direction;
use crate::game::Znake;

verus! {

/// For every well-formed snake, one step changes exactly one
/// coordinate axis by exactly one unit in the heading's direction;
/// the other axis is unchanged.
pub proof fn lemma_step_one_axis(z: Znake)
    requires
        z.wf(),
    ensures
        ({
            let head = z.segments@[0];
            let next = next_pos(z);
            match z.direction {
                Direction::Up => next.0 == head.0 && next.1 + 1 == head.1,
                Direction::Down => next.0 == head.0 && next.1 == head.1 + 1,
                Direction::Left => next.0 + 1 == head.0 && next.1 == head.1,
                Direction::Right => next.0 == head.0 + 1 && next.1 == head.1,
            }
        }),
        ({
            let head = z.segments@[0];
            let next = next_pos(z);
            (next.0 == head.0 && next.1 != head.1) || (next.0 != head.0 && next.1 == head.1)
        }),
{
    assert(1 <= z.segments@[0].0 && 1 <= z.segments@[0].1);
}

/// A key never installs the exact opposite of the current heading:
/// such a key is a no-op, any other direction key is a normal update,
/// and a non-direction key changes nothing.
pub proof fn lemma_no_reversal(d: Direction, key: u8)
    ensures
        new_heading(d, key) != opposite(d),
        key_direction(key) == Some::<Direction>(opposite(d)) ==> new_heading(d, key) == d,
        key_direction(key) matches Some(nd) ==> (nd != opposite(d) ==> new_heading(d, key) == nd),
        key_direction(key) is None ==> new_heading(d, key) == d,
{
    match d {
        Direction::Up => assert(opposite(d) != d),
        Direction::Down => assert(opposite(d) != d),
        Direction::Left => assert(opposite(d) != d),
        Direction::Right => assert(opposite(d) != d),
    }
}

/// A plain (non-eating) step keeps the segment count, and the old
/// tail cell is gone afterwards, provided the body had no duplicate
/// cells and the new head does not land on the old tail cell.
pub proof fn lemma_move_drops_tail(z: Znake)
    requires
        z.wf(),
        z.segments@.len() >= 2,
        forall|i: int, j: int|
            0 <= i < j < z.segments@.len() ==> z.segments@[i] != z.segments@[j],
        next_pos(z) != z.segments@.last(),
    ensures
        ({
            let after = seq![next_pos(z)] + z.segments@.drop_last();
            after.len() == z.segments@.len() && !after.contains(z.segments@.last())
        }),
{
    let after = seq![next_pos(z)] + z.segments@.drop_last();
    let tail = z.segments@.last();
    assert forall|k: int| 0 <= k < after.len() implies after[k] != tail by {
        if k > 0 {
            assert(after[k] == z.segments@[k - 1]);
            assert(z.segments@[k - 1] != z.segments@[z.segments@.len() - 1]);
        }
    }
}

/// An eating step adds exactly one segment and drops none: every old
/// segment is still present, in order, behind the new head.
pub proof fn lemma_grow_keeps_all(z: Znake)
    requires
        z.wf(),
    ensures
        ({
            let after = seq![next_pos(z)] + z.segments@;
            after.len() == z.segments@.len() + 1 && after.skip(1) =~= z.segments@ && forall|i: int|
                0 <= i < z.segments@.len() ==> after.contains(#[trigger] z.segments@[i])
        }),
{
    let after = seq![next_pos(z)] + z.segments@;
    assert forall|i: int| 0 <= i < z.segments@.len() implies after.contains(
        #[trigger] z.segments@[i],
    ) by {
        assert(after[i + 1] == z.segments@[i]);
    }
}

/// In every reachable round state the score is exactly the segment
/// count minus the initial length of three (never negative, since a
/// reachable snake never shrinks below three segments).
pub proof fn lemma_score_reachable(g: Game)
    requires
        g.inv(),
    ensures
        score_spec(g.znake) == g.znake.segments@.len() - 3,
{
}

} // verus!
