//! The mathematical model of replaying a move history.
//!
//! A session's live and inspection positions are both characterised as
//! `replay` of a prefix of the recorded history from the initial position.
//! The lemmas here are what let the incremental replay cursor (undo a few
//! moves, or apply a few more) be proved equal to a full replay from scratch.

use vstd::prelude::*;

use crate::authority::step_rep;
use crate::state::MoveRec;

verus! {

/// The position reached from `start` by playing every move of `moves` in
/// order.
pub open spec fn replay(start: Seq<char>, moves: Seq<MoveRec>) -> Seq<char>
    decreases moves.len(),
{
    if moves.len() == 0 {
        start
    } else {
        step_rep(replay(start, moves.drop_last()), moves.last())
    }
}

/// Extending a history by one move steps the replayed position by that move.
pub proof fn lemma_replay_push(start: Seq<char>, moves: Seq<MoveRec>, m: MoveRec)
    ensures
        replay(start, moves.push(m)) == step_rep(replay(start, moves), m),
{
    assert(moves.push(m).drop_last() =~= moves);
}

/// Taking one more move of a history steps the replayed prefix by that move.
pub proof fn lemma_replay_take_step(start: Seq<char>, moves: Seq<MoveRec>, i: int)
    requires
        0 <= i < moves.len(),
    ensures
        replay(start, moves.take(i + 1)) == step_rep(replay(start, moves.take(i)), moves[i]),
{
    assert(moves.take(i + 1).drop_last() =~= moves.take(i));
    assert(moves.take(i + 1).last() == moves[i]);
}

/// A history prefix replays the same after later moves are appended.
pub proof fn lemma_replay_take_push(start: Seq<char>, moves: Seq<MoveRec>, m: MoveRec, i: int)
    requires
        0 <= i <= moves.len(),
    ensures
        replay(start, moves.push(m).take(i)) == replay(start, moves.take(i)),
{
    assert(moves.push(m).take(i) =~= moves.take(i));
}

/// Replaying a concatenation replays the first part, then the second.
pub proof fn lemma_replay_concat(start: Seq<char>, a: Seq<MoveRec>, b: Seq<MoveRec>)
    ensures
        replay(start, a + b) == replay(replay(start, a), b),
    decreases b.len(),
{
    if b.len() == 0 {
        assert(a + b =~= a);
    } else {
        lemma_replay_concat(start, a, b.drop_last());
        assert((a + b).drop_last() =~= a + b.drop_last());
        assert((a + b).last() == b.last());
    }
}

/// History reconstruction is deterministic: undoing back to an earlier ply
/// and then redoing the recorded moves from there restores the position that
/// the full history describes.
pub proof fn lemma_undo_redo(start: Seq<char>, moves: Seq<MoveRec>, n: int)
    requires
        0 <= n <= moves.len(),
    ensures
        replay(replay(start, moves.take(n)), moves.skip(n)) == replay(start, moves),
{
    lemma_replay_concat(start, moves.take(n), moves.skip(n));
    assert(moves.take(n) + moves.skip(n) =~= moves);
}

} // verus!
