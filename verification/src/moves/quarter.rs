//! Moves in the quarter turn metric.

use vstd::prelude::*;

use crate::equivalence::{
    corner_after, edge_after, lemma_after_concat, lemma_after_single, lemma_corner_turn_merge,
    lemma_edge_turn_merge, lemma_same_effect_congruence, same_effect,
};
use crate::moves::{Alg, Amount, AxisMove};
use crate::pieces::corner::Corner;
use crate::pieces::edge::Edge;
use crate::space::{Direction, Face};

verus! {

/// Axis move for the quarter turn metric: same as [`AxisMove`], but without half turns.
///
/// A `QuarterAxisMove` always converts into an `AxisMove`, and an `Alg<AxisMove>` converts into
/// an `Alg<QuarterAxisMove>` by splitting half turns in two.
#[derive(Debug, Clone, Copy, PartialEq, Eq, Hash, Structural)]
pub struct QuarterAxisMove {
    /// The face that is being rotated
    pub face: Face,
    /// The direction: clockwise if positive, counterclockwise if negative
    pub direction: Direction,
}

impl QuarterAxisMove {
    /// The face turn that the move makes.
    pub open spec fn as_axis_move(self) -> AxisMove {
        AxisMove {
            face: self.face,
            amount: match self.direction {
                Direction::Positive => Amount::Single,
                Direction::Negative => Amount::Inverse,
            },
        }
    }

    /// The quarter turns that make up a face turn: one, or two clockwise for a half turn.
    pub open spec fn split(m: AxisMove) -> Seq<QuarterAxisMove> {
        match m.amount {
            Amount::Single => seq![QuarterAxisMove { face: m.face, direction: Direction::Positive }],
            Amount::Inverse => seq![QuarterAxisMove { face: m.face, direction: Direction::Negative }],
            Amount::Double => seq![
                QuarterAxisMove { face: m.face, direction: Direction::Positive },
                QuarterAxisMove { face: m.face, direction: Direction::Positive },
            ],
        }
    }

    /// The quarter turns of a sequence of face turns, in order.
    pub open spec fn split_all(moves: Seq<AxisMove>) -> Seq<QuarterAxisMove>
        decreases moves.len(),
    {
        if moves.len() == 0 {
            seq![]
        } else {
            QuarterAxisMove::split_all(moves.drop_last()) + QuarterAxisMove::split(moves.last())
        }
    }

    /// Creates a new [`QuarterAxisMove`]
    pub fn new(face: Face, direction: Direction) -> (r: QuarterAxisMove)
        ensures
            r == (QuarterAxisMove { face, direction }),
    {
        QuarterAxisMove { face, direction }
    }

    /// The move that undoes this one: same face, other direction.
    pub fn inverse(&self) -> (r: QuarterAxisMove)
        ensures
            r == (QuarterAxisMove { face: self.face, direction: self.direction.flip() }),
    {
        QuarterAxisMove { face: self.face, direction: self.direction.neg() }
    }

    /// The face turn that this move makes.
    pub fn to_axis_move(&self) -> (r: AxisMove)
        ensures
            r == self.as_axis_move(),
    {
        AxisMove {
            face: self.face,
            amount: match self.direction {
                Direction::Positive => Amount::Single,
                Direction::Negative => Amount::Inverse,
            },
        }
    }
}

/// The number of half turns in a sequence of face turns.
pub open spec fn half_turns(moves: Seq<AxisMove>) -> nat
    decreases moves.len(),
{
    if moves.len() == 0 {
        0
    } else {
        half_turns(moves.drop_last()) + if moves.last().amount == Amount::Double {
            1nat
        } else {
            0nat
        }
    }
}

/// The face turns that a sequence of quarter turns makes.
pub open spec fn as_axis_moves(moves: Seq<QuarterAxisMove>) -> Seq<AxisMove> {
    moves.map_values(|m: QuarterAxisMove| m.as_axis_move())
}

/// Splitting into quarter turns adds one move for each half turn.
pub proof fn lemma_split_all_len(moves: Seq<AxisMove>)
    ensures
        QuarterAxisMove::split_all(moves).len() == moves.len() + half_turns(moves),
    decreases moves.len(),
{
    if moves.len() > 0 {
        lemma_split_all_len(moves.drop_last());
    }
}

/// The quarter turns of a face turn do the same as the face turn.
proof fn lemma_split_effect(m: AxisMove)
    ensures
        same_effect(as_axis_moves(QuarterAxisMove::split(m)), seq![m]),
{
    let q = as_axis_moves(QuarterAxisMove::split(m));
    match m.amount {
        Amount::Double => {
            let m1 = AxisMove { face: m.face, amount: Amount::Single };
            assert(q =~= seq![m1] + seq![m1]);
            assert forall|e: Edge| #[trigger] edge_after(e, q) == edge_after(e, seq![m]) by {
                let c = Corner { position: crate::space::Vec3 { x: Direction::Positive, y: Direction::Positive, z: Direction::Positive }, orientation_axis: crate::space::Axis::X };
                lemma_after_concat(e, c, seq![m1], seq![m1]);
                lemma_after_single(e, c, m1);
                lemma_after_single(edge_after(e, seq![m1]), c, m1);
                lemma_after_single(e, c, m);
                lemma_edge_turn_merge(e, m.face, 1, 1);
            }
            assert forall|c: Corner| #[trigger] corner_after(c, q) == corner_after(c, seq![m]) by {
                let e = Edge { normal_axis: crate::space::Axis::X, slice_position: crate::space::Vec2 { x: Direction::Positive, y: Direction::Positive }, oriented: true };
                lemma_after_concat(e, c, seq![m1], seq![m1]);
                lemma_after_single(e, c, m1);
                lemma_after_single(e, corner_after(c, seq![m1]), m1);
                lemma_after_single(e, c, m);
                lemma_corner_turn_merge(c, m.face, 1, 1);
            }
        },
        _ => {
            assert(q =~= seq![m]);
        },
    }
}

/// The quarter turns of a sequence of face turns do the same as the face turns.
pub proof fn lemma_split_all_effect(moves: Seq<AxisMove>)
    ensures
        same_effect(as_axis_moves(QuarterAxisMove::split_all(moves)), moves),
    decreases moves.len(),
{
    if moves.len() == 0 {
        assert(as_axis_moves(QuarterAxisMove::split_all(moves)) =~= moves);
    } else {
        let init = moves.drop_last();
        let m = moves.last();
        lemma_split_all_effect(init);
        lemma_split_effect(m);
        let a = as_axis_moves(QuarterAxisMove::split_all(init));
        let b = as_axis_moves(QuarterAxisMove::split(m));
        assert(as_axis_moves(QuarterAxisMove::split_all(moves)) =~= a + b);
        lemma_same_effect_congruence(seq![], a, init, b);
        assert(seq![] + a + b =~= a + b);
        assert(seq![] + init + b =~= init + b);
        lemma_same_effect_congruence(init, b, seq![m], seq![]);
        assert(init + b + seq![] =~= init + b);
        assert(init + seq![m] + seq![] =~= moves);
    }
}

impl Alg<AxisMove> {
    /// The same algorithm in the quarter turn metric: half turns become two clockwise quarter
    /// turns. It has one more move for each half turn, and it moves every piece like `self`.
    pub fn to_quarter(self) -> (r: Alg<QuarterAxisMove>)
        ensures
            r.moves@ == QuarterAxisMove::split_all(self.moves@),
            r.moves.len() == self.moves.len() + half_turns(self.moves@),
            same_effect(as_axis_moves(r.moves@), self.moves@),
    {
        proof {
            lemma_split_all_len(self.moves@);
            lemma_split_all_effect(self.moves@);
        }
        let mut output_moves: Vec<QuarterAxisMove> = Vec::new();
        let n = self.moves.len();
        let mut i: usize = 0;
        while i < n
            invariant
                n == self.moves.len(),
                i <= n,
                output_moves@ == QuarterAxisMove::split_all(self.moves@.subrange(0, i as int)),
            decreases n - i,
        {
            let mov = self.moves[i];
            match mov.amount {
                Amount::Single => output_moves.push(QuarterAxisMove::new(mov.face, Direction::Positive)),
                Amount::Inverse => output_moves.push(QuarterAxisMove::new(mov.face, Direction::Negative)),
                Amount::Double => {
                    output_moves.push(QuarterAxisMove::new(mov.face, Direction::Positive));
                    output_moves.push(QuarterAxisMove::new(mov.face, Direction::Positive));
                },
            }
            proof {
                let prefix = self.moves@.subrange(0, i + 1);
                assert(prefix.drop_last() =~= self.moves@.subrange(0, i as int));
                assert(prefix.last() == mov);
            }
            i = i + 1;
            assert(output_moves@ =~= QuarterAxisMove::split_all(self.moves@.subrange(0, i as int)));
        }
        assert(self.moves@.subrange(0, n as int) =~= self.moves@);
        Alg::new(output_moves)
    }
}

} // verus!
