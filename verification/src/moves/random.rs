//! Random algorithms, without the obvious redundancies.

use vstd::prelude::*;

use rand::rngs::StdRng;
use rand::seq::IteratorRandom;
use rand::rngs::OsRng;
use rand::SeedableRng;

use crate::moves::non_redundant::{opt_amount, NonRedundantAxisMove};
use crate::moves::{Alg, AxisMove};
use crate::space::Axis;

verus! {

/// The standard random number generator of `rand`.
#[verifier::external_type_specification]
#[verifier::external_body]
pub struct ExStdRng(StdRng);

/// Picks one of the moves at random, with `rand`'s `IteratorRandom::choose` on their iterator.
/// Its documentation promises `None` exactly when there are none; otherwise the result is one of
/// them. Which one depends on the generator's state and is not stated.
#[verifier::external_body]
fn choose_move(options: Vec<NonRedundantAxisMove>, rng: &mut StdRng) -> (r: Option<
    NonRedundantAxisMove,
>)
    ensures
        r is None <==> options.len() == 0,
        r matches Some(m) ==> options@.contains(m),
{
    options.into_iter().choose(rng)
}

/// A generator seeded by the operating system, with `rand`'s `StdRng::from_rng` on `OsRng`.
/// `None` when the operating system cannot provide the seed (the error of `from_rng`, which
/// does not panic). Nothing is stated of which it is, nor of the generator's state.
#[verifier::external_body]
fn entropy_rng() -> Option<StdRng> {
    StdRng::from_rng(OsRng).ok()
}

/// No two consecutive moves turn the same face, and no three consecutive moves are on the same
/// axis.
pub open spec fn no_obvious_repeats(s: Seq<AxisMove>) -> bool {
    &&& forall|i: int, j: int|
        #![trigger s[i], s[j]]
        0 <= i && j == i + 1 && j < s.len() ==> s[i].face != s[j].face
    &&& forall|i: int, j: int, k: int|
        #![trigger s[i], s[j], s[k]]
        0 <= i && j == i + 1 && k == j + 1 && k < s.len() ==> !(s[i].face.axis == s[j].face.axis
            && s[j].face.axis == s[k].face.axis)
}

/// Appending the turns of a non-redundant move on another axis than the last move keeps a
/// sequence free of obvious repeats.
proof fn lemma_append_block(before: Seq<AxisMove>, n: NonRedundantAxisMove)
    requires
        no_obvious_repeats(before),
        before.len() > 0 ==> before.last().face.axis != n.axis_of(),
    ensures
        no_obvious_repeats(before + n.seq()),
{
    let b = n.seq();
    let w = before + b;
    let l = before.len();
    assert(1 <= b.len() <= 2);
    assert(forall|x: int| 0 <= x < b.len() ==> (#[trigger] b[x]).face.axis == n.axis_of());
    assert(b.len() == 2 ==> b[0].face != b[1].face);
    assert forall|i: int, j: int| 0 <= i && j == i + 1 && j < w.len() implies w[i].face != w[j].face by {
        if j < l {
            assert(w[i] == before[i] && w[j] == before[j]);
        } else if i >= l {
            assert(w[i] == b[i - l] && w[j] == b[j - l]);
        } else {
            assert(w[i] == before.last());
            assert(w[j] == b[0]);
        }
    }
    assert forall|i: int, j: int, k: int|
        0 <= i && j == i + 1 && k == j + 1 && k < w.len() implies !(w[i].face.axis == w[j].face.axis
            && w[j].face.axis == w[k].face.axis) by {
        if k < l {
            assert(w[i] == before[i] && w[j] == before[j] && w[k] == before[k]);
        } else if j == l - 1 {
            assert(w[j] == before.last());
            assert(w[k] == b[0]);
        } else {
            assert(i == l - 1);
            assert(w[i] == before.last());
            assert(w[j] == b[0]);
        }
    }
}

proof fn lemma_nth_of_axis(axis: Axis, k: int)
    requires
        0 <= k < 15,
    ensures
        NonRedundantAxisMove::nth_of_axis(axis, k).axis_of() == axis,
        forall|i: int|
            0 <= i < NonRedundantAxisMove::nth_of_axis(axis, k).seq().len() ==> (#[trigger] NonRedundantAxisMove::nth_of_axis(
                axis,
                k,
            ).seq()[i]).face.axis == axis,
        1 <= NonRedundantAxisMove::nth_of_axis(axis, k).seq().len() <= 2,
{
    crate::moves::non_redundant::lemma_combine_sides(axis, (k + 1) / 4, (k + 1) % 4);
    let n = NonRedundantAxisMove::nth_of_axis(axis, k);
    assert(NonRedundantAxisMove::combine(axis, opt_amount((k + 1) / 4), opt_amount((k + 1) % 4)) == Some(n));
}

impl Alg<AxisMove> {
    /// A random algorithm of `length` moves (one more when the last step turns both faces of
    /// an axis), drawn with `rng`.
    ///
    /// It is made of non-redundant moves (see [NonRedundantAxisMove]): the first is any of
    /// them, and each of the others is on another axis than the move before it. So no two
    /// consecutive moves turn the same face, and no three consecutive moves share an axis.
    pub fn random_with_rng(length: usize, rng: &mut StdRng) -> (r: Alg<AxisMove>)
        requires
            length < usize::MAX,
        ensures
            length <= r.moves.len() <= length + 1,
            length == 0 ==> r.moves.len() == 0,
            no_obvious_repeats(r.moves@),
    {
        let mut moves: Vec<AxisMove> = Vec::new();
        while moves.len() < length
            invariant
                length < usize::MAX,
                moves.len() <= length + 1,
                length == 0 ==> moves.len() == 0,
                no_obvious_repeats(moves@),
            decreases length + 1 - moves.len(),
        {
            let n = moves.len();
            let chosen = if n > 0 {
                let last_axis = moves[n - 1].face.axis;
                let options = NonRedundantAxisMove::given_last_axis(&last_axis);
                let c = choose_move(options, rng);
                proof {
                    if let Some(m) = c {
                        let k = choose|k: int| 0 <= k < options.len() && options@[k] == m;
                        if k < 15 {
                            lemma_nth_of_axis(last_axis.succ(), k);
                        } else {
                            lemma_nth_of_axis(last_axis.succ().succ(), k - 15);
                        }
                        assert(m.axis_of() != last_axis);
                    }
                }
                c
            } else {
                let options = NonRedundantAxisMove::all();
                let c = choose_move(options, rng);
                proof {
                    if let Some(m) = c {
                        let k = choose|k: int| 0 <= k < options.len() && options@[k] == m;
                        lemma_nth_of_axis(Axis::at(k / 15), k % 15);
                    }
                }
                c
            };
            let chosen = match chosen {
                Some(c) => c,
                None => {
                    return Alg::new(moves);
                },
            };
            let ghost before = moves@;
            proof {
                lemma_append_block(before, chosen);
            }
            let block = chosen.moves();
            let mut i: usize = 0;
            while i < block.len()
                invariant
                    block@ == chosen.seq(),
                    1 <= block.len() <= 2,
                    i <= block.len(),
                    moves@ == before + block@.take(i as int),
                    before.len() < length < usize::MAX,
                decreases block.len() - i,
            {
                moves.push(block[i]);
                i = i + 1;
            }
            proof {
                assert(block@.take(block.len() as int) =~= block@);
            }
        }
        Alg::new(moves)
    }

    /// A random algorithm of `length` moves (see [Alg::random_with_rng]), drawn with a
    /// generator seeded by the operating system; `None` when the operating system cannot
    /// provide a seed.
    pub fn random(length: usize) -> (r: Option<Alg<AxisMove>>)
        requires
            length < usize::MAX,
        ensures
            r matches Some(alg) ==> length <= alg.moves.len() <= length + 1 && (length == 0
                ==> alg.moves.len() == 0) && no_obvious_repeats(alg.moves@),
    {
        match entropy_rng() {
            Some(mut rng) => Some(Alg::random_with_rng(length, &mut rng)),
            None => None,
        }
    }
}

} // verus!
