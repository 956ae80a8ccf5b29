//! Non-redundant moves: all the turns of one axis as a single step.

use vstd::prelude::*;

use crate::moves::{Alg, Amount, AxisMove};
use crate::equivalence::{same_effect, lemma_absorb_effect_after, lemma_block_reverse, lemma_same_effect_congruence};
use crate::space::{Axis, Direction, Face};

verus! {

/// A type of move used to prevent redundancies in [AxisMove]s.
///
/// Sequences like `R R` or `R L R' L'` can clearly be simplified. A
/// [NonRedundantAxisMove] holds all the turns of one axis: a turn of one of its faces, or a
/// turn of each of its two faces. Choosing the next one on another axis avoids the obvious
/// redundancies (see [Self::of_axis] and [Self::given_last_axis]).
#[derive(Debug, Clone, Copy, PartialEq, Eq, Structural)]
pub enum NonRedundantAxisMove {
    /// A turn of one face
    Single(AxisMove),
    /// A turn of each of the two faces of the axis
    Double {
        /// The axis of both faces
        axis: Axis,
        /// The turn of the positive face
        amount_positive: Amount,
        /// The turn of the negative face
        amount_negative: Amount,
    },
}

/// What [`absorve`] did with the move.
#[derive(Debug, Clone, Copy, PartialEq, Eq, Structural)]
pub enum AbsorveResult {
    /// The move was merged with the turn of its face. E.g.: `R2 + R => R'`
    Absorved,
    /// The move was added as the turn of the other face of the axis. E.g.: `L + R2 => R2 L`
    Added,
    /// The move is on another axis and was not added. E.g.: `R2 + F`
    NotAdded,
    /// The move cancelled out with the turn of its face. E.g.: `R + R' => None` or
    /// `R2 L + L' => R2`
    Collapsed,
}

/// `None`, `Single`, `Double`, `Inverse` for 0, 1, 2, 3.
pub open spec fn opt_amount(i: int) -> Option<Amount> {
    if i == 1 {
        Some(Amount::Single)
    } else if i == 2 {
        Some(Amount::Double)
    } else if i == 3 {
        Some(Amount::Inverse)
    } else {
        None
    }
}

impl NonRedundantAxisMove {
    /// The axis of the move.
    pub open spec fn axis_of(self) -> Axis {
        match self {
            NonRedundantAxisMove::Single(m) => m.face.axis,
            NonRedundantAxisMove::Double { axis, .. } => axis,
        }
    }

    /// Clockwise quarter turns (in 0..4) that the move makes on the face of its axis with the
    /// given direction.
    pub open spec fn side(self, direction: Direction) -> int {
        match self {
            NonRedundantAxisMove::Single(m) => if m.face.direction == direction {
                m.amount.turns()
            } else {
                0
            },
            NonRedundantAxisMove::Double { amount_positive, amount_negative, .. } => {
                match direction {
                    Direction::Positive => amount_positive.turns(),
                    Direction::Negative => amount_negative.turns(),
                }
            },
        }
    }

    /// The move on `axis` that makes the given turns on the positive and negative faces;
    /// `None` when neither face turns.
    pub open spec fn combine(axis: Axis, positive: Option<Amount>, negative: Option<Amount>) -> Option<NonRedundantAxisMove> {
        match (positive, negative) {
            (None, None) => None,
            (Some(p), None) => Some(NonRedundantAxisMove::Single(AxisMove { face: Face { axis, direction: Direction::Positive }, amount: p })),
            (None, Some(n)) => Some(NonRedundantAxisMove::Single(AxisMove { face: Face { axis, direction: Direction::Negative }, amount: n })),
            (Some(p), Some(n)) => Some(NonRedundantAxisMove::Double { axis, amount_positive: p, amount_negative: n }),
        }
    }

    /// The face turns the move stands for, positive face first.
    pub open spec fn seq(self) -> Seq<AxisMove> {
        match self {
            NonRedundantAxisMove::Single(m) => seq![m],
            NonRedundantAxisMove::Double { axis, amount_positive, amount_negative } => seq![
                AxisMove { face: Face { axis, direction: Direction::Positive }, amount: amount_positive },
                AxisMove { face: Face { axis, direction: Direction::Negative }, amount: amount_negative },
            ],
        }
    }

    /// The 15 moves of one axis, in the order of [`NonRedundantAxisMove::of_axis`].
    pub open spec fn nth_of_axis(axis: Axis, k: int) -> NonRedundantAxisMove {
        NonRedundantAxisMove::combine(axis, opt_amount((k + 1) / 4), opt_amount((k + 1) % 4)).unwrap()
    }

    fn single(axis: Axis, direction: Direction, amount: Amount) -> (r: NonRedundantAxisMove)
        ensures
            r == NonRedundantAxisMove::Single(AxisMove { face: Face { axis, direction }, amount }),
    {
        NonRedundantAxisMove::Single(AxisMove::new(Face::new(axis, direction), amount))
    }

    fn double(axis: Axis, amount_positive: Amount, amount_negative: Amount) -> (r: NonRedundantAxisMove)
        ensures
            r == (NonRedundantAxisMove::Double { axis, amount_positive, amount_negative }),
    {
        NonRedundantAxisMove::Double { axis, amount_positive, amount_negative }
    }

    /// The axis of the move
    pub fn axis(&self) -> (r: Axis)
        ensures
            r == self.axis_of(),
    {
        match self {
            NonRedundantAxisMove::Single(mov) => mov.face.axis,
            NonRedundantAxisMove::Double { axis, .. } => *axis,
        }
    }

    /// The face turns that this move stands for: one or two, positive face first.
    pub fn moves(&self) -> (r: Vec<AxisMove>)
        ensures
            r@ == self.seq(),
    {
        match self {
            NonRedundantAxisMove::Single(mov) => vec![*mov],
            NonRedundantAxisMove::Double { axis, amount_positive, amount_negative } => {
                let r = vec![
                    AxisMove::new(Face::new(*axis, Direction::Positive), *amount_positive),
                    AxisMove::new(Face::new(*axis, Direction::Negative), *amount_negative),
                ];
                assert(r@ =~= self.seq());
                r
            },
        }
    }

    /// All 15 combinations of turns of the faces of the given axis (none of the two faces,
    /// one of the 3 amounts on each): positive amount in the order none, single, double,
    /// inverse, and for each the negative amount in the same order.
    pub fn of_axis(axis: Axis) -> (r: Vec<NonRedundantAxisMove>)
        ensures
            r.len() == 15,
            forall|k: int| 0 <= k < 15 ==> #[trigger] r@[k] == NonRedundantAxisMove::nth_of_axis(axis, k),
    {
        let amounts = [None, Some(Amount::Single), Some(Amount::Double), Some(Amount::Inverse)];
        let mut r: Vec<NonRedundantAxisMove> = Vec::new();
        let mut p: usize = 0;
        while p < 4
            invariant
                p <= 4,
                amounts@ == seq![opt_amount(0), opt_amount(1), opt_amount(2), opt_amount(3)],
                p == 0 ==> r.len() == 0,
                p > 0 ==> r.len() == 4 * p - 1,
                forall|k: int| 0 <= k < r.len() ==> #[trigger] r@[k] == NonRedundantAxisMove::nth_of_axis(axis, k),
            decreases 4 - p,
        {
            let mut n: usize = 0;
            while n < 4
                invariant
                    p < 4,
                    n <= 4,
                    amounts@ == seq![opt_amount(0), opt_amount(1), opt_amount(2), opt_amount(3)],
                    (p == 0 && n == 0) ==> r.len() == 0,
                    !(p == 0 && n == 0) ==> r.len() == 4 * p + n - 1,
                    forall|k: int| 0 <= k < r.len() ==> #[trigger] r@[k] == NonRedundantAxisMove::nth_of_axis(axis, k),
                decreases 4 - n,
            {
                let mv = match (amounts[p], amounts[n]) {
                    (None, None) => None,
                    (Some(pos), None) => Some(Self::single(axis, Direction::Positive, pos)),
                    (None, Some(neg)) => Some(Self::single(axis, Direction::Negative, neg)),
                    (Some(pos), Some(neg)) => Some(Self::double(axis, pos, neg)),
                };
                if let Some(mv) = mv {
                    proof {
                        let k = 4 * p + n - 1;
                        assert((k + 1) / 4 == p && (k + 1) % 4 == n) by (nonlinear_arith)
                            requires
                                k == 4 * p + n - 1,
                                n < 4,
                        ;
                    }
                    r.push(mv);
                }
                n = n + 1;
            }
            p = p + 1;
        }
        r
    }

    /// Every non-redundant move whose axis is not `last_axis`: the 15 moves of the next axis
    /// followed by the 15 moves of the axis after it.
    pub fn given_last_axis(last_axis: &Axis) -> (r: Vec<NonRedundantAxisMove>)
        ensures
            r.len() == 30,
            forall|k: int| 0 <= k < 15 ==> #[trigger] r@[k] == NonRedundantAxisMove::nth_of_axis(last_axis.succ(), k),
            forall|k: int| 15 <= k < 30 ==> #[trigger] r@[k] == NonRedundantAxisMove::nth_of_axis(last_axis.succ().succ(), k - 15),
    {
        let basis = Axis::basis(last_axis);
        let mut r = Self::of_axis(basis[0]);
        let mut second = Self::of_axis(basis[1]);
        r.append(&mut second);
        r
    }

    /// Every non-redundant move: the 15 moves of X, then those of Y, then those of Z.
    pub fn all() -> (r: Vec<NonRedundantAxisMove>)
        ensures
            r.len() == 45,
            forall|k: int| 0 <= k < 45 ==> #[trigger] r@[k] == NonRedundantAxisMove::nth_of_axis(Axis::at(k / 15), k % 15),
    {
        let mut r = Self::of_axis(Axis::X);
        let mut y = Self::of_axis(Axis::Y);
        let mut z = Self::of_axis(Axis::Z);
        let ghost ys = y@;
        let ghost zs = z@;
        r.append(&mut y);
        r.append(&mut z);
        assert forall|k: int| 0 <= k < 45 implies #[trigger] r@[k] == NonRedundantAxisMove::nth_of_axis(Axis::at(k / 15), k % 15) by {
            if k < 15 {
            } else if k < 30 {
                assert(r@[k] == ys[k - 15]);
            } else {
                assert(r@[k] == zs[k - 30]);
            }
        }
        r
    }
}

/// Clockwise quarter turns (in 0..4) made on the face of direction `d` of the axis of the move,
/// if any.
pub open spec fn side_of(o: Option<NonRedundantAxisMove>, d: Direction) -> int {
    match o {
        None => 0,
        Some(n) => n.side(d),
    }
}

/// The non-redundant move that does `o` and then `other`, when `other` is on the axis of `o`
/// (or `o` is empty): the turns of `other` add up (modulo 4) with those of its face.
pub open spec fn absorbed(o: Option<NonRedundantAxisMove>, other: AxisMove) -> Option<NonRedundantAxisMove> {
    let added = |d: Direction| if other.face.direction == d { other.amount.turns() } else { 0 };
    NonRedundantAxisMove::combine(
        other.face.axis,
        opt_amount((side_of(o, Direction::Positive) + added(Direction::Positive)) % 4),
        opt_amount((side_of(o, Direction::Negative) + added(Direction::Negative)) % 4),
    )
}

/// Tries to absorve an [AxisMove] into a [NonRedundantAxisMove].
///
/// "Absorving" modifies the non-redundant move so that the result is the same as doing both
/// moves one after the other. An empty move absorves anything; a move on another axis is not
/// added.
#[verifier::rlimit(40)]
pub fn absorve(nr_move_option: &mut Option<NonRedundantAxisMove>, other: &AxisMove) -> (r: AbsorveResult)
    ensures
        (*old(nr_move_option)) is None ==> *final(nr_move_option) == Some(
            NonRedundantAxisMove::Single(*other),
        ) && r == AbsorveResult::Absorved,
        ((*old(nr_move_option)) matches Some(n) && n.axis_of() != other.face.axis) ==> (
        *final(nr_move_option) == *old(nr_move_option) && r == AbsorveResult::NotAdded),
        ((*old(nr_move_option)) matches Some(n) && n.axis_of() == other.face.axis) ==> (
        *final(nr_move_option) == absorbed(*old(nr_move_option), *other) && r == (if side_of(
            *old(nr_move_option),
            other.face.direction,
        ) == 0 {
            AbsorveResult::Added
        } else if (side_of(*old(nr_move_option), other.face.direction) + other.amount.turns()) % 4 == 0 {
            AbsorveResult::Collapsed
        } else {
            AbsorveResult::Absorved
        })),
        (*old(nr_move_option)) is None ==> *final(nr_move_option) == absorbed(
            *old(nr_move_option),
            *other,
        ),
{
    let current = *nr_move_option;
    match current {
        None => {
            *nr_move_option = Some(NonRedundantAxisMove::Single(*other));
            AbsorveResult::Absorved
        },
        Some(NonRedundantAxisMove::Single(mov)) => {
            if mov.face.axis != other.face.axis {
                return AbsorveResult::NotAdded;
            }
            if mov.face.direction == other.face.direction {
                match mov.amount.add(other.amount) {
                    Some(amount) => {
                        *nr_move_option = Some(
                            NonRedundantAxisMove::Single(AxisMove::new(mov.face, amount)),
                        );
                        AbsorveResult::Absorved
                    },
                    None => {
                        *nr_move_option = None;
                        AbsorveResult::Collapsed
                    },
                }
            } else if mov.face.direction == Direction::Positive {
                *nr_move_option = Some(
                    NonRedundantAxisMove::double(mov.face.axis, mov.amount, other.amount),
                );
                AbsorveResult::Added
            } else {
                *nr_move_option = Some(
                    NonRedundantAxisMove::double(mov.face.axis, other.amount, mov.amount),
                );
                AbsorveResult::Added
            }
        },
        Some(NonRedundantAxisMove::Double { axis, amount_positive, amount_negative }) => {
            if axis != other.face.axis {
                return AbsorveResult::NotAdded;
            }
            let (match_amount, other_amount) = match other.face.direction {
                Direction::Positive => (amount_positive, amount_negative),
                Direction::Negative => (amount_negative, amount_positive),
            };
            match match_amount.add(other.amount) {
                Some(amount) => {
                    *nr_move_option = Some(
                        match other.face.direction {
                            Direction::Positive => NonRedundantAxisMove::double(
                                axis,
                                amount,
                                amount_negative,
                            ),
                            Direction::Negative => NonRedundantAxisMove::double(
                                axis,
                                amount_positive,
                                amount,
                            ),
                        },
                    );
                    AbsorveResult::Absorved
                },
                None => {
                    *nr_move_option = Some(
                        NonRedundantAxisMove::single(
                            axis,
                            other.face.direction.neg(),
                            other_amount,
                        ),
                    );
                    AbsorveResult::Collapsed
                },
            }
        },
    }
}

/// The face turns of an optional non-redundant move (none for `None`).
pub open spec fn opt_seq(o: Option<NonRedundantAxisMove>) -> Seq<AxisMove> {
    match o {
        None => seq![],
        Some(n) => n.seq(),
    }
}

/// The turns of a combined move are the ones it was made with, and it is empty exactly when
/// both are.
pub proof fn lemma_combine_sides(axis: Axis, x: int, y: int)
    requires
        0 <= x < 4,
        0 <= y < 4,
    ensures
        side_of(NonRedundantAxisMove::combine(axis, opt_amount(x), opt_amount(y)), Direction::Positive) == x,
        side_of(NonRedundantAxisMove::combine(axis, opt_amount(x), opt_amount(y)), Direction::Negative) == y,
        NonRedundantAxisMove::combine(axis, opt_amount(x), opt_amount(y)) is None <==> (x == 0 && y == 0),
        NonRedundantAxisMove::combine(axis, opt_amount(x), opt_amount(y)) matches Some(n) ==> n.axis_of() == axis,
{
}

/// The number of face turns of a non-redundant move is the number of its faces that turn, and
/// each of its sides is a number of turns in 0..4.
pub proof fn lemma_opt_seq_len(o: Option<NonRedundantAxisMove>)
    ensures
        opt_seq(o).len() == (if side_of(o, Direction::Positive) != 0 { 1int } else { 0int }) + (
        if side_of(o, Direction::Negative) != 0 {
            1int
        } else {
            0int
        }),
        0 <= side_of(o, Direction::Positive) < 4,
        0 <= side_of(o, Direction::Negative) < 4,
        o is Some ==> side_of(o, Direction::Positive) != 0 || side_of(o, Direction::Negative) != 0,
{
}

/// The face turns of a non-redundant move as a normalized algorithm writes them: the turn of
/// the negative face first.
pub open spec fn written(n: NonRedundantAxisMove) -> Seq<AxisMove> {
    n.seq().reverse()
}

/// The face turns of a sequence of non-redundant moves, each written as by [`written`].
pub open spec fn written_all(groups: Seq<NonRedundantAxisMove>) -> Seq<AxisMove>
    decreases groups.len(),
{
    if groups.len() == 0 {
        seq![]
    } else {
        written_all(groups.drop_last()) + written(groups.last())
    }
}

/// One step of the merging: the move `m` is merged into the last non-redundant move when it is
/// on the same axis (which is dropped when the turns cancel out), and starts a new one
/// otherwise.
pub open spec fn merge_step(groups: Seq<NonRedundantAxisMove>, m: AxisMove) -> Seq<NonRedundantAxisMove> {
    if groups.len() > 0 && groups.last().axis_of() == m.face.axis {
        match absorbed(Some(groups.last()), m) {
            None => groups.drop_last(),
            Some(n) => groups.drop_last().push(n),
        }
    } else {
        groups.push(NonRedundantAxisMove::Single(m))
    }
}

/// The moves of `s`, merged one after the other by [`merge_step`].
pub open spec fn merged(s: Seq<AxisMove>) -> Seq<NonRedundantAxisMove>
    decreases s.len(),
{
    if s.len() == 0 {
        seq![]
    } else {
        merge_step(merged(s.drop_last()), s.last())
    }
}

/// The normalized form of a sequence of moves: its merged non-redundant moves, written out.
pub open spec fn normalize(s: Seq<AxisMove>) -> Seq<AxisMove> {
    written_all(merged(s))
}

/// A sequence without the obvious redundancies: two consecutive moves on one axis are a turn of
/// the negative face followed by a turn of the positive face. So no two consecutive moves turn
/// the same face, and no three consecutive moves are on the same axis.
pub open spec fn is_normalized(s: Seq<AxisMove>) -> bool {
    forall|i: int, j: int|
        #![trigger s[i], s[j]]
        0 <= i && j == i + 1 && j < s.len() && s[i].face.axis == s[j].face.axis ==> s[i].face.direction
            == Direction::Negative && s[j].face.direction == Direction::Positive
}

/// Consecutive non-redundant moves are on different axes.
pub open spec fn axes_alternate(groups: Seq<NonRedundantAxisMove>) -> bool {
    forall|i: int, j: int|
        #![trigger groups[i], groups[j]]
        0 <= i && j == i + 1 && j < groups.len() ==> groups[i].axis_of() != groups[j].axis_of()
}

/// A written non-redundant move is one or two turns of its axis, normalized.
proof fn lemma_written(n: NonRedundantAxisMove)
    ensures
        1 <= written(n).len() <= 2,
        written(n).len() == n.seq().len(),
        forall|k: int| 0 <= k < written(n).len() ==> (#[trigger] written(n)[k]).face.axis == n.axis_of(),
        is_normalized(written(n)),
{
    match n {
        NonRedundantAxisMove::Single(m) => {
            assert(written(n) =~= seq![m]);
        },
        NonRedundantAxisMove::Double { axis, amount_positive, amount_negative } => {
            assert(written(n) =~= seq![
                AxisMove { face: Face { axis, direction: Direction::Negative }, amount: amount_negative },
                AxisMove { face: Face { axis, direction: Direction::Positive }, amount: amount_positive },
            ]);
        },
    }
}

/// Writing one more non-redundant move appends its turns.
proof fn lemma_written_all_push(groups: Seq<NonRedundantAxisMove>, n: NonRedundantAxisMove)
    ensures
        written_all(groups.push(n)) == written_all(groups) + written(n),
{
    assert(groups.push(n).drop_last() =~= groups);
}

/// Written non-redundant moves on alternating axes are normalized, and the last written turn is
/// on the axis of the last move.
proof fn lemma_written_all_normalized(groups: Seq<NonRedundantAxisMove>)
    requires
        axes_alternate(groups),
    ensures
        is_normalized(written_all(groups)),
        groups.len() > 0 ==> written_all(groups).len() > 0 && written_all(groups).last().face.axis
            == groups.last().axis_of(),
    decreases groups.len(),
{
    if groups.len() > 0 {
        let init = groups.drop_last();
        let n = groups.last();
        assert(axes_alternate(init)) by {
            assert forall|i: int, j: int| 0 <= i && j == i + 1 && j < init.len() implies init[i].axis_of() != init[j].axis_of() by {
                assert(init[i] == groups[i] && init[j] == groups[j]);
            }
        }
        lemma_written_all_normalized(init);
        lemma_written(n);
        let a = written_all(init);
        let b = written(n);
        let w = a + b;
        assert(written_all(groups) == w);
        assert(w.last() == b[b.len() - 1]);
        assert forall|i: int, j: int|
            0 <= i && j == i + 1 && j < w.len() && w[i].face.axis == w[j].face.axis implies w[i].face.direction
                == Direction::Negative && w[j].face.direction == Direction::Positive by {
            if j < a.len() {
                assert(w[i] == a[i] && w[j] == a[j]);
            } else if i >= a.len() {
                assert(w[i] == b[i - a.len()] && w[j] == b[j - a.len()]);
            } else {
                assert(w[i] == a.last());
                assert(w[j] == b[0]);
                assert(groups[groups.len() - 2] == init.last());
                assert(groups[groups.len() - 2].axis_of() != groups[groups.len() - 1].axis_of());
            }
        }
    }
}

/// Merging keeps the axes alternating.
proof fn lemma_merged_alternate(s: Seq<AxisMove>)
    ensures
        axes_alternate(merged(s)),
    decreases s.len(),
{
    if s.len() > 0 {
        let g = merged(s.drop_last());
        let m = s.last();
        lemma_merged_alternate(s.drop_last());
        let g2 = merged(s);
        assert(g2 == merge_step(g, m));
        if g.len() > 0 && g.last().axis_of() == m.face.axis {
            let l = g.last();
            lemma_opt_seq_len(Some(l));
            let sp = side_of(Some(l), Direction::Positive);
            let sn = side_of(Some(l), Direction::Negative);
            let t = m.amount.turns();
            let added_p = if m.face.direction == Direction::Positive { t } else { 0 };
            let added_n = if m.face.direction == Direction::Negative { t } else { 0 };
            lemma_combine_sides(m.face.axis, (sp + added_p) % 4, (sn + added_n) % 4);
            assert forall|i: int, j: int| 0 <= i && j == i + 1 && j < g2.len() implies g2[i].axis_of() != g2[j].axis_of() by {
                assert(g2[i].axis_of() == g[i].axis_of());
                assert(g2[j].axis_of() == g[j].axis_of());
            }
        } else {
            assert forall|i: int, j: int| 0 <= i && j == i + 1 && j < g2.len() implies g2[i].axis_of() != g2[j].axis_of() by {
                if j < g.len() {
                    assert(g2[i] == g[i] && g2[j] == g[j]);
                } else {
                    assert(g2[i] == g.last());
                }
            }
        }
    }
}

/// Merging one more move adds at most one turn to the written form, and does the same as doing
/// the move after the written form.
proof fn lemma_merge_step(g: Seq<NonRedundantAxisMove>, m: AxisMove)
    ensures
        written_all(merge_step(g, m)).len() <= written_all(g).len() + 1,
        same_effect(written_all(merge_step(g, m)), written_all(g) + seq![m]),
{
    if g.len() > 0 && g.last().axis_of() == m.face.axis {
        let init = g.drop_last();
        let l = g.last();
        let o2 = absorbed(Some(l), m);
        assert(g =~= init.push(l));
        lemma_written_all_push(init, l);
        lemma_opt_seq_len(Some(l));
        lemma_opt_seq_len(o2);
        let sp = side_of(Some(l), Direction::Positive);
        let sn = side_of(Some(l), Direction::Negative);
        let t = m.amount.turns();
        let added_p = if m.face.direction == Direction::Positive { t } else { 0 };
        let added_n = if m.face.direction == Direction::Negative { t } else { 0 };
        lemma_combine_sides(m.face.axis, (sp + added_p) % 4, (sn + added_n) % 4);
        let a = written_all(init);
        // written(l) + [m] ~ opt_seq(l) + [m] ~ opt_seq(o2) ~ opt_seq(o2).reverse()
        lemma_block_reverse(Some(l));
        lemma_same_effect_congruence(seq![], opt_seq(Some(l)).reverse(), opt_seq(Some(l)), seq![m]);
        assert(seq![] + opt_seq(Some(l)).reverse() + seq![m] =~= written(l) + seq![m]);
        assert(seq![] + opt_seq(Some(l)) + seq![m] =~= opt_seq(Some(l)) + seq![m]);
        lemma_absorb_effect_after(Some(l), m);
        lemma_block_reverse(o2);
        assert(same_effect(opt_seq(o2).reverse(), written(l) + seq![m]));
        lemma_same_effect_congruence(a, opt_seq(o2).reverse(), written(l) + seq![m], seq![]);
        assert(a + opt_seq(o2).reverse() + seq![] =~= a + opt_seq(o2).reverse());
        assert(a + (written(l) + seq![m]) + seq![] =~= written_all(g) + seq![m]);
        match o2 {
            None => {
                assert(opt_seq(o2).reverse() =~= seq![]);
                assert(a + opt_seq(o2).reverse() =~= a);
                assert(merge_step(g, m) == init);
            },
            Some(n) => {
                assert(merge_step(g, m) == init.push(n));
                lemma_written_all_push(init, n);
                assert(opt_seq(o2).reverse() == written(n));
            },
        }
    } else {
        lemma_written_all_push(g, NonRedundantAxisMove::Single(m));
        assert(written(NonRedundantAxisMove::Single(m)) =~= seq![m]);
    }
}

/// The normalized form is never longer and does the same as the original sequence.
proof fn lemma_normalize(s: Seq<AxisMove>)
    ensures
        normalize(s).len() <= s.len(),
        same_effect(normalize(s), s),
    decreases s.len(),
{
    if s.len() == 0 {
    } else {
        let init = s.drop_last();
        let m = s.last();
        lemma_normalize(init);
        lemma_merge_step(merged(init), m);
        assert(normalize(s) == written_all(merge_step(merged(init), m)));
        lemma_same_effect_congruence(seq![], normalize(init), init, seq![m]);
        assert(seq![] + normalize(init) + seq![m] =~= written_all(merged(init)) + seq![m]);
        assert(seq![] + init + seq![m] =~= s);
    }
}

/// The normalized form of a sequence has no obvious redundancies.
pub proof fn lemma_normalize_normalized(s: Seq<AxisMove>)
    ensures
        is_normalized(normalize(s)),
{
    lemma_merged_alternate(s);
    lemma_written_all_normalized(merged(s));
}

/// In a normalized sequence no two consecutive moves turn the same face and no three
/// consecutive moves are on the same axis.
pub proof fn lemma_normalized_no_repeats(s: Seq<AxisMove>)
    requires
        is_normalized(s),
    ensures
        forall|i: int, j: int|
            #![trigger s[i], s[j]]
            0 <= i && j == i + 1 && j < s.len() ==> s[i].face != s[j].face,
        forall|i: int, j: int, k: int|
            #![trigger s[i], s[j], s[k]]
            0 <= i && j == i + 1 && k == i + 2 && k < s.len() ==> !(s[i].face.axis == s[j].face.axis
                && s[j].face.axis == s[k].face.axis),
{
    assert forall|i: int, j: int, k: int|
        0 <= i && j == i + 1 && k == i + 2 && k < s.len() implies !(s[i].face.axis == s[j].face.axis
            && s[j].face.axis == s[k].face.axis) by {
        assert(k == j + 1);
    }
}

/// The turns of `n` as written, negative face first, pushed to `out`.
fn write_move(n: &NonRedundantAxisMove, out: &mut Vec<AxisMove>)
    ensures
        final(out)@ == old(out)@ + written(*n),
{
    let ms = n.moves();
    let mut k: usize = ms.len();
    while k > 0
        invariant
            k <= ms.len(),
            ms@ == n.seq(),
            out@ == old(out)@ + ms@.subrange(k as int, ms.len() as int).reverse(),
        decreases k,
    {
        k = k - 1;
        out.push(ms[k]);
        assert(ms@.subrange(k as int, ms.len() as int).reverse() =~= ms@.subrange(
            k as int + 1,
            ms.len() as int,
        ).reverse().push(ms@[k as int]));
    }
    assert(ms@.subrange(0, ms.len() as int) =~= ms@);
}

impl Alg<AxisMove> {
    /// Returns an algorithm that does the same thing as `self`, with redundant moves removed:
    /// consecutive turns of the same axis are merged (the turn of the negative face written
    /// first), turns that cancel out are dropped, and merging goes on with what comes before
    /// them. E.g. `L' F R' L2 R L2 F' L B F B D` gives `B2 F D`.
    ///
    /// The result is [`normalize`] of the moves: it moves every edge and every corner like
    /// `self`, it is never longer, and it has no obvious redundancies ([`is_normalized`]).
    pub fn normalized(self) -> (r: Alg<AxisMove>)
        ensures
            r.moves@ == normalize(self.moves@),
            same_effect(r.moves@, self.moves@),
            r.moves.len() <= self.moves.len(),
            is_normalized(r.moves@),
    {
        let mut groups: Vec<NonRedundantAxisMove> = Vec::new();
        let mut i: usize = 0;
        while i < self.moves.len()
            invariant
                i <= self.moves.len(),
                groups@ == merged(self.moves@.take(i as int)),
            decreases self.moves.len() - i,
        {
            let m = self.moves[i];
            let ghost before = groups@;
            let n = groups.len();
            if n > 0 && groups[n - 1].axis() == m.face.axis {
                let mut last = groups.pop();
                absorve(&mut last, &m);
                if let Some(g) = last {
                    groups.push(g);
                }
            } else {
                groups.push(NonRedundantAxisMove::Single(m));
            }
            proof {
                assert(self.moves@.take(i as int + 1).drop_last() =~= self.moves@.take(i as int));
                assert(self.moves@.take(i as int + 1).last() == m);
                assert(groups@ =~= merge_step(before, m));
            }
            i = i + 1;
        }
        proof {
            assert(self.moves@.take(self.moves.len() as int) =~= self.moves@);
        }
        let mut out: Vec<AxisMove> = Vec::new();
        let mut j: usize = 0;
        while j < groups.len()
            invariant
                j <= groups.len(),
                groups@ == merged(self.moves@),
                out@ == written_all(groups@.take(j as int)),
            decreases groups.len() - j,
        {
            write_move(&groups[j], &mut out);
            proof {
                assert(groups@.take(j as int + 1) =~= groups@.take(j as int).push(groups@[j as int]));
                lemma_written_all_push(groups@.take(j as int), groups@[j as int]);
            }
            j = j + 1;
        }
        proof {
            assert(groups@.take(groups.len() as int) =~= groups@);
            lemma_normalize(self.moves@);
            lemma_normalize_normalized(self.moves@);
        }
        Alg::new(out)
    }
}

} // verus!
