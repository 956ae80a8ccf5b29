//! Moves for NxNxN cubes: face turns, their amounts, and sequences of them.

pub mod extended;
pub mod non_redundant;
pub mod quarter;
pub mod random;
pub mod rotation;
pub mod wide;

use vstd::prelude::*;

use crate::space::{Axis, Direction, Face};

verus! {

/// A move amount: a quarter turn clockwise, a half turn, or a quarter turn counterclockwise.
#[derive(Debug, Clone, Copy, PartialEq, Eq, Hash, Structural)]
pub enum Amount {
    /// A quarter turn clockwise
    Single,
    /// A half turn
    Double,
    /// A quarter turn counterclockwise
    Inverse,
}

impl Amount {
    /// The number of clockwise quarter turns of the amount (1, 2 or 3).
    pub open spec fn turns(self) -> int {
        match self {
            Amount::Single => 1,
            Amount::Double => 2,
            Amount::Inverse => 3,
        }
    }

    /// The amount that makes the given number of clockwise quarter turns (taken modulo 4),
    /// if it is not a multiple of 4.
    pub open spec fn of_turns(n: int) -> Option<Amount> {
        if n % 4 == 1 {
            Some(Amount::Single)
        } else if n % 4 == 2 {
            Some(Amount::Double)
        } else if n % 4 == 3 {
            Some(Amount::Inverse)
        } else {
            None
        }
    }

    /// The three amounts, in the order Single, Double, Inverse.
    pub open spec fn all_amounts() -> Seq<Amount> {
        seq![Amount::Single, Amount::Double, Amount::Inverse]
    }

    /// Multiplies an amount by a direction: a negative direction reverses the turn.
    pub fn mul(self, rhs: Direction) -> (r: Amount)
        ensures
            r.turns() == (self.turns() * rhs.sign()) % 4,
            rhs == Direction::Positive ==> r == self,
    {
        match (self, rhs) {
            (Amount::Single, Direction::Positive) | (Amount::Inverse, Direction::Negative) => {
                Amount::Single
            },
            (Amount::Double, _) => Amount::Double,
            (Amount::Inverse, Direction::Positive) | (Amount::Single, Direction::Negative) => {
                Amount::Inverse
            },
        }
    }

    /// Adds two amounts. Returns `None` if they cancel out.
    pub fn add(self, rhs: Amount) -> (r: Option<Amount>)
        ensures
            r == Amount::of_turns(self.turns() + rhs.turns()),
    {
        match (self, rhs) {
            (Amount::Single, Amount::Single) => Some(Amount::Double),
            (Amount::Single, Amount::Double) => Some(Amount::Inverse),
            (Amount::Single, Amount::Inverse) => None,
            (Amount::Double, Amount::Single) => Some(Amount::Inverse),
            (Amount::Double, Amount::Double) => None,
            (Amount::Double, Amount::Inverse) => Some(Amount::Single),
            (Amount::Inverse, Amount::Single) => None,
            (Amount::Inverse, Amount::Double) => Some(Amount::Single),
            (Amount::Inverse, Amount::Inverse) => Some(Amount::Double),
        }
    }

    /// The quarter turn in the given direction: clockwise for positive, counterclockwise for
    /// negative.
    pub fn from_direction(value: Direction) -> (r: Amount)
        ensures
            r.turns() == value.sign() % 4,
    {
        match value {
            Direction::Positive => Amount::Single,
            Direction::Negative => Amount::Inverse,
        }
    }

    /// The suffix of the amount in standard notation: nothing, `2` or `'`.
    pub open spec fn suffix(self) -> Seq<char> {
        match self {
            Amount::Single => seq![],
            Amount::Double => seq!['2'],
            Amount::Inverse => seq!['\''],
        }
    }
}

/// A face turn on an NxNxN cube.
#[derive(Debug, Clone, Copy, PartialEq, Eq, Hash, Structural)]
pub struct AxisMove {
    /// The face that is being rotated
    pub face: Face,
    /// The amount of rotation
    pub amount: Amount,
}

impl AxisMove {
    /// Creates a new move
    pub fn new(face: Face, amount: Amount) -> (r: AxisMove)
        ensures
            r == (AxisMove { face, amount }),
    {
        AxisMove { face, amount }
    }

    /// The move that undoes this one: same face, reversed amount.
    pub open spec fn inv(self) -> AxisMove {
        AxisMove {
            face: self.face,
            amount: match self.amount {
                Amount::Single => Amount::Inverse,
                Amount::Double => Amount::Double,
                Amount::Inverse => Amount::Single,
            },
        }
    }

    /// The move that undoes this one.
    pub fn inverse(&self) -> (r: AxisMove)
        ensures
            r == self.inv(),
            r.face == self.face,
            (r.amount.turns() + self.amount.turns()) % 4 == 0,
    {
        AxisMove { face: self.face, amount: self.amount.mul(Direction::Negative) }
    }

    /// The move at position `i` of the enumeration of all 18 moves: axes X, Y, Z, then
    /// directions positive, negative, then amounts single, double, inverse.
    pub open spec fn nth(i: int) -> AxisMove {
        AxisMove {
            face: Face {
                axis: Axis::at(i / 6),
                direction: if (i / 3) % 2 == 0 {
                    Direction::Positive
                } else {
                    Direction::Negative
                },
            },
            amount: Amount::all_amounts()[i % 3],
        }
    }

    /// Position of the move in the enumeration of all moves (see [`AxisMove::nth`]).
    pub open spec fn ord(self) -> int {
        6 * self.face.axis.ord() + 3 * (if self.face.direction == Direction::Positive {
            0int
        } else {
            1int
        }) + (self.amount.turns() - 1)
    }

    /// Returns all 18 moves, in the order of [`AxisMove::nth`].
    pub fn all() -> (r: Vec<AxisMove>)
        ensures
            r.len() == 18,
            forall|i: int| 0 <= i < 18 ==> #[trigger] r@[i] == AxisMove::nth(i),
    {
        let axes = [Axis::X, Axis::Y, Axis::Z];
        let directions = [Direction::Positive, Direction::Negative];
        let amounts = [Amount::Single, Amount::Double, Amount::Inverse];
        let mut r: Vec<AxisMove> = Vec::new();
        let mut a: usize = 0;
        while a < 3
            invariant
                a <= 3,
                r.len() == 6 * a,
                axes@ == seq![Axis::X, Axis::Y, Axis::Z],
                directions@ == seq![Direction::Positive, Direction::Negative],
                amounts@ == Amount::all_amounts(),
                forall|i: int| 0 <= i < r.len() ==> #[trigger] r@[i] == AxisMove::nth(i),
            decreases 3 - a,
        {
            let mut d: usize = 0;
            while d < 2
                invariant
                    a < 3,
                    d <= 2,
                    r.len() == 6 * a + 3 * d,
                    axes@ == seq![Axis::X, Axis::Y, Axis::Z],
                    directions@ == seq![Direction::Positive, Direction::Negative],
                    amounts@ == Amount::all_amounts(),
                    forall|i: int| 0 <= i < r.len() ==> #[trigger] r@[i] == AxisMove::nth(i),
                decreases 2 - d,
            {
                let mut m: usize = 0;
                while m < 3
                    invariant
                        a < 3,
                        d < 2,
                        m <= 3,
                        r.len() == 6 * a + 3 * d + m,
                        axes@ == seq![Axis::X, Axis::Y, Axis::Z],
                        directions@ == seq![Direction::Positive, Direction::Negative],
                        amounts@ == Amount::all_amounts(),
                        forall|i: int|
                            0 <= i < r.len() ==> #[trigger] r@[i] == AxisMove::nth(i),
                    decreases 3 - m,
                {
                    let mv = AxisMove::new(Face::new(axes[a], directions[d]), amounts[m]);
                    proof {
                        let i = 6 * a + 3 * d + m;
                        assert(i / 6 == a) by (nonlinear_arith)
                            requires
                                i == 6 * a + 3 * d + m,
                                d < 2,
                                m < 3,
                        ;
                        assert((i / 3) % 2 == d) by (nonlinear_arith)
                            requires
                                i == 6 * a + 3 * d + m,
                                d < 2,
                                m < 3,
                        ;
                        assert(i % 3 == m) by (nonlinear_arith)
                            requires
                                i == 6 * a + 3 * d + m,
                                d < 2,
                                m < 3,
                        ;
                        assert(mv == AxisMove::nth(i as int));
                    }
                    r.push(mv);
                    m = m + 1;
                }
                d = d + 1;
            }
            a = a + 1;
        }
        r
    }
}

/// Every move appears in the enumeration of all moves, at the position given by its `ord`.
pub proof fn lemma_all_moves_complete(m: AxisMove)
    ensures
        0 <= m.ord() < 18,
        AxisMove::nth(m.ord()) == m,
{
    let i = m.ord();
    let a = m.face.axis.ord();
    let d = if m.face.direction == Direction::Positive { 0int } else { 1int };
    let k = m.amount.turns() - 1;
    assert(i / 6 == a) by (nonlinear_arith)
        requires
            i == 6 * a + 3 * d + k,
            0 <= d < 2,
            0 <= k < 3,
    ;
    assert((i / 3) % 2 == d) by (nonlinear_arith)
        requires
            i == 6 * a + 3 * d + k,
            0 <= d < 2,
            0 <= k < 3,
    ;
    assert(i % 3 == k) by (nonlinear_arith)
        requires
            i == 6 * a + 3 * d + k,
            0 <= d < 2,
            0 <= k < 3,
    ;
}

/// Undoing a move twice gives back the move.
pub proof fn lemma_move_inverse_involution(m: AxisMove)
    ensures
        m.inv().inv() == m,
{
}

/// A sequence of moves.
#[derive(Debug, Clone, PartialEq, Eq)]
pub struct Alg<M> {
    /// The moves, in the order they are done
    pub moves: Vec<M>,
}

impl<M> Alg<M> {
    /// Creates an algorithm from its moves
    pub fn new(moves: Vec<M>) -> (r: Alg<M>)
        ensures
            r.moves@ == moves@,
    {
        Alg { moves }
    }
}

} // verus!
