//! Rotations of NxNxN cubes around an axis.
//!
//! Opposite face turns like `L` and `R'` turn the same way; they only differ in the pieces
//! that they select. An [`AxisRotation`] is that shared turn.

use vstd::prelude::*;

use crate::moves::{Alg, Amount, AxisMove};
use crate::space::{Axis, Direction, Face, Vec2, Vec3};

verus! {

/// A rotation around an axis. This is similar to an [`AxisMove`], but it doesn't specify the
/// face.
#[derive(Debug, Clone, Copy, PartialEq, Eq, Hash, Structural)]
pub struct AxisRotation {
    /// The axis that is being rotated around
    pub axis: Axis,
    /// The amount of rotation
    pub amount: Amount,
}

impl AxisRotation {
    /// The rotation that undoes this one.
    pub open spec fn inv(self) -> AxisRotation {
        AxisRotation {
            axis: self.axis,
            amount: match self.amount {
                Amount::Single => Amount::Inverse,
                Amount::Double => Amount::Double,
                Amount::Inverse => Amount::Single,
            },
        }
    }

    /// The rotation that a move makes: around the axis of its face, by its amount.
    pub open spec fn of_move(m: AxisMove) -> AxisRotation {
        AxisRotation { axis: m.face.axis, amount: m.amount }
    }

    /// Creates a new rotation
    pub fn new(axis: Axis, amount: Amount) -> (r: AxisRotation)
        ensures
            r == (AxisRotation { axis, amount }),
    {
        AxisRotation { axis, amount }
    }

    /// Whether the rotation flips the orientation of an edge whose normal axis is
    /// `normal_axis`: any quarter turn around the X axis or around the edge's own normal.
    pub fn flips_edge_orientation(&self, normal_axis: Axis) -> (r: bool)
        ensures
            r == (self.amount != Amount::Double && (self.axis == Axis::X || self.axis
                == normal_axis)),
    {
        self.amount != Amount::Double && (self.axis == Axis::X || self.axis == normal_axis)
    }

    /// Returns the inverse rotation, such that if both get applied the result is no rotation.
    pub fn inverse(&self) -> (r: AxisRotation)
        ensures
            r == self.inv(),
    {
        AxisRotation { axis: self.axis, amount: self.amount.mul(Direction::Negative) }
    }

    /// The rotation of a move.
    pub fn from_move(mov: &AxisMove) -> (r: AxisRotation)
        ensures
            r == AxisRotation::of_move(*mov),
    {
        AxisRotation { axis: mov.face.axis, amount: mov.amount }
    }
}

/// Things that can be rotated.
pub trait Rotatable: Sized {
    /// The value after the rotation.
    spec fn rotated_by(self, rotation: AxisRotation) -> Self;

    /// Rotates the value according to an [`AxisRotation`]
    fn rotate(&mut self, rotation: &AxisRotation)
        ensures
            *final(self) == old(self).rotated_by(*rotation),
    ;

    /// Returns a rotated copy of the value
    fn rotated(self, rotation: &AxisRotation) -> (r: Self)
        ensures
            r == self.rotated_by(*rotation),
    {
        let mut s = self;
        s.rotate(rotation);
        s
    }
}

impl Rotatable for Face {
    open spec fn rotated_by(self, rotation: AxisRotation) -> Face {
        match rotation.amount {
            Amount::Single => self.turned(rotation.axis),
            Amount::Double => self.turned(rotation.axis).turned(rotation.axis),
            Amount::Inverse => self.unturned(rotation.axis),
        }
    }

    fn rotate(&mut self, rotation: &AxisRotation) {
        if self.axis == rotation.axis {
            return ;
        }
        proof {
            crate::space::lemma_turn_four_times(*self, rotation.axis);
        }
        *self = match rotation.amount {
            Amount::Double => self.opposite(),
            Amount::Single => self.next_around(&rotation.axis),
            Amount::Inverse => self.prev_around(&rotation.axis),
        };
    }
}

/// A vector on a slice after a clockwise rotation by the given amount.
pub open spec fn rot2(amount: Amount, v: Vec2) -> Vec2 {
    match amount {
        Amount::Single => Vec2 { x: v.y, y: v.x.flip() },
        Amount::Double => Vec2 { x: v.x.flip(), y: v.y.flip() },
        Amount::Inverse => Vec2 { x: v.y.flip(), y: v.x },
    }
}

/// Rotates a vector on a slice clockwise
pub fn rotate_vec2(amount: &Amount, vec: &Vec2) -> (r: Vec2)
    ensures
        r == rot2(*amount, *vec),
{
    match amount {
        Amount::Single => Vec2 { x: vec.y, y: vec.x.neg() },
        Amount::Double => Vec2 { x: vec.x.neg(), y: vec.y.neg() },
        Amount::Inverse => Vec2 { x: vec.y.neg(), y: vec.x },
    }
}

impl Rotatable for Vec2 {
    open spec fn rotated_by(self, rotation: AxisRotation) -> Vec2 {
        rot2(rotation.amount, self)
    }

    fn rotate(&mut self, rotation: &AxisRotation) {
        *self = rotate_vec2(&rotation.amount, self);
    }
}

impl Rotatable for Vec3 {
    /// The coordinates on the basis of the rotation axis rotate like a [`Vec2`]; the one on
    /// the axis stays.
    open spec fn rotated_by(self, rotation: AxisRotation) -> Vec3 {
        let b1 = rotation.axis.succ();
        let b2 = rotation.axis.succ().succ();
        let r = rot2(rotation.amount, Vec2 { x: self.at(b1), y: self.at(b2) });
        self.with(b1, r.x).with(b2, r.y)
    }

    fn rotate(&mut self, rotation: &AxisRotation) {
        let b1 = rotation.axis.next();
        let b2 = b1.next();
        let r = rotate_vec2(&rotation.amount, &Vec2 { x: self.get(b1), y: self.get(b2) });
        self.set(b1, r.x);
        self.set(b2, r.y);
    }
}

impl Rotatable for Axis {
    /// Quarter turns exchange the two axes perpendicular to the rotation axis; half turns keep
    /// every axis.
    open spec fn rotated_by(self, rotation: AxisRotation) -> Axis {
        if rotation.amount == Amount::Double {
            self
        } else {
            match Axis::third(self, rotation.axis) {
                Some(c) => c,
                None => self,
            }
        }
    }

    fn rotate(&mut self, rotation: &AxisRotation) {
        if rotation.amount != Amount::Double {
            if let Some(other_axis) = Axis::other(self, &rotation.axis) {
                *self = other_axis;
            }
        }
    }
}

impl Rotatable for AxisMove {
    /// The face of the move rotates; the amount stays.
    open spec fn rotated_by(self, rotation: AxisRotation) -> AxisMove {
        AxisMove { face: self.face.rotated_by(rotation), amount: self.amount }
    }

    fn rotate(&mut self, axis_rotation: &AxisRotation) {
        self.face.rotate(axis_rotation);
    }
}

impl Alg<AxisMove> {
    /// The moves of the algorithm, each rotated.
    pub open spec fn rotated_moves(moves: Seq<AxisMove>, rotation: AxisRotation) -> Seq<
        AxisMove,
    > {
        moves.map_values(|m: AxisMove| m.rotated_by(rotation))
    }

    /// Rotates every move of the algorithm.
    pub fn rotate(&mut self, rotation: &AxisRotation)
        ensures
            final(self).moves@ == Alg::rotated_moves(old(self).moves@, *rotation),
    {
        let n = self.moves.len();
        let mut i: usize = 0;
        while i < n
            invariant
                n == self.moves.len(),
                n == old(self).moves.len(),
                i <= n,
                forall|j: int|
                    0 <= j < i ==> #[trigger] self.moves@[j] == old(self).moves@[j].rotated_by(
                        *rotation,
                    ),
                forall|j: int| i <= j < n ==> #[trigger] self.moves@[j] == old(self).moves@[j],
            decreases n - i,
        {
            let m = self.moves[i].rotated(rotation);
            self.moves.set(i, m);
            i = i + 1;
        }
        assert(self.moves@ =~= Alg::rotated_moves(old(self).moves@, *rotation));
    }
}

/// Rotating by a rotation and then by its inverse gives back the original value (faces,
/// slice vectors, position vectors and axes).
pub proof fn lemma_rotation_inverse(r: AxisRotation, f: Face, v2: Vec2, v3: Vec3, a: Axis)
    ensures
        f.rotated_by(r).rotated_by(r.inv()) == f,
        v2.rotated_by(r).rotated_by(r.inv()) == v2,
        v3.rotated_by(r).rotated_by(r.inv()) == v3,
        a.rotated_by(r).rotated_by(r.inv()) == a,
{
    crate::space::lemma_turn_four_times(f, r.axis);
    crate::space::lemma_turn_unturn(f, r.axis);
}

/// Four quarter turns around the same axis give back the original value.
pub proof fn lemma_rotation_four_times(axis: Axis, f: Face, v2: Vec2, v3: Vec3, a: Axis)
    ensures
        ({
            let r = AxisRotation { axis, amount: Amount::Single };
            &&& f.rotated_by(r).rotated_by(r).rotated_by(r).rotated_by(r) == f
            &&& v2.rotated_by(r).rotated_by(r).rotated_by(r).rotated_by(r) == v2
            &&& v3.rotated_by(r).rotated_by(r).rotated_by(r).rotated_by(r) == v3
            &&& a.rotated_by(r).rotated_by(r).rotated_by(r).rotated_by(r) == a
        }),
{
    crate::space::lemma_turn_four_times(f, axis);
}

/// The value after `n` clockwise quarter turns around `axis`.
pub open spec fn quarters<T: Rotatable>(x: T, axis: Axis, n: nat) -> T
    decreases n,
{
    if n == 0 {
        x
    } else {
        quarters(x, axis, (n - 1) as nat).rotated_by(AxisRotation { axis, amount: Amount::Single })
    }
}

/// Quarter turns add up.
pub proof fn lemma_quarters_add<T: Rotatable>(x: T, axis: Axis, n: nat, m: nat)
    ensures
        quarters(quarters(x, axis, n), axis, m) == quarters(x, axis, n + m),
    decreases m,
{
    if m > 0 {
        lemma_quarters_add(x, axis, n, (m - 1) as nat);
    }
}

/// For values on which four quarter turns do nothing, two quarter turns are a half turn and a
/// counterclockwise quarter turn undoes a clockwise one, rotations around an axis compose by
/// adding their turns modulo 4.
pub proof fn lemma_compose_from_quarters<T: Rotatable>(x: T, axis: Axis, a: Amount, b: Amount)
    requires
        forall|y: T| #[trigger] y.rotated_by(AxisRotation { axis, amount: Amount::Single }).rotated_by(AxisRotation { axis, amount: Amount::Single }).rotated_by(AxisRotation { axis, amount: Amount::Single }).rotated_by(AxisRotation { axis, amount: Amount::Single }) == y,
        forall|y: T| #[trigger] y.rotated_by(AxisRotation { axis, amount: Amount::Single }).rotated_by(AxisRotation { axis, amount: Amount::Single }) == y.rotated_by(AxisRotation { axis, amount: Amount::Double }),
        forall|y: T| #[trigger] y.rotated_by(AxisRotation { axis, amount: Amount::Inverse }).rotated_by(AxisRotation { axis, amount: Amount::Single }) == y,
    ensures
        x.rotated_by(AxisRotation { axis, amount: a }).rotated_by(AxisRotation { axis, amount: b })
            == match Amount::of_turns(a.turns() + b.turns()) {
            None => x,
            Some(c) => x.rotated_by(AxisRotation { axis, amount: c }),
        },
{
    let s = AxisRotation { axis, amount: Amount::Single };
    assert forall|y: T| #[trigger] y.rotated_by(AxisRotation { axis, amount: Amount::Inverse }) == quarters(y, axis, 3) by {
        let z = y.rotated_by(AxisRotation { axis, amount: Amount::Inverse });
        assert(z.rotated_by(s) == y);
        assert(quarters(z, axis, 4) == z) by {
            reveal_with_fuel(quarters, 5);
        }
        lemma_quarters_add(z, axis, 1, 3);
        assert(quarters(z, axis, 1) == y) by {
            reveal_with_fuel(quarters, 2);
        }
    }
    assert forall|y: T, am: Amount| #[trigger] y.rotated_by(AxisRotation { axis, amount: am }) == quarters(y, axis, am.turns() as nat) by {
        reveal_with_fuel(quarters, 3);
        match am {
            Amount::Single => {},
            Amount::Double => {},
            Amount::Inverse => {},
        }
    }
    let ta = a.turns() as nat;
    let tb = b.turns() as nat;
    let xa = x.rotated_by(AxisRotation { axis, amount: a });
    assert(xa == quarters(x, axis, ta));
    assert(xa.rotated_by(AxisRotation { axis, amount: b }) == quarters(xa, axis, tb));
    lemma_quarters_add(x, axis, ta, tb);
    assert(quarters(x, axis, 4) == x) by {
        reveal_with_fuel(quarters, 5);
    }
    if ta + tb >= 4 {
        let k = (ta + tb - 4) as nat;
        lemma_quarters_add(x, axis, 4, k);
        assert(quarters(x, axis, ta + tb) == quarters(x, axis, k));
        if k == 0 {
        } else {
            let c = Amount::of_turns((ta + tb) as int).unwrap();
            assert(c.turns() == k);
            assert(x.rotated_by(AxisRotation { axis, amount: c }) == quarters(x, axis, c.turns() as nat));
        }
    } else {
        let c = Amount::of_turns((ta + tb) as int).unwrap();
        assert(x.rotated_by(AxisRotation { axis, amount: c }) == quarters(x, axis, c.turns() as nat));
    }
}

} // verus!
