//! Corner piece of the cube.

use vstd::prelude::*;

use crate::moves::rotation::{AxisRotation, Rotatable};
use crate::moves::{Amount, AxisMove};
use crate::space::{Axis, Direction, Face, Vec3};

verus! {

/// A corner piece of the cube.
#[derive(Debug, Clone, Copy, PartialEq, Eq, Hash, Structural)]
pub struct Corner {
    /// The position of the corner piece, relative to the center of the cube.
    pub position: Vec3,
    /// The orientation of the corner piece: the axis of the sticker that is originally on the
    /// X (R-L) axis.
    pub orientation_axis: Axis,
}

/// Number of negative coordinates of a position.
pub open spec fn negatives(v: Vec3) -> int {
    (if v.x == Direction::Negative { 1int } else { 0int }) + (if v.y == Direction::Negative {
        1int
    } else {
        0int
    }) + (if v.z == Direction::Negative { 1int } else { 0int })
}

/// Whether a position has an even number of negative coordinates.
pub open spec fn even_parity(v: Vec3) -> bool {
    negatives(v) % 2 == 0
}

impl Corner {
    /// The axis that a counterclockwise twist at `position` takes `axis` to: the next axis at
    /// positions of even parity, the previous one at the others.
    pub open spec fn twist_axis(position: Vec3, axis: Axis) -> Axis {
        if even_parity(position) {
            axis.succ()
        } else {
            axis.pred()
        }
    }

    /// Number of counterclockwise twists that take an oriented corner at the same position to
    /// this one.
    pub open spec fn orientation(self) -> int {
        if even_parity(self.position) {
            self.orientation_axis.ord()
        } else {
            (3 - self.orientation_axis.ord()) % 3
        }
    }

    /// The corner after being moved by a move: rotated if it is on the moved face.
    pub open spec fn moved_by(self, m: AxisMove) -> Corner {
        if self.position.at(m.face.axis) == m.face.direction {
            self.rotated_by(AxisRotation::of_move(m))
        } else {
            self
        }
    }

    /// Creates a new [`Corner`] with the given position and orientation axis.
    pub fn new(position: Vec3, orientation_axis: Axis) -> (r: Corner)
        ensures
            r == (Corner { position, orientation_axis }),
    {
        Corner { position, orientation_axis }
    }

    /// Creates a new [`Corner`] with the given position and correct orientation.
    pub fn oriented(position: Vec3) -> (r: Corner)
        ensures
            r == (Corner { position, orientation_axis: Axis::X }),
    {
        Corner { position, orientation_axis: Axis::X }
    }

    /// The position of the corner.
    pub fn get_position(&self) -> (r: Vec3)
        ensures
            r == self.position,
    {
        self.position
    }

    /// Whether the corner is solved given the position it started at: it is back there and
    /// oriented.
    pub fn is_solved(&self, original_pos: &Vec3) -> (r: bool)
        ensures
            r == (self.position == *original_pos && self.orientation_axis == Axis::X),
    {
        self.position == *original_pos && self.is_oriented()
    }

    /// Returns the faces that the corner is on
    pub fn faces(&self) -> (r: [Face; 3])
        ensures
            r[0] == (Face { axis: Axis::X, direction: self.position.x }),
            r[1] == (Face { axis: Axis::Y, direction: self.position.y }),
            r[2] == (Face { axis: Axis::Z, direction: self.position.z }),
    {
        [
            Face::new(Axis::X, self.position.x),
            Face::new(Axis::Y, self.position.y),
            Face::new(Axis::Z, self.position.z),
        ]
    }

    fn is_even_position_parity(position: &Vec3) -> (r: bool)
        ensures
            r == even_parity(*position),
    {
        let mut count: u8 = 0;
        if position.x == Direction::Negative {
            count = count + 1;
        }
        if position.y == Direction::Negative {
            count = count + 1;
        }
        if position.z == Direction::Negative {
            count = count + 1;
        }
        count % 2 == 0
    }

    /// Amount of counter-clockwise twists needed for an oriented corner to get to the current
    /// orientation.
    pub fn orientation_index(&self) -> (r: usize)
        ensures
            r == self.orientation(),
            r < 3,
    {
        let even_parity = Self::is_even_position_parity(&self.position);
        let axis_index = self.orientation_axis.index();
        if even_parity {
            axis_index
        } else {
            (3 - axis_index) % 3
        }
    }

    /// Gets the axis that is a counterclockwise rotation from the current axis around the
    /// given position. So the thing used for twisting corners.
    pub fn next_axis(position: &Vec3, axis: &Axis) -> (r: Axis)
        ensures
            r == Corner::twist_axis(*position, *axis),
    {
        if Self::is_even_position_parity(position) {
            axis.next()
        } else {
            axis.prev()
        }
    }

    /// Twists a corner counter-clockwise
    pub fn twist(&mut self)
        ensures
            final(self).position == old(self).position,
            final(self).orientation_axis == Corner::twist_axis(
                old(self).position,
                old(self).orientation_axis,
            ),
            final(self).orientation() == (old(self).orientation() + 1) % 3,
    {
        self.orientation_axis =
        if Self::is_even_position_parity(&self.position) {
            self.orientation_axis.next()
        } else {
            self.orientation_axis.prev()
        };
    }

    /// Whether the corner is oriented. This is true if the orientation axis is the X axis.
    pub fn is_oriented(&self) -> (r: bool)
        ensures
            r == (self.orientation_axis == Axis::X),
            r == (self.orientation() == 0),
    {
        self.orientation_axis == Axis::X
    }

    /// Moves the corner by a face turn: rotates it if it is on the turned face.
    pub fn apply(&mut self, m: &AxisMove)
        ensures
            *final(self) == old(self).moved_by(*m),
    {
        if m.face.contains_vector(&self.position) {
            let rotation = AxisRotation::from_move(m);
            self.rotate(&rotation);
        }
    }
}

impl Rotatable for Corner {
    /// The position and the orientation axis both rotate.
    open spec fn rotated_by(self, rotation: AxisRotation) -> Corner {
        Corner {
            position: self.position.rotated_by(rotation),
            orientation_axis: self.orientation_axis.rotated_by(rotation),
        }
    }

    fn rotate(&mut self, rotation: &AxisRotation) {
        self.position.rotate(rotation);
        self.orientation_axis.rotate(rotation);
    }
}

/// At one position, the orientation of a corner determines its orientation axis.
pub proof fn lemma_orientation_determines_axis(a: Corner, b: Corner)
    requires
        a.position == b.position,
        a.orientation() == b.orientation(),
    ensures
        a == b,
{
}

/// Three counterclockwise twists give back the corner.
pub proof fn lemma_twist_three_times(c: Corner)
    ensures
        Corner::twist_axis(
            c.position,
            Corner::twist_axis(c.position, Corner::twist_axis(c.position, c.orientation_axis)),
        ) == c.orientation_axis,
{
}

/// Rotating a corner by a rotation and then by its inverse gives back the corner.
pub proof fn lemma_corner_rotation_inverse(c: Corner, r: AxisRotation)
    ensures
        c.rotated_by(r).rotated_by(r.inv()) == c,
{
    crate::moves::rotation::lemma_rotation_inverse(
        r,
        Face { axis: Axis::X, direction: Direction::Positive },
        crate::space::Vec2 { x: Direction::Positive, y: Direction::Positive },
        c.position,
        c.orientation_axis,
    );
}

/// Four clockwise quarter turns around an axis give back the corner.
pub proof fn lemma_corner_rotation_four_times(c: Corner, axis: Axis)
    ensures
        ({
            let r = AxisRotation { axis, amount: Amount::Single };
            c.rotated_by(r).rotated_by(r).rotated_by(r).rotated_by(r) == c
        }),
{
    crate::moves::rotation::lemma_rotation_four_times(
        axis,
        Face { axis: Axis::X, direction: Direction::Positive },
        crate::space::Vec2 { x: Direction::Positive, y: Direction::Positive },
        c.position,
        c.orientation_axis,
    );
}

/// Doing a move and then its inverse leaves every corner where it was.
pub proof fn lemma_corner_move_inverse(c: Corner, m: AxisMove)
    ensures
        c.moved_by(m).moved_by(m.inv()) == c,
{
    lemma_corner_rotation_inverse(c, AxisRotation::of_move(m));
}

/// Two clockwise quarter turns around an axis move a corner like a half turn.
pub proof fn lemma_corner_two_quarter_turns(c: Corner, axis: Axis)
    ensures
        c.rotated_by(AxisRotation { axis, amount: Amount::Single }).rotated_by(
            AxisRotation { axis, amount: Amount::Single },
        ) == c.rotated_by(AxisRotation { axis, amount: Amount::Double }),
{
}

/// Rotations around the same axis compose by adding their turns: two rotations give the
/// rotation by the sum of their turns, or nothing when it is a multiple of 4.
pub proof fn lemma_corner_rotation_compose(c: Corner, axis: Axis, a: Amount, b: Amount)
    ensures
        c.rotated_by(AxisRotation { axis, amount: a }).rotated_by(AxisRotation { axis, amount: b })
            == match Amount::of_turns(a.turns() + b.turns()) {
            None => c,
            Some(d) => c.rotated_by(AxisRotation { axis, amount: d }),
        },
{
    let s = AxisRotation { axis, amount: Amount::Single };
    assert forall|y: Corner| #[trigger] y.rotated_by(s).rotated_by(s).rotated_by(s).rotated_by(s) == y by {
        lemma_corner_rotation_four_times(y, axis);
    }
    assert forall|y: Corner| #[trigger] y.rotated_by(s).rotated_by(s) == y.rotated_by(AxisRotation { axis, amount: Amount::Double }) by {
        lemma_corner_two_quarter_turns(y, axis);
    }
    assert forall|y: Corner| #[trigger] y.rotated_by(AxisRotation { axis, amount: Amount::Inverse }).rotated_by(s) == y by {
        lemma_corner_rotation_inverse(y, AxisRotation { axis, amount: Amount::Inverse });
    }
    crate::moves::rotation::lemma_compose_from_quarters(c, axis, a, b);
}

/// A rotation around an axis keeps the coordinate of every corner on that axis.
pub proof fn lemma_corner_rotation_keeps_face(c: Corner, r: AxisRotation)
    ensures
        c.rotated_by(r).position.at(r.axis) == c.position.at(r.axis),
{
}

} // verus!
