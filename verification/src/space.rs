//! Spatial primitives: the three axes, the two directions along an axis, and the six faces.

use vstd::prelude::*;

verus! {

/// The three axes in space.
///
/// Y-up, Z-in coordinates: X is the R-L axis, Y is the U-D axis, Z is the F-B axis.
/// The axes form a right-handed system, `X x Y = Z`, and they are ordered by how often
/// their face moves are used.
#[derive(Debug, Clone, Copy, PartialEq, Eq, Hash, Structural)]
pub enum Axis {
    /// The R-L axis
    X,
    /// The U-D axis
    Y,
    /// The F-B axis
    Z,
}

/// Direction along an axis.
#[derive(Debug, Clone, Copy, PartialEq, Eq, Hash, Structural)]
pub enum Direction {
    /// Towards the positive end of the axis
    Positive,
    /// Towards the negative end of the axis
    Negative,
}

/// An error produced when two axes (or the axes of two faces) were expected to differ.
#[derive(Debug, Clone, Copy, PartialEq, Eq, Structural)]
pub enum ParallelAxesError {
    /// Both axes are this one
    SameAxis(Axis),
}

impl Axis {
    /// Position of the axis in the cycle X -> Y -> Z.
    pub open spec fn ord(self) -> int {
        match self {
            Axis::X => 0,
            Axis::Y => 1,
            Axis::Z => 2,
        }
    }

    /// The axis at the given position of the cycle X -> Y -> Z (taken modulo 3).
    pub open spec fn at(i: int) -> Axis {
        if i % 3 == 0 {
            Axis::X
        } else if i % 3 == 1 {
            Axis::Y
        } else {
            Axis::Z
        }
    }

    /// The next axis in the cycle X -> Y -> Z -> X.
    pub open spec fn succ(self) -> Axis {
        Axis::at(self.ord() + 1)
    }

    /// The previous axis in the cycle X -> Y -> Z -> X.
    pub open spec fn pred(self) -> Axis {
        Axis::at(self.ord() + 2)
    }

    /// The position of the axis in the cycle X -> Y -> Z, as an index.
    pub fn index(&self) -> (r: usize)
        ensures
            r == self.ord(),
    {
        match self {
            Axis::X => 0,
            Axis::Y => 1,
            Axis::Z => 2,
        }
    }

    /// Returns the basis that you use with a given normal (and positive handedness): the next
    /// axis and the one after it.
    pub fn basis(normal: &Axis) -> (r: [Axis; 2])
        ensures
            r[0] == normal.succ(),
            r[1] == normal.succ().succ(),
    {
        match *normal {
            Axis::X => [Axis::Y, Axis::Z],
            Axis::Y => [Axis::Z, Axis::X],
            Axis::Z => [Axis::X, Axis::Y],
        }
    }

    /// Calculates the offset between two axes:
    /// 0 if the axes are the same, 1 for `(X, Y)`, `(Y, Z)`, `(Z, X)`, and 2 for `(X, Z)`,
    /// `(Y, X)`, `(Z, Y)`.
    pub fn offset(&self, other: &Axis) -> (r: i32)
        ensures
            r == (other.ord() - self.ord()) % 3,
            0 <= r < 3,
    {
        let a = self.index() as i32;
        let b = other.index() as i32;
        if b >= a {
            b - a
        } else {
            b - a + 3
        }
    }

    /// Returns the next axis in the loop X -> Y -> Z -> X
    pub fn next(&self) -> (r: Axis)
        ensures
            r == self.succ(),
    {
        match self {
            Axis::X => Axis::Y,
            Axis::Y => Axis::Z,
            Axis::Z => Axis::X,
        }
    }

    /// Returns the previous axis in the loop X -> Z -> Y -> X
    pub fn prev(&self) -> (r: Axis)
        ensures
            r == self.pred(),
    {
        match self {
            Axis::X => Axis::Z,
            Axis::Y => Axis::X,
            Axis::Z => Axis::Y,
        }
    }

    /// The next axis when `handedness` is positive, the previous one when it is negative.
    pub open spec fn step(self, handedness: Direction) -> Axis {
        match handedness {
            Direction::Positive => self.succ(),
            Direction::Negative => self.pred(),
        }
    }

    /// Returns the next axis given a handedness
    pub fn next_with_handedness(&self, handedness: Direction) -> (r: Axis)
        ensures
            r == self.step(handedness),
    {
        match handedness {
            Direction::Positive => self.next(),
            Direction::Negative => self.prev(),
        }
    }

    /// The handedness of `self` followed by `other`: positive if `other` is the next axis,
    /// negative if it is the previous one; an error if they are the same axis.
    pub fn get_handedness(&self, other: &Axis) -> (r: Result<Direction, ParallelAxesError>)
        ensures
            *self == *other <==> r == Err::<Direction, ParallelAxesError>(
                ParallelAxesError::SameAxis(*self),
            ),
            *other == self.succ() <==> r == Ok::<Direction, ParallelAxesError>(
                Direction::Positive,
            ),
            *other == self.pred() <==> r == Ok::<Direction, ParallelAxesError>(
                Direction::Negative,
            ),
    {
        match self.offset(other) {
            0 => Err(ParallelAxesError::SameAxis(*self)),
            1 => Ok(Direction::Positive),
            _ => Ok(Direction::Negative),
        }
    }

    /// The axis that is neither `a` nor `b`, if `a` and `b` differ.
    pub open spec fn third(a: Axis, b: Axis) -> Option<Axis> {
        if a == b {
            None
        } else {
            Some(Axis::at(3 - a.ord() - b.ord()))
        }
    }

    /// Returns the axis that is not `a` or `b`, or `None` if they are the same.
    pub fn other(a: &Axis, b: &Axis) -> (r: Option<Axis>)
        ensures
            r == Axis::third(*a, *b),
            r matches Some(c) ==> c != *a && c != *b,
    {
        match (a, b) {
            (Axis::X, Axis::X) | (Axis::Y, Axis::Y) | (Axis::Z, Axis::Z) => None,
            (Axis::X, Axis::Y) | (Axis::Y, Axis::X) => Some(Axis::Z),
            (Axis::X, Axis::Z) | (Axis::Z, Axis::X) => Some(Axis::Y),
            (Axis::Y, Axis::Z) | (Axis::Z, Axis::Y) => Some(Axis::X),
        }
    }
}

impl Direction {
    /// The sign of the direction: 1 or -1.
    pub open spec fn sign(self) -> int {
        match self {
            Direction::Positive => 1,
            Direction::Negative => -1,
        }
    }

    /// The other direction.
    pub open spec fn flip(self) -> Direction {
        match self {
            Direction::Positive => Direction::Negative,
            Direction::Negative => Direction::Positive,
        }
    }

    /// The product of two directions (as signs).
    pub open spec fn times(self, other: Direction) -> Direction {
        if self == other {
            Direction::Positive
        } else {
            Direction::Negative
        }
    }

    /// The sign of the direction as an integer (1 or -1).
    pub fn scalar(&self) -> (r: i8)
        ensures
            r == self.sign(),
    {
        match self {
            Direction::Positive => 1,
            Direction::Negative => -1,
        }
    }

    /// The opposite direction.
    pub fn neg(self) -> (r: Direction)
        ensures
            r == self.flip(),
            r.sign() == -self.sign(),
    {
        match self {
            Direction::Positive => Direction::Negative,
            Direction::Negative => Direction::Positive,
        }
    }
}


/// One of the 6 faces of a cube
#[derive(Debug, Clone, Copy, PartialEq, Eq, Hash, Structural)]
pub struct Face {
    /// The axis of the face
    pub axis: Axis,
    /// The direction along the axis of the face
    pub direction: Direction,
}

impl Face {
    /// The right face
    #[verifier::allow_in_spec]
    #[allow(non_snake_case)]
    pub fn R() -> Face
        returns
            (Face { axis: Axis::X, direction: Direction::Positive }),
    {
        Face { axis: Axis::X, direction: Direction::Positive }
    }

    /// The left face
    #[verifier::allow_in_spec]
    #[allow(non_snake_case)]
    pub fn L() -> Face
        returns
            (Face { axis: Axis::X, direction: Direction::Negative }),
    {
        Face { axis: Axis::X, direction: Direction::Negative }
    }

    /// The "up" face
    #[verifier::allow_in_spec]
    #[allow(non_snake_case)]
    pub fn U() -> Face
        returns
            (Face { axis: Axis::Y, direction: Direction::Positive }),
    {
        Face { axis: Axis::Y, direction: Direction::Positive }
    }

    /// The "down" face
    #[verifier::allow_in_spec]
    #[allow(non_snake_case)]
    pub fn D() -> Face
        returns
            (Face { axis: Axis::Y, direction: Direction::Negative }),
    {
        Face { axis: Axis::Y, direction: Direction::Negative }
    }

    /// The front face
    #[verifier::allow_in_spec]
    #[allow(non_snake_case)]
    pub fn F() -> Face
        returns
            (Face { axis: Axis::Z, direction: Direction::Positive }),
    {
        Face { axis: Axis::Z, direction: Direction::Positive }
    }

    /// The back face
    #[verifier::allow_in_spec]
    #[allow(non_snake_case)]
    pub fn B() -> Face
        returns
            (Face { axis: Axis::Z, direction: Direction::Negative }),
    {
        Face { axis: Axis::Z, direction: Direction::Negative }
    }


    /// Creates a new face with the specified axis and direction
    pub fn new(axis: Axis, direction: Direction) -> (r: Face)
        ensures
            r == (Face { axis, direction }),
    {
        Face { axis, direction }
    }

    /// The face on the other side of the same axis.
    pub open spec fn opp(self) -> Face {
        Face { axis: self.axis, direction: self.direction.flip() }
    }

    /// Where the face goes under a quarter turn clockwise around `axis` (looking at the
    /// positive end of the axis). In the basis `(b1, b2)` of the axis, a vector `(p, q)`
    /// goes to `(q, -p)`.
    pub open spec fn turned(self, axis: Axis) -> Face {
        if self.axis == axis {
            self
        } else if self.axis == axis.succ() {
            Face { axis: axis.succ().succ(), direction: self.direction.flip() }
        } else {
            Face { axis: axis.succ(), direction: self.direction }
        }
    }

    /// Where the face goes under a quarter turn counterclockwise around `axis`. In the basis
    /// `(b1, b2)` of the axis, a vector `(p, q)` goes to `(-q, p)`.
    pub open spec fn unturned(self, axis: Axis) -> Face {
        if self.axis == axis {
            self
        } else if self.axis == axis.succ() {
            Face { axis: axis.succ().succ(), direction: self.direction }
        } else {
            Face { axis: axis.succ(), direction: self.direction.flip() }
        }
    }

    /// The face perpendicular to both, following the right-hand rule (the direction of the
    /// cross product of the two face normals).
    pub open spec fn cross_spec(self, other: Face) -> Option<Face> {
        match Axis::third(self.axis, other.axis) {
            None => None,
            Some(axis) => Some(
                Face {
                    axis,
                    direction: if other.axis == self.axis.succ() {
                        self.direction.times(other.direction)
                    } else {
                        self.direction.times(other.direction).flip()
                    },
                },
            ),
        }
    }

    /// The six faces in the order R, U, F, L, D, B.
    pub open spec fn all_faces() -> Seq<Face> {
        seq![Face::R(), Face::U(), Face::F(), Face::L(), Face::D(), Face::B()]
    }

    /// Position of the face in the order R, U, F, L, D, B.
    pub open spec fn ord(self) -> int {
        match self.direction {
            Direction::Positive => self.axis.ord(),
            Direction::Negative => self.axis.ord() + 3,
        }
    }

    /// The six faces in the order R, U, F, L, D, B.
    pub fn iter() -> (r: Vec<Face>)
        ensures
            r@ == Face::all_faces(),
    {
        let r = vec![Face::R(), Face::U(), Face::F(), Face::L(), Face::D(), Face::B()];
        assert(r@ =~= Face::all_faces());
        r
    }

    /// Position of the face in the order R, U, F, L, D, B.
    pub fn index(&self) -> (r: usize)
        ensures
            r == self.ord(),
            Face::all_faces()[r as int] == *self,
    {
        match self.direction {
            Direction::Positive => self.axis.index(),
            Direction::Negative => self.axis.index() + 3,
        }
    }

    /// Gets the opposite face
    pub fn opposite(&self) -> (r: Face)
        ensures
            r == self.opp(),
    {
        Face { axis: self.axis, direction: self.direction.neg() }
    }

    /// Gets the next face around a 90deg clockwise rotation around the given axis.
    pub fn next_around(self, axis: &Axis) -> (r: Face)
        ensures
            r == self.turned(*axis),
    {
        match axis {
            Axis::X => if self == Face::F() {
                Face::U()
            } else if self == Face::D() {
                Face::F()
            } else if self == Face::B() {
                Face::D()
            } else if self == Face::U() {
                Face::B()
            } else {
                self
            },
            Axis::Y => if self == Face::R() {
                Face::F()
            } else if self == Face::F() {
                Face::L()
            } else if self == Face::L() {
                Face::B()
            } else if self == Face::B() {
                Face::R()
            } else {
                self
            },
            Axis::Z => if self == Face::R() {
                Face::D()
            } else if self == Face::D() {
                Face::L()
            } else if self == Face::L() {
                Face::U()
            } else if self == Face::U() {
                Face::R()
            } else {
                self
            },
        }
    }

    /// Gets the next face around a 90deg counterclockwise rotation around the given axis.
    pub fn prev_around(self, axis: &Axis) -> (r: Face)
        ensures
            r == self.unturned(*axis),
    {
        match axis {
            Axis::X => if self == Face::F() {
                Face::D()
            } else if self == Face::D() {
                Face::B()
            } else if self == Face::B() {
                Face::U()
            } else if self == Face::U() {
                Face::F()
            } else {
                self
            },
            Axis::Y => if self == Face::R() {
                Face::B()
            } else if self == Face::B() {
                Face::L()
            } else if self == Face::L() {
                Face::F()
            } else if self == Face::F() {
                Face::R()
            } else {
                self
            },
            Axis::Z => if self == Face::R() {
                Face::U()
            } else if self == Face::U() {
                Face::L()
            } else if self == Face::L() {
                Face::D()
            } else if self == Face::D() {
                Face::R()
            } else {
                self
            },
        }
    }

    /// Computes the "cross product" of two faces: the face perpendicular to both, according
    /// to the right-hand rule. `None` if the faces are parallel.
    pub fn cross(&self, other: &Face) -> (r: Option<Face>)
        ensures
            r == self.cross_spec(*other),
    {
        let axis = match Axis::other(&self.axis, &other.axis) {
            Some(a) => a,
            None => return None,
        };
        let direction = if self.next_around(&axis) == *other {
            Direction::Negative
        } else {
            Direction::Positive
        };
        Some(Face::new(axis, direction))
    }

    /// The letter of the face in standard notation (`R`, `L`, `U`, `D`, `F` or `B`).
    pub open spec fn letter(self) -> char {
        match (self.axis, self.direction) {
            (Axis::X, Direction::Positive) => 'R',
            (Axis::X, Direction::Negative) => 'L',
            (Axis::Y, Direction::Positive) => 'U',
            (Axis::Y, Direction::Negative) => 'D',
            (Axis::Z, Direction::Positive) => 'F',
            (Axis::Z, Direction::Negative) => 'B',
        }
    }

    /// The letter of the face in standard notation.
    pub fn to_char(&self) -> (r: char)
        ensures
            r == self.letter(),
    {
        match (self.axis, self.direction) {
            (Axis::X, Direction::Positive) => 'R',
            (Axis::X, Direction::Negative) => 'L',
            (Axis::Y, Direction::Positive) => 'U',
            (Axis::Y, Direction::Negative) => 'D',
            (Axis::Z, Direction::Positive) => 'F',
            (Axis::Z, Direction::Negative) => 'B',
        }
    }
}

/// Going to the next axis undoes going to the previous one and vice versa, and three steps
/// come back to the start.
pub proof fn lemma_axis_cycle(a: Axis)
    ensures
        a.succ().pred() == a,
        a.pred().succ() == a,
        a.succ().succ().succ() == a,
        a.succ().succ() == a.pred(),
        a.succ() != a,
        a.pred() != a,
{
}

/// The offset from `a` to `b` and the offset from `b` to `a` add up to a multiple of 3.
pub proof fn lemma_offset_antisymmetric(a: Axis, b: Axis)
    ensures
        ((b.ord() - a.ord()) % 3 + (a.ord() - b.ord()) % 3) % 3 == 0,
{
}

/// The handedness of two different axes reverses when the axes are swapped.
pub proof fn lemma_handedness_antisymmetric(a: Axis, b: Axis)
    requires
        a != b,
    ensures
        (b == a.succ()) <==> (a == b.pred()),
        (b == a.succ()) != (b == a.pred()),
{
}

/// Taking the opposite face twice gives back the original face.
pub proof fn lemma_opposite_involution(f: Face)
    ensures
        f.opp().opp() == f,
        f.opp() != f,
{
}

/// A quarter turn clockwise and a quarter turn counterclockwise around the same axis
/// undo each other.
pub proof fn lemma_turn_unturn(f: Face, a: Axis)
    ensures
        f.turned(a).unturned(a) == f,
        f.unturned(a).turned(a) == f,
{
}

/// Four quarter turns around an axis bring every face back; two quarter turns take every face
/// off the axis to its opposite face.
pub proof fn lemma_turn_four_times(f: Face, a: Axis)
    ensures
        f.turned(a).turned(a).turned(a).turned(a) == f,
        f.axis != a ==> f.turned(a).turned(a) == f.opp(),
        f.turned(a).turned(a) == f.unturned(a).unturned(a),
        f.turned(a).turned(a).turned(a) == f.unturned(a),
{
}

/// A quarter turn keeps a face on the axis in place, and moves every other face to a face
/// that is perpendicular to it and still off the axis.
pub proof fn lemma_turn_moves_off_axis(f: Face, a: Axis)
    ensures
        f.axis == a ==> f.turned(a) == f,
        f.axis != a ==> f.turned(a).axis != a && f.turned(a).axis != f.axis,
{
}

/// The cross product of two faces is perpendicular to both of them, and swapping the faces
/// gives the opposite face.
pub proof fn lemma_cross_properties(f: Face, g: Face)
    ensures
        f.axis == g.axis <==> f.cross_spec(g) is None,
        f.cross_spec(g) matches Some(c) ==> c.axis != f.axis && c.axis != g.axis,
        f.cross_spec(g) matches Some(c) ==> g.cross_spec(f) == Some(c.opp()),
{
}

/// A quarter turn of the face that is the cross product of `f` and `g`, clockwise as seen
/// from that face, takes `g` to `f`.
pub proof fn lemma_cross_turns(f: Face, g: Face)
    requires
        f.axis != g.axis,
    ensures
        f.cross_spec(g) matches Some(c) ==> (if c.direction == Direction::Positive {
            g.turned(c.axis)
        } else {
            g.unturned(c.axis)
        }) == f,
{
}

/// A pair of directions: the position of something on a slice, in the basis of the slice.
#[derive(Debug, Clone, Copy, PartialEq, Eq, Hash, Structural)]
pub struct Vec2 {
    /// First coordinate
    pub x: Direction,
    /// Second coordinate
    pub y: Direction,
}

/// A triple of directions, one per axis: the position of a corner-like piece.
#[derive(Debug, Clone, Copy, PartialEq, Eq, Hash, Structural)]
pub struct Vec3 {
    /// Coordinate on the X axis
    pub x: Direction,
    /// Coordinate on the Y axis
    pub y: Direction,
    /// Coordinate on the Z axis
    pub z: Direction,
}

impl Vec2 {
    /// Creates a new vector
    pub fn new(x: Direction, y: Direction) -> (r: Vec2)
        ensures
            r == (Vec2 { x, y }),
    {
        Vec2 { x, y }
    }
}

impl Vec3 {
    /// Creates a new vector
    pub fn new(x: Direction, y: Direction, z: Direction) -> (r: Vec3)
        ensures
            r == (Vec3 { x, y, z }),
    {
        Vec3 { x, y, z }
    }

    /// The coordinate on the given axis.
    pub open spec fn at(self, axis: Axis) -> Direction {
        match axis {
            Axis::X => self.x,
            Axis::Y => self.y,
            Axis::Z => self.z,
        }
    }

    /// The vector with the coordinate on `axis` replaced.
    pub open spec fn with(self, axis: Axis, d: Direction) -> Vec3 {
        match axis {
            Axis::X => Vec3 { x: d, ..self },
            Axis::Y => Vec3 { y: d, ..self },
            Axis::Z => Vec3 { z: d, ..self },
        }
    }

    /// The coordinate on the given axis.
    pub fn get(&self, axis: Axis) -> (r: Direction)
        ensures
            r == self.at(axis),
    {
        match axis {
            Axis::X => self.x,
            Axis::Y => self.y,
            Axis::Z => self.z,
        }
    }

    /// Replaces the coordinate on the given axis.
    pub fn set(&mut self, axis: Axis, d: Direction)
        ensures
            *final(self) == old(self).with(axis, d),
    {
        match axis {
            Axis::X => self.x = d,
            Axis::Y => self.y = d,
            Axis::Z => self.z = d,
        }
    }
}

impl Face {
    /// Whether a face contains a position given as a vector of directions.
    pub fn contains_vector(&self, vec: &Vec3) -> (r: bool)
        ensures
            r == (vec.at(self.axis) == self.direction),
    {
        vec.get(self.axis) == self.direction
    }
}

} // verus!
