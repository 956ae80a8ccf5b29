//! Edge piece of the cube.

use vstd::prelude::*;

use crate::moves::rotation::{rotate_vec2, rot2, AxisRotation, Rotatable};
use crate::moves::{Amount, AxisMove};
use crate::space::{Axis, Direction, Face, ParallelAxesError, Vec2};

verus! {

/// An edge piece of the cube.
///
/// The edge lies between two faces; `normal_axis` is the axis of neither of them, and
/// `slice_position` holds the directions of the two faces on the other axes, in the order
/// `normal_axis.next()`, `normal_axis.next().next()`.
///
/// An edge is oriented if its orientation sticker (the one on the U/D face for edges on U/D,
/// otherwise the one on F/B) is where the original piece would have it. Only quarter turns on
/// the X axis or on the edge's own normal axis change it.
#[derive(Debug, Clone, Copy, PartialEq, Eq, Hash, Structural)]
pub struct Edge {
    /// The axis of the normal of the slice the edge is on
    pub normal_axis: Axis,
    /// The position of the edge on the slice
    pub slice_position: Vec2,
    /// Whether the edge is oriented or not
    pub oriented: bool,
}

/// The position of an edge: its normal axis and the position on the slice.
pub type EdgePosition = (Axis, Vec2);

impl Edge {
    /// The two faces of an edge at the given position.
    pub open spec fn faces_at(pos: EdgePosition) -> (Face, Face) {
        (
            Face { axis: pos.0.succ(), direction: pos.1.x },
            Face { axis: pos.0.succ().succ(), direction: pos.1.y },
        )
    }

    /// The position of the edge between two perpendicular faces (given in any order).
    pub open spec fn between(a: Face, b: Face) -> EdgePosition {
        let normal = Axis::at(3 - a.axis.ord() - b.axis.ord());
        if a.axis == normal.succ() {
            (normal, Vec2 { x: a.direction, y: b.direction })
        } else {
            (normal, Vec2 { x: b.direction, y: a.direction })
        }
    }

    /// The position of the edge.
    pub open spec fn pos(self) -> EdgePosition {
        (self.normal_axis, self.slice_position)
    }

    /// Whether the edge lies on the face.
    pub open spec fn on_face(self, face: Face) -> bool {
        Edge::faces_at(self.pos()).0 == face || Edge::faces_at(self.pos()).1 == face
    }

    /// The edge after being moved by a move: rotated if it is on the moved face.
    pub open spec fn moved_by(self, m: AxisMove) -> Edge {
        if self.on_face(m.face) {
            self.rotated_by(AxisRotation::of_move(m))
        } else {
            self
        }
    }

    /// Creates a new [`Edge`]
    pub fn new(normal_axis: Axis, slice_position: Vec2, oriented: bool) -> (r: Edge)
        ensures
            r == (Edge { normal_axis, slice_position, oriented }),
    {
        Edge { normal_axis, slice_position, oriented }
    }

    /// Creates a new oriented edge
    pub fn oriented(normal_axis: Axis, slice_position: Vec2) -> (r: Edge)
        ensures
            r == (Edge { normal_axis, slice_position, oriented: true }),
    {
        Edge::new(normal_axis, slice_position, true)
    }

    /// The position of the edge: its normal axis and its position on the slice.
    pub fn position(&self) -> (r: EdgePosition)
        ensures
            r == self.pos(),
    {
        (self.normal_axis, self.slice_position)
    }

    /// Whether the edge is solved given the position it started at: it is back there and
    /// oriented.
    pub fn is_solved(&self, original_pos: &EdgePosition) -> (r: bool)
        ensures
            r == (self.pos() == *original_pos && self.oriented),
    {
        self.normal_axis == original_pos.0 && self.slice_position == original_pos.1
            && self.oriented
    }

    /// Gets the faces of the edge
    pub fn faces(&self) -> (r: [Face; 2])
        ensures
            r[0] == Edge::faces_at(self.pos()).0,
            r[1] == Edge::faces_at(self.pos()).1,
    {
        let x = self.normal_axis.next();
        let y = x.next();
        [Face::new(x, self.slice_position.x), Face::new(y, self.slice_position.y)]
    }

    /// Returns the edge with the opposite orientation.
    pub fn flipped(self) -> (r: Edge)
        ensures
            r == (Edge { oriented: !self.oriented, ..self }),
    {
        let mut s = self;
        s.oriented = !s.oriented;
        s
    }

    /// Flips the orientation of the edge.
    pub fn flip(&mut self)
        ensures
            *final(self) == (Edge { oriented: !old(self).oriented, ..*old(self) }),
    {
        self.oriented = !self.oriented;
    }

    /// Calculates the position of an edge placed in between the given faces.
    ///
    /// Errors if the faces are on the same axis.
    pub fn position_from_faces(faces: [Face; 2]) -> (r: Result<EdgePosition, ParallelAxesError>)
        ensures
            faces[0].axis == faces[1].axis ==> r == Err::<EdgePosition, ParallelAxesError>(
                ParallelAxesError::SameAxis(faces[0].axis),
            ),
            faces[0].axis != faces[1].axis ==> r == Ok::<EdgePosition, ParallelAxesError>(
                Edge::between(faces[0], faces[1]),
            ),
    {
        let a = faces[0];
        let b = faces[1];
        let normal_axis = match Axis::other(&a.axis, &b.axis) {
            Some(n) => n,
            None => return Err(ParallelAxesError::SameAxis(a.axis)),
        };
        let x = normal_axis.next();
        if x == a.axis {
            Ok((normal_axis, Vec2::new(a.direction, b.direction)))
        } else {
            Ok((normal_axis, Vec2::new(b.direction, a.direction)))
        }
    }

    /// Creates an oriented edge placed in between the given faces. Errors if the faces are on
    /// the same axis.
    pub fn try_from_faces(faces: [Face; 2]) -> (r: Result<Edge, ParallelAxesError>)
        ensures
            faces[0].axis == faces[1].axis ==> r == Err::<Edge, ParallelAxesError>(
                ParallelAxesError::SameAxis(faces[0].axis),
            ),
            faces[0].axis != faces[1].axis ==> r == Ok::<Edge, ParallelAxesError>(
                Edge {
                    normal_axis: Edge::between(faces[0], faces[1]).0,
                    slice_position: Edge::between(faces[0], faces[1]).1,
                    oriented: true,
                },
            ),
    {
        let (normal_axis, slice_position) = Edge::position_from_faces(faces)?;
        Ok(Edge { normal_axis, slice_position, oriented: true })
    }

    /// The face that has the orientation sticker at the given position: the U/D face for
    /// edges on the U/D faces, the F/B face for the other ones.
    pub open spec fn orientation_face_at(pos: EdgePosition) -> Face {
        match pos.0 {
            Axis::X => Face { axis: Axis::Y, direction: pos.1.x },
            Axis::Y => Face { axis: Axis::Z, direction: pos.1.x },
            Axis::Z => Face { axis: Axis::Y, direction: pos.1.y },
        }
    }

    /// The face without the orientation sticker at the given position.
    pub open spec fn non_orientation_face_at(pos: EdgePosition) -> Face {
        match pos.0 {
            Axis::X => Face { axis: Axis::Z, direction: pos.1.y },
            Axis::Y => Face { axis: Axis::X, direction: pos.1.y },
            Axis::Z => Face { axis: Axis::X, direction: pos.1.x },
        }
    }

    /// Returns the face that has the orientation sticker.
    pub fn orientation_face(pos: EdgePosition) -> (r: Face)
        ensures
            r == Edge::orientation_face_at(pos),
    {
        let (normal, slice_pos) = pos;
        match normal {
            Axis::X => Face::new(Axis::Y, slice_pos.x),
            Axis::Y => Face::new(Axis::Z, slice_pos.x),
            Axis::Z => Face::new(Axis::Y, slice_pos.y),
        }
    }

    /// Returns the face that is not the [`orientation_face`](Self::orientation_face)
    pub fn non_orientation_face(pos: EdgePosition) -> (r: Face)
        ensures
            r == Edge::non_orientation_face_at(pos),
    {
        let (normal, slice_pos) = pos;
        match normal {
            Axis::X => Face::new(Axis::Z, slice_pos.y),
            Axis::Y => Face::new(Axis::X, slice_pos.y),
            Axis::Z => Face::new(Axis::X, slice_pos.x),
        }
    }

    /// Gets the direction of the edge position on the given axis. `None` if the axis is the
    /// normal axis of the edge.
    pub fn direction_on_axis(pos: &EdgePosition, axis: Axis) -> (r: Option<Direction>)
        ensures
            axis == pos.0 ==> r is None,
            axis == pos.0.succ() ==> r == Some(pos.1.x),
            axis == pos.0.succ().succ() ==> r == Some(pos.1.y),
    {
        let (normal, slice_pos) = *pos;
        if axis == normal {
            return None;
        }
        let x = normal.next();
        if axis == x {
            Some(slice_pos.x)
        } else {
            Some(slice_pos.y)
        }
    }

    /// Moves the edge by a face turn: rotates it if it is on the turned face.
    pub fn apply(&mut self, m: &AxisMove)
        ensures
            *final(self) == old(self).moved_by(*m),
    {
        if m.face.contains_edge(self) {
            let rotation = AxisRotation::from_move(m);
            self.rotate(&rotation);
        }
    }
}

impl Rotatable for Edge {
    /// The edge's faces rotate; the orientation flips on quarter turns around X or around the
    /// edge's own normal.
    #[verifier::opaque]
    open spec fn rotated_by(self, rotation: AxisRotation) -> Edge {
        let (f1, f2) = Edge::faces_at(self.pos());
        let (normal, slice) = Edge::between(f1.rotated_by(rotation), f2.rotated_by(rotation));
        Edge {
            normal_axis: normal,
            slice_position: slice,
            oriented: self.oriented != (rotation.amount != Amount::Double && (rotation.axis
                == Axis::X || rotation.axis == self.normal_axis)),
        }
    }

    fn rotate(&mut self, rotation: &AxisRotation) {
        proof {
            reveal(<Edge as Rotatable>::rotated_by);
        }
        let flips = rotation.flips_edge_orientation(self.normal_axis);
        self.oriented = self.oriented != flips;
        if rotation.axis == self.normal_axis {
            self.slice_position = rotate_vec2(&rotation.amount, &self.slice_position);
            return ;
        }
        let faces = self.faces();
        let faces = [faces[0].rotated(rotation), faces[1].rotated(rotation)];
        match Edge::position_from_faces(faces) {
            Ok((new_normal, new_slice_position)) => {
                self.normal_axis = new_normal;
                self.slice_position = new_slice_position;
            },
            Err(_) => {
                assert(false);
            },
        }
    }
}

impl Face {
    /// Whether a face contains an edge
    pub fn contains_edge(&self, edge: &Edge) -> (r: bool)
        ensures
            r == edge.on_face(*self),
    {
        let offset = edge.normal_axis.offset(&self.axis);
        if offset == 0 {
            false
        } else if offset == 1 {
            edge.slice_position.x == self.direction
        } else {
            edge.slice_position.y == self.direction
        }
    }
}

/// The edge between two perpendicular faces lies on exactly those two faces.
pub proof fn lemma_between_faces(a: Face, b: Face)
    requires
        a.axis != b.axis,
    ensures
        Edge::faces_at(Edge::between(a, b)) == (a, b) || Edge::faces_at(Edge::between(a, b))
            == (b, a),
        Edge::between(a, b) == Edge::between(b, a),
{
}

/// Rotating an edge by a rotation and then by its inverse gives back the edge, orientation
/// included.
#[verifier::spinoff_prover]
#[verifier::rlimit(40)]
pub proof fn lemma_edge_rotation_inverse(e: Edge, r: AxisRotation)
    ensures
        e.rotated_by(r).rotated_by(r.inv()) == e,
{
    reveal(<Edge as Rotatable>::rotated_by);
    let (f1, f2) = Edge::faces_at(e.pos());
    crate::moves::rotation::lemma_rotation_inverse(r, f1, e.slice_position, crate::space::Vec3 { x: Direction::Positive, y: Direction::Positive, z: Direction::Positive }, e.normal_axis);
    crate::moves::rotation::lemma_rotation_inverse(r, f2, e.slice_position, crate::space::Vec3 { x: Direction::Positive, y: Direction::Positive, z: Direction::Positive }, e.normal_axis);
}

/// Two clockwise quarter turns around an axis move an edge like a half turn.
pub proof fn lemma_edge_two_quarter_turns(e: Edge, axis: Axis)
    ensures
        e.rotated_by(AxisRotation { axis, amount: Amount::Single }).rotated_by(
            AxisRotation { axis, amount: Amount::Single },
        ) == e.rotated_by(AxisRotation { axis, amount: Amount::Double }),
{
    reveal(<Edge as Rotatable>::rotated_by);
    match axis {
        Axis::X => {},
        Axis::Y => {},
        Axis::Z => {},
    }
}

/// Four clockwise quarter turns around an axis give back the edge, orientation included.
pub proof fn lemma_edge_rotation_four_times(e: Edge, axis: Axis)
    ensures
        ({
            let r = AxisRotation { axis, amount: Amount::Single };
            e.rotated_by(r).rotated_by(r).rotated_by(r).rotated_by(r) == e
        }),
{
    let r = AxisRotation { axis, amount: Amount::Single };
    let d = AxisRotation { axis, amount: Amount::Double };
    lemma_edge_two_quarter_turns(e, axis);
    lemma_edge_two_quarter_turns(e.rotated_by(r).rotated_by(r), axis);
    lemma_edge_rotation_inverse(e, d);
}

/// Doing a move and then its inverse leaves every edge where it was.
pub proof fn lemma_edge_move_inverse(e: Edge, m: AxisMove)
    ensures
        e.moved_by(m).moved_by(m.inv()) == e,
{
    reveal(<Edge as Rotatable>::rotated_by);
    lemma_edge_rotation_inverse(e, AxisRotation::of_move(m));
}

/// Rotations around the same axis compose by adding their turns: two rotations give the
/// rotation by the sum of their turns, or nothing when it is a multiple of 4.
pub proof fn lemma_edge_rotation_compose(e: Edge, axis: Axis, a: Amount, b: Amount)
    ensures
        e.rotated_by(AxisRotation { axis, amount: a }).rotated_by(AxisRotation { axis, amount: b })
            == match Amount::of_turns(a.turns() + b.turns()) {
            None => e,
            Some(c) => e.rotated_by(AxisRotation { axis, amount: c }),
        },
{
    let s = AxisRotation { axis, amount: Amount::Single };
    assert forall|y: Edge| #[trigger] y.rotated_by(s).rotated_by(s).rotated_by(s).rotated_by(s) == y by {
        lemma_edge_rotation_four_times(y, axis);
    }
    assert forall|y: Edge| #[trigger] y.rotated_by(s).rotated_by(s) == y.rotated_by(AxisRotation { axis, amount: Amount::Double }) by {
        lemma_edge_two_quarter_turns(y, axis);
    }
    assert forall|y: Edge| #[trigger] y.rotated_by(AxisRotation { axis, amount: Amount::Inverse }).rotated_by(s) == y by {
        lemma_edge_rotation_inverse(y, AxisRotation { axis, amount: Amount::Inverse });
    }
    crate::moves::rotation::lemma_compose_from_quarters(e, axis, a, b);
}

/// A rotation around the axis of a face keeps the edges that are on the face on it, and the
/// edges that are not off it.
pub proof fn lemma_edge_rotation_keeps_face(e: Edge, r: AxisRotation, f: Face)
    requires
        f.axis == r.axis,
    ensures
        e.rotated_by(r).on_face(f) == e.on_face(f),
{
    reveal(<Edge as Rotatable>::rotated_by);
}

} // verus!
