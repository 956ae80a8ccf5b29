//! The wing pieces for 4x4+. See [Wing] for more info.

use vstd::prelude::*;

use crate::moves::rotation::{AxisRotation, Rotatable};
use crate::moves::Amount;
use crate::moves::wide::{DepthPiece, DepthPieceSet, WideAxisMove};
use crate::pieces::edge::{Edge, EdgePosition};
use crate::pieces::{axis_at_index, direction_at_bit, direction_of_bit, PieceSetDescriptor};
use crate::space::{Axis, Direction, Face, ParallelAxesError, Vec2};

verus! {

/// The wing pieces. These exist on 4x4x4 and up.
///
/// They look like edges, but there are 24 of them and they are not orientable. The 24 states
/// of the wings correspond to the 24 states of the edges (12 positions, oriented or not): a
/// wing is stored as its corresponding edge.
#[derive(Debug, Clone, Copy, PartialEq, Eq, Hash, Structural)]
pub struct Wing {
    corresponding_edge: Edge,
}

/// The direction along the normal of a wing, given the normal axis, the slice position and the
/// pseudo orientation of its corresponding edge. It is negative exactly when an odd number of
/// these hold: the normal is X, the two slice coordinates are equal, the edge is oriented.
pub open spec fn wing_direction(normal_axis: Axis, slice_position: Vec2, pseudo_oriented: bool) -> Direction {
    if ((normal_axis == Axis::X) != (slice_position.x == slice_position.y)) != pseudo_oriented {
        Direction::Negative
    } else {
        Direction::Positive
    }
}

/// Gets the wing normal direction based on a normal axis, the slice position and the pseudo
/// orientation.
///
/// This normal direction is consistent with the way that edges flip orientation (when doing a
/// non double move on the X axis).
pub fn wing_normal_direction(normal_axis: Axis, slice_position: Vec2, pseudo_oriented: bool) -> (r: Direction)
    ensures
        r == wing_direction(normal_axis, slice_position, pseudo_oriented),
{
    let is_x_axis = normal_axis == Axis::X;
    let is_even_position_parity = slice_position.x == slice_position.y;
    if (is_x_axis != is_even_position_parity) != pseudo_oriented {
        Direction::Negative
    } else {
        Direction::Positive
    }
}

impl Wing {
    /// The edge whose state the wing is stored as.
    pub closed spec fn edge(self) -> Edge {
        self.corresponding_edge
    }

    /// The direction along the normal of the wing.
    pub open spec fn direction(self) -> Direction {
        wing_direction(self.edge().normal_axis, self.edge().slice_position, self.edge().oriented)
    }

    /// A wing is determined by its corresponding edge.
    pub proof fn lemma_edge_determines(a: Wing, b: Wing)
        requires
            a.edge() == b.edge(),
        ensures
            a == b,
    {
    }

    /// Get the normal axis
    pub fn normal_axis(&self) -> (r: Axis)
        ensures
            r == self.edge().normal_axis,
    {
        self.corresponding_edge.normal_axis
    }

    /// The position of the slice of the wing.
    pub fn slice_position(&self) -> (r: Vec2)
        ensures
            r == self.edge().slice_position,
    {
        self.corresponding_edge.slice_position
    }

    /// The direction along the normal of the wing
    pub fn normal_direction(&self) -> (r: Direction)
        ensures
            r == self.direction(),
    {
        wing_normal_direction(
            self.normal_axis(),
            self.corresponding_edge.slice_position,
            self.corresponding_edge.oriented,
        )
    }

    /// Returns the two faces that the wing is on
    pub fn faces(&self) -> (r: [Face; 2])
        ensures
            r[0] == Edge::faces_at(self.edge().pos()).0,
            r[1] == Edge::faces_at(self.edge().pos()).1,
    {
        self.corresponding_edge.faces()
    }

    /// Creates a new [`Wing`] at the given position with the given direction along its normal.
    pub fn new(normal_axis: Axis, slice_position: Vec2, normal_direction: Direction) -> (r: Wing)
        ensures
            r.edge() == (Edge {
                normal_axis,
                slice_position,
                oriented: wing_direction(normal_axis, slice_position, true) == normal_direction,
            }),
            r.direction() == normal_direction,
    {
        let orientation = wing_normal_direction(normal_axis, slice_position, true)
            == normal_direction;
        Wing { corresponding_edge: Edge::new(normal_axis, slice_position, orientation) }
    }

    /// Creates the wing whose corresponding edge has the given position and orientation.
    pub fn new_with_orientation(normal_axis: Axis, slice_position: Vec2, oriented: bool) -> (r: Wing)
        ensures
            r.edge() == (Edge { normal_axis, slice_position, oriented }),
    {
        Wing { corresponding_edge: Edge::new(normal_axis, slice_position, oriented) }
    }

    /// Tries to create a wing from the two faces it's on and the normal direction. Errors if
    /// the faces are parallel.
    pub fn try_from_faces(faces: [Face; 2], normal_direction: Direction) -> (r: Result<Wing, ParallelAxesError>)
        ensures
            faces[0].axis == faces[1].axis ==> r == Err::<Wing, ParallelAxesError>(
                ParallelAxesError::SameAxis(faces[0].axis),
            ),
            faces[0].axis != faces[1].axis ==> (r matches Ok(w) && w.edge().pos() == Edge::between(
                faces[0],
                faces[1],
            ) && w.direction() == normal_direction),
    {
        let (normal_axis, slice_position) = Edge::position_from_faces(faces)?;
        Ok(Wing::new(normal_axis, slice_position, normal_direction))
    }

    /// Whether the wing is back at its original position.
    pub fn is_solved(&self, original_pos: &Wing) -> (r: bool)
        ensures
            r == (*self == *original_pos),
    {
        *self == *original_pos
    }
}

impl Rotatable for Wing {
    /// A wing rotates like its corresponding edge.
    closed spec fn rotated_by(self, rotation: AxisRotation) -> Wing {
        Wing { corresponding_edge: self.edge().rotated_by(rotation) }
    }

    fn rotate(&mut self, rotation: &AxisRotation) {
        self.corresponding_edge.rotate(rotation);
    }
}

impl DepthPiece for Wing {
    /// A wing is turned when it lies on the turned face, or when it lies on a slice parallel
    /// to it, on the side of the turned face, within the depth of the move.
    open spec fn in_wide_move(self, normal_depth: u32, tangent_depth: u32, face: Face, depth: u32, max_depth: u32) -> bool {
        self.edge().on_face(face) || (self.edge().normal_axis == face.axis && normal_depth
            <= depth && face.direction == self.direction())
    }

    fn is_in_wide_move<const M: u32>(
        &self,
        normal_depth: u32,
        _tangent_depth: u32,
        m: &WideAxisMove<M>,
    ) -> (r: bool) {
        if m.face().contains_edge(&self.corresponding_edge) {
            return true;
        }
        if self.corresponding_edge.normal_axis == m.face().axis {
            if normal_depth <= m.depth() && m.face().direction == self.normal_direction() {
                return true;
            }
        }
        false
    }

    proof fn lemma_turned_stays(
        self,
        normal_depth: u32,
        tangent_depth: u32,
        face: Face,
        amount: Amount,
        depth: u32,
        max_depth: u32,
    ) {
        reveal(<Edge as Rotatable>::rotated_by);
        crate::pieces::edge::lemma_edge_rotation_keeps_face(self.edge(), AxisRotation { axis: face.axis, amount }, face);
    }

    proof fn lemma_rotation_undone(self, rotation: AxisRotation) {
        lemma_wing_rotation_inverse(self, rotation);
    }
}

/// A wing rotates like its corresponding edge.
pub proof fn lemma_wing_rotated(w: Wing, r: AxisRotation)
    ensures
        w.rotated_by(r).edge() == w.edge().rotated_by(r),
{
}

/// Rotating a wing by a rotation and then by its inverse gives back the wing.
pub proof fn lemma_wing_rotation_inverse(w: Wing, r: AxisRotation)
    ensures
        w.rotated_by(r).rotated_by(r.inv()) == w,
{
    crate::pieces::edge::lemma_edge_rotation_inverse(w.edge(), r);
}

/// The direction of a wing created from a direction is that direction.
pub proof fn lemma_wing_new_direction(normal_axis: Axis, slice_position: Vec2, d: Direction)
    ensures
        wing_direction(
            normal_axis,
            slice_position,
            wing_direction(normal_axis, slice_position, true) == d,
        ) == d,
{
}

impl PieceSetDescriptor<24> for Wing {
    /// The wings in the order of their normal axis (X, Y, Z), then of the first slice
    /// coordinate, of the second one (positive first) and of the pseudo orientation (oriented
    /// first), the first varying the fastest.
    closed spec fn solved_piece(i: int) -> Wing {
        Wing {
            corresponding_edge: Edge {
                normal_axis: Axis::at(i % 3),
                slice_position: Vec2 {
                    x: direction_of_bit((i / 3) % 2),
                    y: direction_of_bit((i / 6) % 2),
                },
                oriented: (i / 12) % 2 == 0,
            },
        }
    }

    /// A wing is solved when it is back where it started.
    open spec fn solved_as(self, original: Wing) -> bool {
        self == original
    }

    fn solved_pieces() -> (r: [Wing; 24]) {
        let mut r = [Wing::new_with_orientation(Axis::X, Vec2::new(Direction::Positive, Direction::Positive), true); 24];
        let mut i: usize = 0;
        while i < 24
            invariant
                i <= 24,
                forall|k: int| 0 <= k < i ==> #[trigger] r[k] == Self::solved_piece(k),
            decreases 24 - i,
        {
            let w = Wing::new_with_orientation(
                axis_at_index(i % 3),
                Vec2::new(direction_at_bit((i / 3) % 2), direction_at_bit((i / 6) % 2)),
                (i / 12) % 2 == 0,
            );
            r[i] = w;
            i = i + 1;
        }
        r
    }

    fn is_solved_as(&self, original: &Wing) -> (r: bool) {
        *self == *original
    }
}

impl<const NORMAL_DEPTH: u32, const TANGENT_DEPTH: u32> DepthPieceSet<
    Wing,
    24,
    NORMAL_DEPTH,
    TANGENT_DEPTH,
> {
    /// The original position (the wing of a solved set at the same index) of the wing that is
    /// now at `position`, if some wing of the set is there.
    pub fn original_position_of_piece_at(&self, position: &Wing) -> (r: Option<Wing>)
        ensures
            r is None <==> forall|i: int| 0 <= i < 24 ==> self.set[i] != *position,
            r matches Some(w) ==> exists|i: int|
                0 <= i < 24 && self.set[i] == *position && w == #[trigger] Wing::solved_piece(i),
    {
        let solved = Wing::solved_pieces();
        let mut i: usize = 0;
        while i < 24
            invariant
                i <= 24,
                forall|k: int| 0 <= k < 24 ==> #[trigger] solved[k] == Wing::solved_piece(k),
                forall|k: int| 0 <= k < i ==> self.set[k] != *position,
            decreases 24 - i,
        {
            if self.set[i] == *position {
                return Some(solved[i]);
            }
            i = i + 1;
        }
        None
    }
}

/// How a wide move turns the wings of a set at normal depth `ND`: a wing on the turned face
/// always turns with it (rotated like the face turn); a wing on a slice parallel to the face, on
/// the face's side, turns when the move reaches its depth (`ND` at most the depth of the move, so
/// a deeper move turns every wing that a shallower one turns); any other wing stays.
pub proof fn lemma_wing_wide_move<const N: usize, const ND: u32, const TD: u32, const M: u32>(
    w: Wing,
    m: WideAxisMove<M>,
)
    ensures
        w.edge().on_face(m.turn().face) ==> DepthPieceSet::<Wing, N, ND, TD>::moved_piece(w, m)
            == w.rotated_by(AxisRotation::of_move(m.turn())),
        w.edge().normal_axis == m.turn().face.axis && w.direction() == m.turn().face.direction
            && ND <= m.layers() ==> DepthPieceSet::<Wing, N, ND, TD>::moved_piece(w, m) == w.rotated_by(
            AxisRotation::of_move(m.turn()),
        ),
        !w.edge().on_face(m.turn().face) && (w.edge().normal_axis != m.turn().face.axis
            || w.direction() != m.turn().face.direction || ND > m.layers())
            ==> DepthPieceSet::<Wing, N, ND, TD>::moved_piece(w, m) == w,
{
}

} // verus!
