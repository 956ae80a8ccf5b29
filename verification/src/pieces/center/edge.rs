//! Center edge piece. See [`CenterEdge`] for more info.

use vstd::prelude::*;

use crate::moves::rotation::{AxisRotation, Rotatable};
use crate::moves::Amount;
use crate::moves::wide::{DepthPiece, DepthPieceSet, WideAxisMove};
use crate::pieces::{direction_at_bit, direction_of_bit, face_at_index, PieceSetDescriptor};
use crate::space::{Axis, Direction, Face, ParallelAxesError};

verus! {

/// A center edge piece of the cube. There are 4 of these in each face of a cube.
#[derive(Debug, Clone, Copy, PartialEq, Eq, Hash, Structural)]
pub struct CenterEdge {
    /// The main face of the center edge piece.
    pub main_face: Face,
    /// The handedness of the basis of the piece: if positive, the side axis is the next one
    /// after the main axis (X -> Y -> Z -> X); if negative, the previous one.
    pub handedness: Direction,
    /// The direction of the side axis
    pub side_direction: Direction,
}

impl CenterEdge {
    /// The side face of the piece.
    pub open spec fn side(self) -> Face {
        Face { axis: self.main_face.axis.step(self.handedness), direction: self.side_direction }
    }

    /// The center edge with the given main face and side face (on another axis).
    pub open spec fn with_faces(main_face: Face, side_face: Face) -> CenterEdge {
        CenterEdge {
            main_face,
            handedness: if side_face.axis == main_face.axis.succ() {
                Direction::Positive
            } else {
                Direction::Negative
            },
            side_direction: side_face.direction,
        }
    }

    /// Creates a new [`CenterEdge`] piece.
    pub fn new(main_face: Face, handedness: Direction, side_direction: Direction) -> (r: CenterEdge)
        ensures
            r == (CenterEdge { main_face, handedness, side_direction }),
    {
        CenterEdge { main_face, handedness, side_direction }
    }

    /// Tries to create a new [`CenterEdge`] piece from two faces. Fails if the axes of the
    /// faces are parallel.
    pub fn try_from_faces(main_face: Face, side_face: Face) -> (r: Result<CenterEdge, ParallelAxesError>)
        ensures
            main_face.axis == side_face.axis ==> r == Err::<CenterEdge, ParallelAxesError>(
                ParallelAxesError::SameAxis(main_face.axis),
            ),
            main_face.axis != side_face.axis ==> r == Ok::<CenterEdge, ParallelAxesError>(
                CenterEdge::with_faces(main_face, side_face),
            ),
            r matches Ok(c) ==> c.main_face == main_face && c.side() == side_face,
    {
        let handedness = main_face.axis.get_handedness(&side_face.axis)?;
        Ok(CenterEdge { main_face, handedness, side_direction: side_face.direction })
    }

    /// Gets the side face of the piece.
    pub fn side_face(&self) -> (r: Face)
        ensures
            r == self.side(),
            r.axis != self.main_face.axis,
    {
        let side_axis = self.main_face.axis.next_with_handedness(self.handedness);
        Face::new(side_axis, self.side_direction)
    }

    /// Gets the normal axis of the [`CenterEdge`]: the axis that isn't the main or the side
    /// axis.
    pub fn normal_axis(&self) -> (r: Axis)
        ensures
            Axis::third(self.main_face.axis, self.side().axis) == Some(r),
    {
        self.main_face.axis.next_with_handedness(self.handedness.neg())
    }

    /// Whether the piece is solved: it is on its original main face.
    pub fn is_solved(&self, original_pos: &CenterEdge) -> (r: bool)
        ensures
            r == (self.main_face == original_pos.main_face),
    {
        self.main_face == original_pos.main_face
    }
}

impl Rotatable for CenterEdge {
    /// The main face and the side face both rotate.
    open spec fn rotated_by(self, rotation: AxisRotation) -> CenterEdge {
        CenterEdge::with_faces(self.main_face.rotated_by(rotation), self.side().rotated_by(rotation))
    }

    fn rotate(&mut self, rotation: &AxisRotation) {
        let side_face = self.side_face().rotated(rotation);
        self.main_face.rotate(rotation);
        let handedness = match self.main_face.axis.get_handedness(&side_face.axis) {
            Ok(h) => h,
            Err(_) => {
                assert(false);
                Direction::Positive
            },
        };
        self.handedness = handedness;
        self.side_direction = side_face.direction;
    }
}

impl DepthPiece for CenterEdge {
    /// A center edge is turned when it is on the turned face, or when the turned face is its
    /// side face and its normal depth is within the maximum depth of the move.
    open spec fn in_wide_move(self, normal_depth: u32, tangent_depth: u32, face: Face, depth: u32, max_depth: u32) -> bool {
        face == self.main_face || (face == self.side() && normal_depth <= max_depth)
    }

    fn is_in_wide_move<const M: u32>(
        &self,
        normal_depth: u32,
        _tangent_depth: u32,
        m: &WideAxisMove<M>,
    ) -> (r: bool) {
        if *m.face() == self.main_face {
            return true;
        }
        if *m.face() == self.side_face() && normal_depth <= M {
            return true;
        }
        false
    }

    proof fn lemma_turned_stays(
        self,
        normal_depth: u32,
        tangent_depth: u32,
        face: Face,
        amount: Amount,
        depth: u32,
        max_depth: u32,
    ) {
        
    }

    proof fn lemma_rotation_undone(self, rotation: AxisRotation) {
        lemma_center_edge_rotation_inverse(self, rotation);
    }
}

/// Rotating a center edge by a rotation and then by its inverse gives it back.
pub proof fn lemma_center_edge_rotation_inverse(c: CenterEdge, r: AxisRotation)
    ensures
        c.rotated_by(r).rotated_by(r.inv()) == c,
{
    crate::moves::rotation::lemma_rotation_inverse(
        r,
        c.main_face,
        crate::space::Vec2 { x: Direction::Positive, y: Direction::Positive },
        crate::space::Vec3 { x: Direction::Positive, y: Direction::Positive, z: Direction::Positive },
        Axis::X,
    );
    crate::moves::rotation::lemma_rotation_inverse(
        r,
        c.side(),
        crate::space::Vec2 { x: Direction::Positive, y: Direction::Positive },
        crate::space::Vec3 { x: Direction::Positive, y: Direction::Positive, z: Direction::Positive },
        Axis::X,
    );
}

impl PieceSetDescriptor<24> for CenterEdge {
    /// The center edges in the order of their main face (R, U, F, L, D, B), then of their
    /// handedness and of their side direction (positive first), the first varying the fastest.
    open spec fn solved_piece(i: int) -> CenterEdge {
        CenterEdge {
            main_face: Face::all_faces()[i % 6],
            handedness: direction_of_bit((i / 6) % 2),
            side_direction: direction_of_bit((i / 12) % 2),
        }
    }

    /// A center edge is solved when it is on the face it started on.
    open spec fn solved_as(self, original: CenterEdge) -> bool {
        self.main_face == original.main_face
    }

    fn solved_pieces() -> (r: [CenterEdge; 24]) {
        let p = Direction::Positive;
        let mut r = [CenterEdge::new(Face::R(), p, p); 24];
        let mut i: usize = 0;
        while i < 24
            invariant
                i <= 24,
                forall|k: int| 0 <= k < i ==> #[trigger] r[k] == Self::solved_piece(k),
            decreases 24 - i,
        {
            let c = CenterEdge::new(
                face_at_index(i % 6),
                direction_at_bit((i / 6) % 2),
                direction_at_bit((i / 12) % 2),
            );
            r[i] = c;
            i = i + 1;
        }
        r
    }

    fn is_solved_as(&self, original: &CenterEdge) -> (r: bool) {
        self.is_solved(original)
    }
}

/// How a wide move turns the center edges of a set at normal depth `ND`: a center edge on the
/// turned face always turns with it (rotated like the face turn); one pointing at the turned face
/// turns when its depth is within the maximum depth `M` of the moves; any other stays.
pub proof fn lemma_center_edge_wide_move<const N: usize, const ND: u32, const TD: u32, const M: u32>(
    c: CenterEdge,
    m: WideAxisMove<M>,
)
    ensures
        c.main_face == m.turn().face ==> DepthPieceSet::<CenterEdge, N, ND, TD>::moved_piece(c, m)
            == c.rotated_by(AxisRotation::of_move(m.turn())),
        c.side() == m.turn().face && ND <= M ==> DepthPieceSet::<CenterEdge, N, ND, TD>::moved_piece(
            c,
            m,
        ) == c.rotated_by(AxisRotation::of_move(m.turn())),
        c.main_face != m.turn().face && (c.side() != m.turn().face || ND > M)
            ==> DepthPieceSet::<CenterEdge, N, ND, TD>::moved_piece(c, m) == c,
{
}

} // verus!
