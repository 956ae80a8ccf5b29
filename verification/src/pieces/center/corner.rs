//! Center corner piece. See [CenterCorner] for more info.

use vstd::prelude::*;

use crate::moves::rotation::{AxisRotation, Rotatable};
use crate::moves::Amount;
use crate::moves::wide::{DepthPiece, DepthPieceSet, WideAxisMove};
use crate::pieces::{axis_at_index, direction_at_bit, direction_of_bit, PieceSetDescriptor};
use crate::space::{Axis, Direction, Face, Vec3};

verus! {

/// A center corner piece of the cube. There are 4 of these in each face of a cube.
///
/// It is stored as the corner of the cube it is closest to, together with the axis of the
/// face it is on.
#[derive(Debug, Clone, Copy, PartialEq, Eq, Hash, Structural)]
pub struct CenterCorner {
    position: Vec3,
    axis: Axis,
}

impl CenterCorner {
    /// The closest corner position.
    pub closed spec fn corner(self) -> Vec3 {
        self.position
    }

    /// The axis of the face the piece is on.
    pub closed spec fn face_axis(self) -> Axis {
        self.axis
    }

    /// The face the piece is on.
    pub open spec fn face(self) -> Face {
        Face { axis: self.face_axis(), direction: self.corner().at(self.face_axis()) }
    }

    /// A center corner is determined by its closest corner and the axis of its face.
    pub proof fn lemma_parts_determine(a: CenterCorner, b: CenterCorner)
        requires
            a.corner() == b.corner(),
            a.face_axis() == b.face_axis(),
        ensures
            a == b,
    {
    }

    /// Creates a center corner from its closest corner and the axis of its face.
    pub fn new(position: Vec3, axis: Axis) -> (r: CenterCorner)
        ensures
            r.corner() == position,
            r.face_axis() == axis,
    {
        CenterCorner { position, axis }
    }

    /// Determines whether the [`CenterCorner`] is solved: the direction of its face along its
    /// face's axis is that of the original position's face.
    pub fn is_solved(&self, original: &CenterCorner) -> (r: bool)
        ensures
            r == (self.corner().at(self.face_axis()) == original.corner().at(
                original.face_axis(),
            )),
    {
        self.position.get(self.axis) == original.position.get(original.axis)
    }
}

impl Rotatable for CenterCorner {
    /// The closest corner and the axis of the face both rotate.
    closed spec fn rotated_by(self, rotation: AxisRotation) -> CenterCorner {
        CenterCorner {
            position: self.position.rotated_by(rotation),
            axis: self.axis.rotated_by(rotation),
        }
    }

    fn rotate(&mut self, rotation: &AxisRotation) {
        self.position.rotate(rotation);
        self.axis.rotate(rotation);
    }
}

impl DepthPiece for CenterCorner {
    /// A center corner is turned when it is on the side of the turned face, and either its
    /// normal depth is within the depth of the move or it is on the turned face itself.
    open spec fn in_wide_move(self, normal_depth: u32, tangent_depth: u32, face: Face, depth: u32, max_depth: u32) -> bool {
        self.corner().at(face.axis) == face.direction && (normal_depth <= depth
            || self.face_axis() == face.axis)
    }

    fn is_in_wide_move<const M: u32>(
        &self,
        normal_depth: u32,
        _tangent_depth: u32,
        m: &WideAxisMove<M>,
    ) -> (r: bool) {
        if self.position.get(m.face().axis) == m.face().direction {
            if normal_depth <= m.depth() {
                return true;
            }
            if self.axis == m.face().axis {
                return true;
            }
        }
        false
    }

    proof fn lemma_turned_stays(
        self,
        normal_depth: u32,
        tangent_depth: u32,
        face: Face,
        amount: Amount,
        depth: u32,
        max_depth: u32,
    ) {
        lemma_center_corner_rotated(self, AxisRotation { axis: face.axis, amount });
    }

    proof fn lemma_rotation_undone(self, rotation: AxisRotation) {
        lemma_center_corner_rotation_inverse(self, rotation);
    }
}

/// How a center corner rotates, in terms of its parts.
pub proof fn lemma_center_corner_rotated(c: CenterCorner, r: AxisRotation)
    ensures
        c.rotated_by(r).corner() == c.corner().rotated_by(r),
        c.rotated_by(r).face_axis() == c.face_axis().rotated_by(r),
{
}

/// Rotating a center corner by a rotation and then by its inverse gives it back.
pub proof fn lemma_center_corner_rotation_inverse(c: CenterCorner, r: AxisRotation)
    ensures
        c.rotated_by(r).rotated_by(r.inv()) == c,
{
    crate::moves::rotation::lemma_rotation_inverse(
        r,
        Face { axis: Axis::X, direction: Direction::Positive },
        crate::space::Vec2 { x: Direction::Positive, y: Direction::Positive },
        c.corner(),
        c.face_axis(),
    );
}

impl PieceSetDescriptor<24> for CenterCorner {
    /// The center corners in the order of the coordinates of their closest corner (positive
    /// first) and then of the axis of their face, the first varying the fastest.
    closed spec fn solved_piece(i: int) -> CenterCorner {
        CenterCorner {
            position: Vec3 {
                x: direction_of_bit(i % 2),
                y: direction_of_bit((i / 2) % 2),
                z: direction_of_bit((i / 4) % 2),
            },
            axis: Axis::at((i / 8) % 3),
        }
    }

    /// A center corner counts as solved when the direction of its face along its face's axis
    /// is that of the face it started on.
    open spec fn solved_as(self, original: CenterCorner) -> bool {
        self.corner().at(self.face_axis()) == original.corner().at(original.face_axis())
    }

    fn solved_pieces() -> (r: [CenterCorner; 24]) {
        let p = Direction::Positive;
        let mut r = [CenterCorner::new(Vec3::new(p, p, p), Axis::X); 24];
        let mut i: usize = 0;
        while i < 24
            invariant
                i <= 24,
                forall|k: int| 0 <= k < i ==> #[trigger] r[k] == Self::solved_piece(k),
            decreases 24 - i,
        {
            let c = CenterCorner::new(
                Vec3::new(direction_at_bit(i % 2), direction_at_bit((i / 2) % 2), direction_at_bit((i / 4) % 2)),
                axis_at_index((i / 8) % 3),
            );
            r[i] = c;
            i = i + 1;
        }
        r
    }

    fn is_solved_as(&self, original: &CenterCorner) -> (r: bool) {
        self.is_solved(original)
    }
}

/// How a wide move turns the center corners of a set at normal depth `ND`: a center corner on
/// the side of the move's face is turned with the face (rotated like the face turn) when the
/// move reaches its depth (`ND` at most the depth of the move, so a deeper move turns every
/// piece that a shallower one turns), and always when it is on the turned face itself; a
/// center corner on the other side is never turned.
pub proof fn lemma_center_corner_wide_move<const N: usize, const ND: u32, const TD: u32, const M: u32>(
    c: CenterCorner,
    m: WideAxisMove<M>,
)
    ensures
        c.corner().at(m.turn().face.axis) == m.turn().face.direction && ND <= m.layers()
            ==> DepthPieceSet::<CenterCorner, N, ND, TD>::moved_piece(c, m) == c.rotated_by(
            AxisRotation::of_move(m.turn()),
        ),
        c.face() == m.turn().face ==> DepthPieceSet::<CenterCorner, N, ND, TD>::moved_piece(c, m)
            == c.rotated_by(AxisRotation::of_move(m.turn())),
        c.corner().at(m.turn().face.axis) != m.turn().face.direction
            ==> DepthPieceSet::<CenterCorner, N, ND, TD>::moved_piece(c, m) == c,
{
}

} // verus!
