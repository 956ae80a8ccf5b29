//! The center-wing piece. See [`CenterWing`] for more info.

use vstd::prelude::*;

use crate::moves::rotation::{AxisRotation, Rotatable};
use crate::moves::wide::{DepthPiece, DepthPieceSet, WideAxisMove};
use crate::moves::Amount;
use crate::pieces::center::edge::CenterEdge;
use crate::pieces::wing::{wing_direction, wing_normal_direction};
use crate::pieces::{direction_at_bit, direction_of_bit, face_at_index, PieceSetDescriptor};
use crate::space::{Axis, Direction, Face, Vec2};

verus! {

/// The center-wing piece: the center version of the [Wing](crate::pieces::wing::Wing) piece.
///
/// [CenterEdge]s have a tangent depth and center corners have a normal depth; a
/// [CenterWing] needs both to be identified.
#[derive(Debug, Clone, Copy, PartialEq, Eq, Hash, Structural)]
pub struct CenterWing {
    corresponding_center_edge: CenterEdge,
    pseudo_oriented: bool,
}

impl CenterWing {
    /// The center edge whose state the piece shares.
    pub closed spec fn center_edge(self) -> CenterEdge {
        self.corresponding_center_edge
    }

    /// The pseudo orientation of the piece.
    pub closed spec fn pseudo(self) -> bool {
        self.pseudo_oriented
    }

    /// The normal axis of the piece: neither the main nor the side axis.
    pub open spec fn normal(self) -> Axis {
        self.center_edge().main_face.axis.step(self.center_edge().handedness.flip())
    }

    /// The direction of the piece along its normal axis.
    pub open spec fn direction(self) -> Direction {
        wing_direction(
            self.normal(),
            Vec2 {
                x: self.center_edge().main_face.direction,
                y: self.center_edge().side_direction,
            },
            self.pseudo(),
        )
    }

    /// A center wing is determined by its center edge and its pseudo orientation.
    pub proof fn lemma_parts_determine(a: CenterWing, b: CenterWing)
        requires
            a.center_edge() == b.center_edge(),
            a.pseudo() == b.pseudo(),
        ensures
            a == b,
    {
    }

    /// Creates a new [`CenterWing`] with the given direction along its normal axis.
    pub fn new(
        main_face: Face,
        handedness: Direction,
        side_direction: Direction,
        normal_direction: Direction,
    ) -> (r: CenterWing)
        ensures
            r.center_edge() == (CenterEdge { main_face, handedness, side_direction }),
            r.direction() == normal_direction,
    {
        let corresponding_edge_center = CenterEdge::new(main_face, handedness, side_direction);
        let pseudo_oriented = wing_normal_direction(
            corresponding_edge_center.normal_axis(),
            Vec2::new(corresponding_edge_center.main_face.direction, corresponding_edge_center.side_direction),
            true,
        ) == normal_direction;
        CenterWing { corresponding_center_edge: corresponding_edge_center, pseudo_oriented }
    }

    /// Create a new [`CenterWing`] using the pseudo orientation instead of the normal
    /// direction.
    pub fn new_with_orientation(
        main_face: Face,
        handedness: Direction,
        side_direction: Direction,
        pseudo_oriented: bool,
    ) -> (r: CenterWing)
        ensures
            r.center_edge() == (CenterEdge { main_face, handedness, side_direction }),
            r.pseudo() == pseudo_oriented,
    {
        CenterWing {
            corresponding_center_edge: CenterEdge::new(main_face, handedness, side_direction),
            pseudo_oriented,
        }
    }

    /// The main face
    pub fn main_face(&self) -> (r: &Face)
        ensures
            *r == self.center_edge().main_face,
    {
        &self.corresponding_center_edge.main_face
    }

    /// The side face
    pub fn side_face(&self) -> (r: Face)
        ensures
            r == self.center_edge().side(),
    {
        self.corresponding_center_edge.side_face()
    }

    /// The normal axis
    pub fn normal_axis(&self) -> (r: Axis)
        ensures
            r == self.normal(),
            Axis::third(self.center_edge().main_face.axis, self.center_edge().side().axis) == Some(r),
    {
        self.corresponding_center_edge.normal_axis()
    }

    /// The normal direction
    pub fn normal_direction(&self) -> (r: Direction)
        ensures
            r == self.direction(),
    {
        wing_normal_direction(
            self.normal_axis(),
            Vec2::new(self.corresponding_center_edge.main_face.direction, self.corresponding_center_edge.side_direction),
            self.pseudo_oriented,
        )
    }

    /// Whether the piece is solved: it is on its original main face.
    pub fn is_solved(&self, original_pos: &CenterWing) -> (r: bool)
        ensures
            r == (self.center_edge().main_face == original_pos.center_edge().main_face),
    {
        self.corresponding_center_edge.main_face == original_pos.corresponding_center_edge.main_face
    }
}

impl Rotatable for CenterWing {
    /// The center edge rotates; the pseudo orientation flips on quarter turns around X or
    /// around the (new) normal axis.
    closed spec fn rotated_by(self, rotation: AxisRotation) -> CenterWing {
        let e = self.center_edge().rotated_by(rotation);
        let normal = e.main_face.axis.step(e.handedness.flip());
        CenterWing {
            corresponding_center_edge: e,
            pseudo_oriented: self.pseudo() != (rotation.amount != Amount::Double && (rotation.axis
                == Axis::X || rotation.axis == normal)),
        }
    }

    fn rotate(&mut self, rotation: &AxisRotation) {
        self.corresponding_center_edge.rotate(rotation);
        let flips = rotation.flips_edge_orientation(self.normal_axis());
        self.pseudo_oriented = self.pseudo_oriented != flips;
    }
}

impl DepthPiece for CenterWing {
    /// A center wing is turned when it is on the turned face; when the turned face is its side
    /// face and its normal depth is within the depth of the move; or when the move is around
    /// its normal axis, on its side, and its tangent depth is within the depth of the move.
    open spec fn in_wide_move(self, normal_depth: u32, tangent_depth: u32, face: Face, depth: u32, max_depth: u32) -> bool {
        if self.center_edge().main_face == face {
            true
        } else if self.center_edge().side() == face {
            normal_depth <= depth
        } else if self.center_edge().main_face.axis == face.axis || self.center_edge().side().axis
            == face.axis {
            false
        } else {
            self.direction() == face.direction && tangent_depth <= depth
        }
    }

    fn is_in_wide_move<const M: u32>(
        &self,
        normal_depth: u32,
        tangent_depth: u32,
        m: &WideAxisMove<M>,
    ) -> (r: bool) {
        let main = self.main_face();
        let side = self.side_face();
        let mov = m.face();
        if *main == *mov {
            return true;
        }
        if side == *mov {
            return normal_depth <= m.depth();
        }
        if main.axis == mov.axis || side.axis == mov.axis {
            return false;
        }
        self.normal_direction() == m.face().direction && tangent_depth <= m.depth()
    }

    proof fn lemma_turned_stays(
        self,
        normal_depth: u32,
        tangent_depth: u32,
        face: Face,
        amount: Amount,
        depth: u32,
        max_depth: u32,
    ) {
        lemma_center_wing_rotated(self, AxisRotation { axis: face.axis, amount });
    }

    proof fn lemma_rotation_undone(self, rotation: AxisRotation) {
        lemma_center_wing_rotation_inverse(self, rotation);
    }
}

/// How a center wing rotates, in terms of its parts.
pub proof fn lemma_center_wing_rotated(w: CenterWing, r: AxisRotation)
    ensures
        w.rotated_by(r).center_edge() == w.center_edge().rotated_by(r),
        w.rotated_by(r).pseudo() == (w.pseudo() != (r.amount != Amount::Double && (r.axis
            == Axis::X || r.axis == w.rotated_by(r).normal()))),
{
}

/// Rotating a center wing by a rotation and then by its inverse gives it back.
pub proof fn lemma_center_wing_rotation_inverse(w: CenterWing, r: AxisRotation)
    ensures
        w.rotated_by(r).rotated_by(r.inv()) == w,
{
    crate::pieces::center::edge::lemma_center_edge_rotation_inverse(w.center_edge(), r);
}

impl PieceSetDescriptor<48> for CenterWing {
    /// The center wings in the order of their main face (R, U, F, L, D, B), then of their
    /// handedness, of their side direction (positive first) and of their pseudo orientation
    /// (oriented first), the first varying the fastest.
    closed spec fn solved_piece(i: int) -> CenterWing {
        CenterWing {
            corresponding_center_edge: CenterEdge {
                main_face: Face::all_faces()[i % 6],
                handedness: direction_of_bit((i / 6) % 2),
                side_direction: direction_of_bit((i / 12) % 2),
            },
            pseudo_oriented: (i / 24) % 2 == 0,
        }
    }

    /// A center wing is solved when it is on the face it started on.
    open spec fn solved_as(self, original: CenterWing) -> bool {
        self.center_edge().main_face == original.center_edge().main_face
    }

    fn solved_pieces() -> (r: [CenterWing; 48]) {
        let p = Direction::Positive;
        let mut r = [CenterWing::new_with_orientation(Face::R(), p, p, true); 48];
        let mut i: usize = 0;
        while i < 48
            invariant
                i <= 48,
                forall|k: int| 0 <= k < i ==> #[trigger] r[k] == Self::solved_piece(k),
            decreases 48 - i,
        {
            let c = CenterWing::new_with_orientation(
                face_at_index(i % 6),
                direction_at_bit((i / 6) % 2),
                direction_at_bit((i / 12) % 2),
                (i / 24) % 2 == 0,
            );
            r[i] = c;
            i = i + 1;
        }
        r
    }

    fn is_solved_as(&self, original: &CenterWing) -> (r: bool) {
        self.is_solved(original)
    }
}

/// The first two center wings of a solved cube: the first is on R next to U, with normal axis Z
/// and positive direction; the second is on U next to F, with normal axis X and negative
/// direction.
pub proof fn lemma_first_solved_center_wings()
    ensures
        <CenterWing as PieceSetDescriptor<48>>::solved_piece(0).normal() == Axis::Z,
        <CenterWing as PieceSetDescriptor<48>>::solved_piece(0).direction() == Direction::Positive,
        <CenterWing as PieceSetDescriptor<48>>::solved_piece(1).normal() == Axis::X,
        <CenterWing as PieceSetDescriptor<48>>::solved_piece(1).direction() == Direction::Negative,
{
}

/// How a wide move turns the center wings of a set at normal depth `ND` and tangent depth `TD`:
/// a center wing on the turned face always turns with it (rotated like the face turn); one
/// pointing at the turned face turns when the move reaches its normal depth; one on a face
/// across the move's axis, on the side of the turned face along its normal, turns when the
/// move reaches its tangent depth (so a deeper move turns every center wing that a shallower one
/// turns); one on or pointing at the opposite face stays.
pub proof fn lemma_center_wing_wide_move<const N: usize, const ND: u32, const TD: u32, const M: u32>(
    c: CenterWing,
    m: WideAxisMove<M>,
)
    ensures
        c.center_edge().main_face == m.turn().face ==> DepthPieceSet::<CenterWing, N, ND, TD>::moved_piece(
            c,
            m,
        ) == c.rotated_by(AxisRotation::of_move(m.turn())),
        c.center_edge().side() == m.turn().face && ND <= m.layers()
            ==> DepthPieceSet::<CenterWing, N, ND, TD>::moved_piece(c, m) == c.rotated_by(
            AxisRotation::of_move(m.turn()),
        ),
        c.center_edge().side() == m.turn().face && c.center_edge().main_face != m.turn().face && ND
            > m.layers() ==> DepthPieceSet::<CenterWing, N, ND, TD>::moved_piece(c, m) == c,
        c.center_edge().main_face.axis != m.turn().face.axis && c.center_edge().side().axis
            != m.turn().face.axis && c.direction() == m.turn().face.direction && TD <= m.layers()
            ==> DepthPieceSet::<CenterWing, N, ND, TD>::moved_piece(c, m) == c.rotated_by(
            AxisRotation::of_move(m.turn()),
        ),
        c.center_edge().main_face == m.turn().face.opp() || c.center_edge().side() == m.turn().face.opp()
            ==> DepthPieceSet::<CenterWing, N, ND, TD>::moved_piece(c, m) == c,
{
}

} // verus!
