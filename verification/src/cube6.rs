//! The 6x6x6 cube.

use vstd::prelude::*;

use crate::cube3::{apply_to_corners, corners_solved, solved_corner, Cube3};
use crate::moves::wide::{DepthPieceSet, WideAxisMove};
use crate::moves::{Amount, AxisMove};
use crate::space::Face;
use crate::pieces::corner::Corner;
use crate::pieces::center::corner::CenterCorner;
use crate::pieces::center::wing::CenterWing;
use crate::pieces::wing::Wing;
use crate::pieces::PieceSetDescriptor;

verus! {

/// The 6x6x6 cube.
#[derive(Debug, Clone, PartialEq, Eq, Hash)]
pub struct Cube6 {
    /// The corners.
    pub corners: [Corner; 8],
    /// The outer wings.
    pub wings_1: DepthPieceSet<Wing, 24, 1, 0>,
    /// The inner wings.
    pub wings_2: DepthPieceSet<Wing, 24, 2, 0>,
    /// The outer center corners.
    pub center_corners_1: DepthPieceSet<CenterCorner, 24, 1, 0>,
    /// The inner center corners.
    pub center_corners_2: DepthPieceSet<CenterCorner, 24, 2, 0>,
    /// The center wings.
    pub center_wings: DepthPieceSet<CenterWing, 48, 1, 2>,
}

impl Cube6 {
    /// `next` is this cube after the wide move of `face` by `amount` at `depth`.
    pub open spec fn turned(self, next: Cube6, face: Face, amount: Amount, depth: u32) -> bool {
        &&& next.corners@ == self.corners@.map_values(|c: Corner| c.moved_by(AxisMove { face, amount }))
        &&& forall|i: int| 0 <= i < 24 ==> #[trigger] next.wings_1.set[i] == DepthPieceSet::<Wing, 24, 1, 0>::moved_piece(self.wings_1.set[i], WideAxisMove::<2>::make(face, amount, depth))
        &&& forall|i: int| 0 <= i < 24 ==> #[trigger] next.wings_2.set[i] == DepthPieceSet::<Wing, 24, 2, 0>::moved_piece(self.wings_2.set[i], WideAxisMove::<2>::make(face, amount, depth))
        &&& forall|i: int| 0 <= i < 24 ==> #[trigger] next.center_corners_1.set[i] == DepthPieceSet::<CenterCorner, 24, 1, 0>::moved_piece(self.center_corners_1.set[i], WideAxisMove::<2>::make(face, amount, depth))
        &&& forall|i: int| 0 <= i < 24 ==> #[trigger] next.center_corners_2.set[i] == DepthPieceSet::<CenterCorner, 24, 2, 0>::moved_piece(self.center_corners_2.set[i], WideAxisMove::<2>::make(face, amount, depth))
        &&& forall|i: int| 0 <= i < 48 ==> #[trigger] next.center_wings.set[i] == DepthPieceSet::<CenterWing, 48, 1, 2>::moved_piece(self.center_wings.set[i], WideAxisMove::<2>::make(face, amount, depth))
    }

    /// The solved cube.
    pub fn solved() -> (r: Cube6)
        ensures
            forall|i: int| 0 <= i < 8 ==> #[trigger] r.corners[i] == solved_corner(i),
            forall|i: int| 0 <= i < 24 ==> #[trigger] r.wings_1.set[i] == <Wing as PieceSetDescriptor<24>>::solved_piece(i),
            forall|i: int| 0 <= i < 24 ==> #[trigger] r.wings_2.set[i] == <Wing as PieceSetDescriptor<24>>::solved_piece(i),
            forall|i: int| 0 <= i < 24 ==> #[trigger] r.center_corners_1.set[i] == <CenterCorner as PieceSetDescriptor<24>>::solved_piece(i),
            forall|i: int| 0 <= i < 24 ==> #[trigger] r.center_corners_2.set[i] == <CenterCorner as PieceSetDescriptor<24>>::solved_piece(i),
            forall|i: int| 0 <= i < 48 ==> #[trigger] r.center_wings.set[i] == <CenterWing as PieceSetDescriptor<48>>::solved_piece(i),
    {
        Cube6 { corners: Cube3::solved().corners, wings_1: DepthPieceSet::solved(), wings_2: DepthPieceSet::solved(), center_corners_1: DepthPieceSet::solved(), center_corners_2: DepthPieceSet::solved(), center_wings: DepthPieceSet::solved() }
    }

    /// Whether every piece is solved.
    pub open spec fn solved_spec(self) -> bool {
        (forall|i: int| 0 <= i < 8 ==> #[trigger] self.corners[i] == solved_corner(i)) && self.wings_1.solved_spec() && self.wings_2.solved_spec() && self.center_corners_1.solved_spec() && self.center_corners_2.solved_spec() && self.center_wings.solved_spec()
    }

    /// Whether the cube is solved.
    pub fn is_solved(&self) -> (r: bool)
        ensures
            r == self.solved_spec(),
    {
        corners_solved(&self.corners) && self.wings_1.is_solved() && self.wings_2.is_solved() && self.center_corners_1.is_solved() && self.center_corners_2.is_solved() && self.center_wings.is_solved()
    }

    /// Does a wide move: the corners turn with the face, and each set of
    /// inner pieces turns the pieces that the move reaches at its depth.
    pub fn apply(&mut self, m: &WideAxisMove<2>)
        ensures
            final(self).corners@ == old(self).corners@.map_values(|c: Corner| c.moved_by(m.turn())),
            forall|i: int| 0 <= i < 24 ==> #[trigger] final(self).wings_1.set[i] == DepthPieceSet::<Wing, 24, 1, 0>::moved_piece(old(self).wings_1.set[i], *m),
            forall|i: int| 0 <= i < 24 ==> #[trigger] final(self).wings_2.set[i] == DepthPieceSet::<Wing, 24, 2, 0>::moved_piece(old(self).wings_2.set[i], *m),
            forall|i: int| 0 <= i < 24 ==> #[trigger] final(self).center_corners_1.set[i] == DepthPieceSet::<CenterCorner, 24, 1, 0>::moved_piece(old(self).center_corners_1.set[i], *m),
            forall|i: int| 0 <= i < 24 ==> #[trigger] final(self).center_corners_2.set[i] == DepthPieceSet::<CenterCorner, 24, 2, 0>::moved_piece(old(self).center_corners_2.set[i], *m),
            forall|i: int| 0 <= i < 48 ==> #[trigger] final(self).center_wings.set[i] == DepthPieceSet::<CenterWing, 48, 1, 2>::moved_piece(old(self).center_wings.set[i], *m),
    {
        let turn = AxisMove::new(*m.face(), m.amount());
        apply_to_corners(&mut self.corners, &turn);
        self.wings_1.apply(m);
        self.wings_2.apply(m);
        self.center_corners_1.apply(m);
        self.center_corners_2.apply(m);
        self.center_wings.apply(m);
    }

    /// Does a wide move of a smaller maximum depth, as the move of this cube's maximum depth
    /// with the same face turn and depth.
    pub fn apply_narrower<const M: u32>(&mut self, m: &WideAxisMove<M>)
        requires
            m.layers() <= 2,
        ensures
            final(self).corners@ == old(self).corners@.map_values(|c: Corner| c.moved_by(m.turn())),
            forall|i: int| 0 <= i < 24 ==> #[trigger] final(self).wings_1.set[i] == DepthPieceSet::<Wing, 24, 1, 0>::moved_piece(old(self).wings_1.set[i], WideAxisMove::<2>::make(m.turn().face, m.turn().amount, m.layers())),
            forall|i: int| 0 <= i < 24 ==> #[trigger] final(self).wings_2.set[i] == DepthPieceSet::<Wing, 24, 2, 0>::moved_piece(old(self).wings_2.set[i], WideAxisMove::<2>::make(m.turn().face, m.turn().amount, m.layers())),
            forall|i: int| 0 <= i < 24 ==> #[trigger] final(self).center_corners_1.set[i] == DepthPieceSet::<CenterCorner, 24, 1, 0>::moved_piece(old(self).center_corners_1.set[i], WideAxisMove::<2>::make(m.turn().face, m.turn().amount, m.layers())),
            forall|i: int| 0 <= i < 24 ==> #[trigger] final(self).center_corners_2.set[i] == DepthPieceSet::<CenterCorner, 24, 2, 0>::moved_piece(old(self).center_corners_2.set[i], WideAxisMove::<2>::make(m.turn().face, m.turn().amount, m.layers())),
            forall|i: int| 0 <= i < 48 ==> #[trigger] final(self).center_wings.set[i] == DepthPieceSet::<CenterWing, 48, 1, 2>::moved_piece(old(self).center_wings.set[i], WideAxisMove::<2>::make(m.turn().face, m.turn().amount, m.layers())),
    {
        match m.set_max_depth::<2>() {
            Ok(wide) => {
                proof {
                    WideAxisMove::<2>::lemma_make(m.turn().face, m.turn().amount, m.layers());
                    WideAxisMove::<2>::lemma_extensional(
                        wide,
                        WideAxisMove::<2>::make(m.turn().face, m.turn().amount, m.layers()),
                    );
                }
                self.apply(&wide);
            },
            Err(_) => {},
        }
    }

    /// Does a face turn (a wide move of depth 0).
    pub fn apply_axis_move(&mut self, m: &AxisMove)
        ensures
            final(self).corners@ == old(self).corners@.map_values(|c: Corner| c.moved_by(*m)),
            forall|i: int| 0 <= i < 24 ==> #[trigger] final(self).wings_1.set[i] == DepthPieceSet::<Wing, 24, 1, 0>::moved_piece(old(self).wings_1.set[i], WideAxisMove::<2>::make(m.face, m.amount, 0)),
            forall|i: int| 0 <= i < 24 ==> #[trigger] final(self).wings_2.set[i] == DepthPieceSet::<Wing, 24, 2, 0>::moved_piece(old(self).wings_2.set[i], WideAxisMove::<2>::make(m.face, m.amount, 0)),
            forall|i: int| 0 <= i < 24 ==> #[trigger] final(self).center_corners_1.set[i] == DepthPieceSet::<CenterCorner, 24, 1, 0>::moved_piece(old(self).center_corners_1.set[i], WideAxisMove::<2>::make(m.face, m.amount, 0)),
            forall|i: int| 0 <= i < 24 ==> #[trigger] final(self).center_corners_2.set[i] == DepthPieceSet::<CenterCorner, 24, 2, 0>::moved_piece(old(self).center_corners_2.set[i], WideAxisMove::<2>::make(m.face, m.amount, 0)),
            forall|i: int| 0 <= i < 48 ==> #[trigger] final(self).center_wings.set[i] == DepthPieceSet::<CenterWing, 48, 1, 2>::moved_piece(old(self).center_wings.set[i], WideAxisMove::<2>::make(m.face, m.amount, 0)),
    {
        match m.widen::<2>(0) {
            Ok(wide) => {
                proof {
                    WideAxisMove::<2>::lemma_make(m.face, m.amount, 0);
                    WideAxisMove::<2>::lemma_extensional(wide, WideAxisMove::<2>::make(m.face, m.amount, 0));
                }
                self.apply(&wide);
            },
            Err(_) => {},
        }
    }
}

impl crate::CubeN for Cube6 {

}

} // verus!
