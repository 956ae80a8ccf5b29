//! The 4x4x4 cube.

use vstd::prelude::*;

use crate::cube3::{apply_to_corners, corners_solved, solved_corner, Cube3};
use crate::moves::wide::{DepthPieceSet, WideAxisMove};
use crate::moves::{Amount, AxisMove};
use crate::space::Face;
use crate::pieces::corner::Corner;
use crate::pieces::center::corner::CenterCorner;
use crate::pieces::wing::Wing;
use crate::pieces::PieceSetDescriptor;

verus! {

/// The 4x4x4 cube.
#[derive(Debug, Clone, PartialEq, Eq, Hash)]
pub struct Cube4 {
    /// The corners.
    pub corners: [Corner; 8],
    /// The wings.
    pub wings: DepthPieceSet<Wing, 24, 1, 0>,
    /// The center corners.
    pub centers: DepthPieceSet<CenterCorner, 24, 1, 0>,
}

impl Cube4 {
    /// `next` is this cube after the wide move of `face` by `amount` at `depth`.
    pub open spec fn turned(self, next: Cube4, face: Face, amount: Amount, depth: u32) -> bool {
        &&& next.corners@ == self.corners@.map_values(|c: Corner| c.moved_by(AxisMove { face, amount }))
        &&& forall|i: int| 0 <= i < 24 ==> #[trigger] next.wings.set[i] == DepthPieceSet::<Wing, 24, 1, 0>::moved_piece(self.wings.set[i], WideAxisMove::<1>::make(face, amount, depth))
        &&& forall|i: int| 0 <= i < 24 ==> #[trigger] next.centers.set[i] == DepthPieceSet::<CenterCorner, 24, 1, 0>::moved_piece(self.centers.set[i], WideAxisMove::<1>::make(face, amount, depth))
    }

    /// The solved cube.
    pub fn solved() -> (r: Cube4)
        ensures
            forall|i: int| 0 <= i < 8 ==> #[trigger] r.corners[i] == solved_corner(i),
            forall|i: int| 0 <= i < 24 ==> #[trigger] r.wings.set[i] == <Wing as PieceSetDescriptor<24>>::solved_piece(i),
            forall|i: int| 0 <= i < 24 ==> #[trigger] r.centers.set[i] == <CenterCorner as PieceSetDescriptor<24>>::solved_piece(i),
    {
        Cube4 { corners: Cube3::solved().corners, wings: DepthPieceSet::solved(), centers: DepthPieceSet::solved() }
    }

    /// Whether every piece is solved.
    pub open spec fn solved_spec(self) -> bool {
        (forall|i: int| 0 <= i < 8 ==> #[trigger] self.corners[i] == solved_corner(i)) && self.wings.solved_spec() && self.centers.solved_spec()
    }

    /// Whether the cube is solved.
    pub fn is_solved(&self) -> (r: bool)
        ensures
            r == self.solved_spec(),
    {
        corners_solved(&self.corners) && self.wings.is_solved() && self.centers.is_solved()
    }

    /// Does a wide move: the corners turn with the face, and each set of
    /// inner pieces turns the pieces that the move reaches at its depth.
    pub fn apply(&mut self, m: &WideAxisMove<1>)
        ensures
            final(self).corners@ == old(self).corners@.map_values(|c: Corner| c.moved_by(m.turn())),
            forall|i: int| 0 <= i < 24 ==> #[trigger] final(self).wings.set[i] == DepthPieceSet::<Wing, 24, 1, 0>::moved_piece(old(self).wings.set[i], *m),
            forall|i: int| 0 <= i < 24 ==> #[trigger] final(self).centers.set[i] == DepthPieceSet::<CenterCorner, 24, 1, 0>::moved_piece(old(self).centers.set[i], *m),
    {
        let turn = AxisMove::new(*m.face(), m.amount());
        apply_to_corners(&mut self.corners, &turn);
        self.wings.apply(m);
        self.centers.apply(m);
    }

    /// Does a wide move of a smaller maximum depth, as the move of this cube's maximum depth
    /// with the same face turn and depth.
    pub fn apply_narrower<const M: u32>(&mut self, m: &WideAxisMove<M>)
        requires
            m.layers() <= 1,
        ensures
            final(self).corners@ == old(self).corners@.map_values(|c: Corner| c.moved_by(m.turn())),
            forall|i: int| 0 <= i < 24 ==> #[trigger] final(self).wings.set[i] == DepthPieceSet::<Wing, 24, 1, 0>::moved_piece(old(self).wings.set[i], WideAxisMove::<1>::make(m.turn().face, m.turn().amount, m.layers())),
            forall|i: int| 0 <= i < 24 ==> #[trigger] final(self).centers.set[i] == DepthPieceSet::<CenterCorner, 24, 1, 0>::moved_piece(old(self).centers.set[i], WideAxisMove::<1>::make(m.turn().face, m.turn().amount, m.layers())),
    {
        match m.set_max_depth::<1>() {
            Ok(wide) => {
                proof {
                    WideAxisMove::<1>::lemma_make(m.turn().face, m.turn().amount, m.layers());
                    WideAxisMove::<1>::lemma_extensional(
                        wide,
                        WideAxisMove::<1>::make(m.turn().face, m.turn().amount, m.layers()),
                    );
                }
                self.apply(&wide);
            },
            Err(_) => {},
        }
    }

    /// Does a face turn (a wide move of depth 0).
    pub fn apply_axis_move(&mut self, m: &AxisMove)
        ensures
            final(self).corners@ == old(self).corners@.map_values(|c: Corner| c.moved_by(*m)),
            forall|i: int| 0 <= i < 24 ==> #[trigger] final(self).wings.set[i] == DepthPieceSet::<Wing, 24, 1, 0>::moved_piece(old(self).wings.set[i], WideAxisMove::<1>::make(m.face, m.amount, 0)),
            forall|i: int| 0 <= i < 24 ==> #[trigger] final(self).centers.set[i] == DepthPieceSet::<CenterCorner, 24, 1, 0>::moved_piece(old(self).centers.set[i], WideAxisMove::<1>::make(m.face, m.amount, 0)),
    {
        match m.widen::<1>(0) {
            Ok(wide) => {
                proof {
                    WideAxisMove::<1>::lemma_make(m.face, m.amount, 0);
                    WideAxisMove::<1>::lemma_extensional(wide, WideAxisMove::<1>::make(m.face, m.amount, 0));
                }
                self.apply(&wide);
            },
            Err(_) => {},
        }
    }
}

impl crate::CubeN for Cube4 {

}

} // verus!
