//! The 5x5x5 cube.

use vstd::prelude::*;

use crate::cube3::{apply_to_corners, corners_solved, solved_corner, apply_to_edges, edges_solved, solved_edge, Cube3};
use crate::moves::wide::{DepthPieceSet, WideAxisMove};
use crate::moves::{Amount, AxisMove};
use crate::space::Face;
use crate::pieces::corner::Corner;
use crate::pieces::edge::Edge;
use crate::pieces::center::corner::CenterCorner;
use crate::pieces::center::edge::CenterEdge;
use crate::pieces::PieceSetDescriptor;

verus! {

/// The 5x5x5 cube.
#[derive(Debug, Clone, PartialEq, Eq, Hash)]
pub struct Cube5 {
    /// The corners.
    pub corners: [Corner; 8],
    /// The edges.
    pub edges: [Edge; 12],
    /// The center corners.
    pub corner_centers: DepthPieceSet<CenterCorner, 24, 1, 0>,
    /// The center edges.
    pub corner_edges: DepthPieceSet<CenterEdge, 24, 1, 0>,
}

impl Cube5 {
    /// `next` is this cube after the wide move of `face` by `amount` at `depth`.
    pub open spec fn turned(self, next: Cube5, face: Face, amount: Amount, depth: u32) -> bool {
        &&& next.corners@ == self.corners@.map_values(|c: Corner| c.moved_by(AxisMove { face, amount }))
        &&& next.edges@ == self.edges@.map_values(|e: Edge| e.moved_by(AxisMove { face, amount }))
        &&& forall|i: int| 0 <= i < 24 ==> #[trigger] next.corner_centers.set[i] == DepthPieceSet::<CenterCorner, 24, 1, 0>::moved_piece(self.corner_centers.set[i], WideAxisMove::<1>::make(face, amount, depth))
        &&& forall|i: int| 0 <= i < 24 ==> #[trigger] next.corner_edges.set[i] == DepthPieceSet::<CenterEdge, 24, 1, 0>::moved_piece(self.corner_edges.set[i], WideAxisMove::<1>::make(face, amount, depth))
    }

    /// The solved cube.
    pub fn solved() -> (r: Cube5)
        ensures
            forall|i: int| 0 <= i < 8 ==> #[trigger] r.corners[i] == solved_corner(i),
            forall|i: int| 0 <= i < 12 ==> #[trigger] r.edges[i] == solved_edge(i),
            forall|i: int| 0 <= i < 24 ==> #[trigger] r.corner_centers.set[i] == <CenterCorner as PieceSetDescriptor<24>>::solved_piece(i),
            forall|i: int| 0 <= i < 24 ==> #[trigger] r.corner_edges.set[i] == <CenterEdge as PieceSetDescriptor<24>>::solved_piece(i),
    {
        Cube5 { corners: Cube3::solved().corners, edges: Cube3::solved().edges, corner_centers: DepthPieceSet::solved(), corner_edges: DepthPieceSet::solved() }
    }

    /// Whether every piece is solved.
    pub open spec fn solved_spec(self) -> bool {
        (forall|i: int| 0 <= i < 8 ==> #[trigger] self.corners[i] == solved_corner(i)) && (forall|i: int| 0 <= i < 12 ==> #[trigger] self.edges[i] == solved_edge(i)) && self.corner_centers.solved_spec() && self.corner_edges.solved_spec()
    }

    /// Whether the cube is solved.
    pub fn is_solved(&self) -> (r: bool)
        ensures
            r == self.solved_spec(),
    {
        corners_solved(&self.corners) && edges_solved(&self.edges) && self.corner_centers.is_solved() && self.corner_edges.is_solved()
    }

    /// Does a wide move: the corners and edges turn with the face, and each set of
    /// inner pieces turns the pieces that the move reaches at its depth.
    pub fn apply(&mut self, m: &WideAxisMove<1>)
        ensures
            final(self).corners@ == old(self).corners@.map_values(|c: Corner| c.moved_by(m.turn())),
            final(self).edges@ == old(self).edges@.map_values(|e: Edge| e.moved_by(m.turn())),
            forall|i: int| 0 <= i < 24 ==> #[trigger] final(self).corner_centers.set[i] == DepthPieceSet::<CenterCorner, 24, 1, 0>::moved_piece(old(self).corner_centers.set[i], *m),
            forall|i: int| 0 <= i < 24 ==> #[trigger] final(self).corner_edges.set[i] == DepthPieceSet::<CenterEdge, 24, 1, 0>::moved_piece(old(self).corner_edges.set[i], *m),
    {
        let turn = AxisMove::new(*m.face(), m.amount());
        apply_to_corners(&mut self.corners, &turn);
        apply_to_edges(&mut self.edges, &turn);
        self.corner_centers.apply(m);
        self.corner_edges.apply(m);
    }

    /// Does a wide move of a smaller maximum depth, as the move of this cube's maximum depth
    /// with the same face turn and depth.
    pub fn apply_narrower<const M: u32>(&mut self, m: &WideAxisMove<M>)
        requires
            m.layers() <= 1,
        ensures
            final(self).corners@ == old(self).corners@.map_values(|c: Corner| c.moved_by(m.turn())),
            final(self).edges@ == old(self).edges@.map_values(|e: Edge| e.moved_by(m.turn())),
            forall|i: int| 0 <= i < 24 ==> #[trigger] final(self).corner_centers.set[i] == DepthPieceSet::<CenterCorner, 24, 1, 0>::moved_piece(old(self).corner_centers.set[i], WideAxisMove::<1>::make(m.turn().face, m.turn().amount, m.layers())),
            forall|i: int| 0 <= i < 24 ==> #[trigger] final(self).corner_edges.set[i] == DepthPieceSet::<CenterEdge, 24, 1, 0>::moved_piece(old(self).corner_edges.set[i], WideAxisMove::<1>::make(m.turn().face, m.turn().amount, m.layers())),
    {
        match m.set_max_depth::<1>() {
            Ok(wide) => {
                proof {
                    WideAxisMove::<1>::lemma_make(m.turn().face, m.turn().amount, m.layers());
                    WideAxisMove::<1>::lemma_extensional(
                        wide,
                        WideAxisMove::<1>::make(m.turn().face, m.turn().amount, m.layers()),
                    );
                }
                self.apply(&wide);
            },
            Err(_) => {},
        }
    }

    /// Does a face turn (a wide move of depth 0).
    pub fn apply_axis_move(&mut self, m: &AxisMove)
        ensures
            final(self).corners@ == old(self).corners@.map_values(|c: Corner| c.moved_by(*m)),
            final(self).edges@ == old(self).edges@.map_values(|e: Edge| e.moved_by(*m)),
            forall|i: int| 0 <= i < 24 ==> #[trigger] final(self).corner_centers.set[i] == DepthPieceSet::<CenterCorner, 24, 1, 0>::moved_piece(old(self).corner_centers.set[i], WideAxisMove::<1>::make(m.face, m.amount, 0)),
            forall|i: int| 0 <= i < 24 ==> #[trigger] final(self).corner_edges.set[i] == DepthPieceSet::<CenterEdge, 24, 1, 0>::moved_piece(old(self).corner_edges.set[i], WideAxisMove::<1>::make(m.face, m.amount, 0)),
    {
        match m.widen::<1>(0) {
            Ok(wide) => {
                proof {
                    WideAxisMove::<1>::lemma_make(m.face, m.amount, 0);
                    WideAxisMove::<1>::lemma_extensional(wide, WideAxisMove::<1>::make(m.face, m.amount, 0));
                }
                self.apply(&wide);
            },
            Err(_) => {},
        }
    }
}

impl crate::CubeN for Cube5 {

}

} // verus!
