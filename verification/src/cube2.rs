//! The 2x2x2 cube.

use vstd::prelude::*;

use crate::cube3::{apply_to_corners, corners_solved, solved_corner, Cube3};
use crate::moves::{Amount, AxisMove};
use crate::space::Face;
use crate::pieces::corner::Corner;

verus! {

/// The 2x2x2 cube: only corners.
#[derive(Debug, Clone, Copy, PartialEq, Eq, Hash)]
pub struct Cube2 {
    /// The corners.
    pub corners: [Corner; 8],
}

impl Cube2 {
    /// `next` is this cube after the turn of `face` by `amount` (a 2x2x2 has no inner layers, so `depth` does not matter).
    pub open spec fn turned(self, next: Cube2, face: Face, amount: Amount, depth: u32) -> bool {
        &&& next.corners@ == self.corners@.map_values(|c: Corner| c.moved_by(AxisMove { face, amount }))
    }

    /// The solved cube.
    pub fn solved() -> (r: Cube2)
        ensures
            forall|i: int| 0 <= i < 8 ==> #[trigger] r.corners[i] == solved_corner(i),
    {
        Cube2 { corners: Cube3::solved().corners }
    }

    /// Whether every corner is at its reference position, oriented.
    pub fn is_solved(&self) -> (r: bool)
        ensures
            r == forall|i: int| 0 <= i < 8 ==> #[trigger] self.corners[i] == solved_corner(i),
    {
        corners_solved(&self.corners)
    }

    /// Does a face turn.
    pub fn apply(&mut self, m: &AxisMove)
        ensures
            final(self).corners@ == old(self).corners@.map_values(|c: Corner| c.moved_by(*m)),
    {
        apply_to_corners(&mut self.corners, m);
    }
}

impl crate::CubeN for Cube2 {

}

} // verus!
