//! Cubes that can be oriented in space: rotated as a whole.

pub mod orientation;

use vstd::prelude::*;

use crate::moves::rotation::{AxisRotation, Rotatable};
use crate::cube2::Cube2;
use crate::cube3::Cube3;
use crate::cube4::Cube4;
use crate::cube5::Cube5;
use crate::cube6::Cube6;
use crate::cube7::Cube7;
use crate::moves::extended::{opposite, ExtendedAxisMove};
use crate::moves::AxisMove;
use crate::pieces::corner::Corner;
use crate::pieces::edge::Edge;
use crate::orientable::orientation::Orientation;

verus! {

/// A cube that can be oriented. This means that you can rotate it, do slice moves and such.
#[derive(Debug, Clone, PartialEq, Eq)]
pub struct Orientable<C> {
    /// The original cube
    pub base_cube: C,
    /// The orientation of the cube
    pub orientation: Orientation,
}

impl<C> Orientable<C> {
    /// Creates a new orientable cube with the default orientation.
    pub fn new(cube: C) -> (r: Orientable<C>)
        ensures
            r.base_cube == cube,
            r.orientation.r() == crate::space::Face::R(),
            r.orientation.u() == crate::space::Face::U(),
    {
        Orientable { base_cube: cube, orientation: Orientation::default() }
    }
}

/// A move rotated by each of a sequence of rotations, in order.
pub open spec fn move_rotated_by_all(m: AxisMove, rotations: Seq<AxisRotation>) -> AxisMove
    decreases rotations.len(),
{
    if rotations.len() == 0 {
        m
    } else {
        move_rotated_by_all(m, rotations.drop_last()).rotated_by(rotations.last())
    }
}

/// The move to do on the base cube for a move on a cube in the given orientation: the move
/// rotated by each of the orientation's rotations.
pub fn orient_move(orientation: &Orientation, m: &AxisMove) -> (r: AxisMove)
    ensures
        r == move_rotated_by_all(*m, orientation.rotations_of()),
{
    let rotations = orientation.rotations();
    let mut out = *m;
    let mut i: usize = 0;
    while i < rotations.len()
        invariant
            i <= rotations.len(),
            rotations@ == orientation.rotations_of(),
            out == move_rotated_by_all(*m, rotations@.subrange(0, i as int)),
        decreases rotations.len() - i,
    {
        proof {
            let p = rotations@.subrange(0, i + 1);
            assert(p.drop_last() =~= rotations@.subrange(0, i as int));
        }
        out.rotate(&rotations[i]);
        i = i + 1;
    }
    assert(rotations@.subrange(0, rotations.len() as int) =~= rotations@);
    out
}

impl Orientable<Cube3> {
    /// Does a move on the cube as it is oriented: the base cube gets the move rotated by each of
    /// the orientation's rotations.
    pub fn apply(&mut self, m: &AxisMove)
        ensures
            final(self).orientation == old(self).orientation,
            final(self).base_cube.edges@ == old(self).base_cube.edges@.map_values(
                |e: Edge| e.moved_by(move_rotated_by_all(*m, old(self).orientation.rotations_of())),
            ),
            final(self).base_cube.corners@ == old(self).base_cube.corners@.map_values(
                |c: Corner| c.moved_by(move_rotated_by_all(*m, old(self).orientation.rotations_of())),
            ),
    {
        let oriented_move = orient_move(&self.orientation, m);
        self.base_cube.apply(&oriented_move);
    }
}


/// The depth at which an extended wide move of `depth` is done on a cube of side `n`: a move
/// deeper than the cube is a rotation (depth 0 is returned), a move that reaches less than half
/// of the cube is done as it is, and another move is done as a rotation and the turn of the
/// opposite face to the remaining depth.
pub open spec fn done_depth(depth: u32, n: u32) -> u32 {
    if depth > n {
        0
    } else if depth < n - depth {
        depth
    } else {
        (n - depth) as u32
    }
}

/// What an extended move does to an orientable cube, stated with `turned`, the relation of the
/// base cube before and after a turn: `a.turned(b, face, amount, depth)`.

impl Orientable<Cube2> {
    /// Does an extended move on the cube:
    /// - a face turn is done as the cube is oriented (the base cube gets the turn rotated by each
    ///   of the orientation's rotations);
    /// - a rotation rotates the orientation;
    /// - a wide move deeper than the cube (2) is a rotation by its face turn;
    /// - a wide move that reaches less than half of the cube turns the base cube;
    /// - any other wide move rotates the orientation by its face turn and turns the opposite face
    ///   of the base cube to the remaining depth.
    ///
    /// Slice moves are not supported, and the depth at which a wide move is done must be one
    /// that the base cube has ([`done_depth`] at most 0).
    pub fn apply_extended(&mut self, m: &ExtendedAxisMove)
        requires
            !(*m is Slice),
            *m matches ExtendedAxisMove::Wide(w) ==> done_depth(w.layers(), 2) <= 0,
        ensures
            *m matches ExtendedAxisMove::Regular(a) ==> final(self).orientation == old(self).orientation
                && old(self).base_cube.turned(
                final(self).base_cube,
                move_rotated_by_all(a, old(self).orientation.rotations_of()).face,
                move_rotated_by_all(a, old(self).orientation.rotations_of()).amount,
                0,
            ),
            *m matches ExtendedAxisMove::Rotation(rot) ==> final(self).base_cube == old(self).base_cube
                && final(self).orientation == old(self).orientation.rotated_by(rot),
            *m matches ExtendedAxisMove::Wide(w) ==> (w.layers() > 2) ==> final(self).base_cube == old(
                self,
            ).base_cube && final(self).orientation == old(self).orientation.rotated_by(
                AxisRotation::of_move(w.turn()),
            ),
            *m matches ExtendedAxisMove::Wide(w) ==> (w.layers() <= 2 && w.layers() < 2 - w.layers()) ==> final(self).orientation == old(self).orientation && old(self).base_cube.turned(
                final(self).base_cube,
                w.turn().face,
                w.turn().amount,
                w.layers(),
            ),
            *m matches ExtendedAxisMove::Wide(w) ==> (w.layers() <= 2 && w.layers() >= 2 - w.layers()) ==> final(self).orientation == old(self).orientation.rotated_by(
                AxisRotation::of_move(w.turn()),
            ) && old(self).base_cube.turned(
                final(self).base_cube,
                w.turn().face.opp(),
                w.turn().amount,
                (2 - w.layers()) as u32,
            ),
    {
        match m {
            ExtendedAxisMove::Regular(a) => {
                let oriented = orient_move(&self.orientation, a);
                self.base_cube.apply(&oriented);
            },
            ExtendedAxisMove::Rotation(rot) => {
                self.orientation.rotate(rot);
            },
            ExtendedAxisMove::Wide(w) => {
                let depth = w.depth();
                let turn = AxisMove::new(*w.face(), w.amount());
                if depth > 2 {
                    self.orientation.rotate(&AxisRotation::from_move(&turn));
                    return;
                }
                let depth_opposite = 2 - depth;
                if depth < depth_opposite {
                    self.base_cube.apply(&AxisMove::new(*w.face(), w.amount()));
                } else {
                    self.orientation.rotate(&AxisRotation::from_move(&turn));
                    let o = opposite(w, depth_opposite);
                    self.base_cube.apply(&AxisMove::new(*o.face(), o.amount()));
                }
            },
            ExtendedAxisMove::Slice { .. } => {},
        }
    }
}

impl Orientable<Cube3> {
    /// Does an extended move on the cube:
    /// - a face turn is done as the cube is oriented (the base cube gets the turn rotated by each
    ///   of the orientation's rotations);
    /// - a rotation rotates the orientation;
    /// - a wide move deeper than the cube (3) is a rotation by its face turn;
    /// - a wide move that reaches less than half of the cube turns the base cube;
    /// - any other wide move rotates the orientation by its face turn and turns the opposite face
    ///   of the base cube to the remaining depth.
    ///
    /// Slice moves are not supported, and the depth at which a wide move is done must be one
    /// that the base cube has ([`done_depth`] at most 0).
    pub fn apply_extended(&mut self, m: &ExtendedAxisMove)
        requires
            !(*m is Slice),
            *m matches ExtendedAxisMove::Wide(w) ==> done_depth(w.layers(), 3) <= 0,
        ensures
            *m matches ExtendedAxisMove::Regular(a) ==> final(self).orientation == old(self).orientation
                && old(self).base_cube.turned(
                final(self).base_cube,
                move_rotated_by_all(a, old(self).orientation.rotations_of()).face,
                move_rotated_by_all(a, old(self).orientation.rotations_of()).amount,
                0,
            ),
            *m matches ExtendedAxisMove::Rotation(rot) ==> final(self).base_cube == old(self).base_cube
                && final(self).orientation == old(self).orientation.rotated_by(rot),
            *m matches ExtendedAxisMove::Wide(w) ==> (w.layers() > 3) ==> final(self).base_cube == old(
                self,
            ).base_cube && final(self).orientation == old(self).orientation.rotated_by(
                AxisRotation::of_move(w.turn()),
            ),
            *m matches ExtendedAxisMove::Wide(w) ==> (w.layers() <= 3 && w.layers() < 3 - w.layers()) ==> final(self).orientation == old(self).orientation && old(self).base_cube.turned(
                final(self).base_cube,
                w.turn().face,
                w.turn().amount,
                w.layers(),
            ),
            *m matches ExtendedAxisMove::Wide(w) ==> (w.layers() <= 3 && w.layers() >= 3 - w.layers()) ==> final(self).orientation == old(self).orientation.rotated_by(
                AxisRotation::of_move(w.turn()),
            ) && old(self).base_cube.turned(
                final(self).base_cube,
                w.turn().face.opp(),
                w.turn().amount,
                (3 - w.layers()) as u32,
            ),
    {
        match m {
            ExtendedAxisMove::Regular(a) => {
                let oriented = orient_move(&self.orientation, a);
                self.base_cube.apply(&oriented);
            },
            ExtendedAxisMove::Rotation(rot) => {
                self.orientation.rotate(rot);
            },
            ExtendedAxisMove::Wide(w) => {
                let depth = w.depth();
                let turn = AxisMove::new(*w.face(), w.amount());
                if depth > 3 {
                    self.orientation.rotate(&AxisRotation::from_move(&turn));
                    return;
                }
                let depth_opposite = 3 - depth;
                if depth < depth_opposite {
                    self.base_cube.apply(&AxisMove::new(*w.face(), w.amount()));
                } else {
                    self.orientation.rotate(&AxisRotation::from_move(&turn));
                    let o = opposite(w, depth_opposite);
                    self.base_cube.apply(&AxisMove::new(*o.face(), o.amount()));
                }
            },
            ExtendedAxisMove::Slice { .. } => {},
        }
    }
}

impl Orientable<Cube4> {
    /// Does an extended move on the cube:
    /// - a face turn is done as the cube is oriented (the base cube gets the turn rotated by each
    ///   of the orientation's rotations);
    /// - a rotation rotates the orientation;
    /// - a wide move deeper than the cube (4) is a rotation by its face turn;
    /// - a wide move that reaches less than half of the cube turns the base cube;
    /// - any other wide move rotates the orientation by its face turn and turns the opposite face
    ///   of the base cube to the remaining depth.
    ///
    /// Slice moves are not supported, and the depth at which a wide move is done must be one
    /// that the base cube has ([`done_depth`] at most 1).
    pub fn apply_extended(&mut self, m: &ExtendedAxisMove)
        requires
            !(*m is Slice),
            *m matches ExtendedAxisMove::Wide(w) ==> done_depth(w.layers(), 4) <= 1,
        ensures
            *m matches ExtendedAxisMove::Regular(a) ==> final(self).orientation == old(self).orientation
                && old(self).base_cube.turned(
                final(self).base_cube,
                move_rotated_by_all(a, old(self).orientation.rotations_of()).face,
                move_rotated_by_all(a, old(self).orientation.rotations_of()).amount,
                0,
            ),
            *m matches ExtendedAxisMove::Rotation(rot) ==> final(self).base_cube == old(self).base_cube
                && final(self).orientation == old(self).orientation.rotated_by(rot),
            *m matches ExtendedAxisMove::Wide(w) ==> (w.layers() > 4) ==> final(self).base_cube == old(
                self,
            ).base_cube && final(self).orientation == old(self).orientation.rotated_by(
                AxisRotation::of_move(w.turn()),
            ),
            *m matches ExtendedAxisMove::Wide(w) ==> (w.layers() <= 4 && w.layers() < 4 - w.layers()) ==> final(self).orientation == old(self).orientation && old(self).base_cube.turned(
                final(self).base_cube,
                w.turn().face,
                w.turn().amount,
                w.layers(),
            ),
            *m matches ExtendedAxisMove::Wide(w) ==> (w.layers() <= 4 && w.layers() >= 4 - w.layers()) ==> final(self).orientation == old(self).orientation.rotated_by(
                AxisRotation::of_move(w.turn()),
            ) && old(self).base_cube.turned(
                final(self).base_cube,
                w.turn().face.opp(),
                w.turn().amount,
                (4 - w.layers()) as u32,
            ),
    {
        match m {
            ExtendedAxisMove::Regular(a) => {
                let oriented = orient_move(&self.orientation, a);
                self.base_cube.apply_axis_move(&oriented);
            },
            ExtendedAxisMove::Rotation(rot) => {
                self.orientation.rotate(rot);
            },
            ExtendedAxisMove::Wide(w) => {
                let depth = w.depth();
                let turn = AxisMove::new(*w.face(), w.amount());
                if depth > 4 {
                    self.orientation.rotate(&AxisRotation::from_move(&turn));
                    return;
                }
                let depth_opposite = 4 - depth;
                if depth < depth_opposite {
                    self.base_cube.apply_narrower(w);
                } else {
                    self.orientation.rotate(&AxisRotation::from_move(&turn));
                    let o = opposite(w, depth_opposite);
                    self.base_cube.apply_narrower(&o);
                }
            },
            ExtendedAxisMove::Slice { .. } => {},
        }
    }
}

impl Orientable<Cube5> {
    /// Does an extended move on the cube:
    /// - a face turn is done as the cube is oriented (the base cube gets the turn rotated by each
    ///   of the orientation's rotations);
    /// - a rotation rotates the orientation;
    /// - a wide move deeper than the cube (5) is a rotation by its face turn;
    /// - a wide move that reaches less than half of the cube turns the base cube;
    /// - any other wide move rotates the orientation by its face turn and turns the opposite face
    ///   of the base cube to the remaining depth.
    ///
    /// Slice moves are not supported, and the depth at which a wide move is done must be one
    /// that the base cube has ([`done_depth`] at most 1).
    pub fn apply_extended(&mut self, m: &ExtendedAxisMove)
        requires
            !(*m is Slice),
            *m matches ExtendedAxisMove::Wide(w) ==> done_depth(w.layers(), 5) <= 1,
        ensures
            *m matches ExtendedAxisMove::Regular(a) ==> final(self).orientation == old(self).orientation
                && old(self).base_cube.turned(
                final(self).base_cube,
                move_rotated_by_all(a, old(self).orientation.rotations_of()).face,
                move_rotated_by_all(a, old(self).orientation.rotations_of()).amount,
                0,
            ),
            *m matches ExtendedAxisMove::Rotation(rot) ==> final(self).base_cube == old(self).base_cube
                && final(self).orientation == old(self).orientation.rotated_by(rot),
            *m matches ExtendedAxisMove::Wide(w) ==> (w.layers() > 5) ==> final(self).base_cube == old(
                self,
            ).base_cube && final(self).orientation == old(self).orientation.rotated_by(
                AxisRotation::of_move(w.turn()),
            ),
            *m matches ExtendedAxisMove::Wide(w) ==> (w.layers() <= 5 && w.layers() < 5 - w.layers()) ==> final(self).orientation == old(self).orientation && old(self).base_cube.turned(
                final(self).base_cube,
                w.turn().face,
                w.turn().amount,
                w.layers(),
            ),
            *m matches ExtendedAxisMove::Wide(w) ==> (w.layers() <= 5 && w.layers() >= 5 - w.layers()) ==> final(self).orientation == old(self).orientation.rotated_by(
                AxisRotation::of_move(w.turn()),
            ) && old(self).base_cube.turned(
                final(self).base_cube,
                w.turn().face.opp(),
                w.turn().amount,
                (5 - w.layers()) as u32,
            ),
    {
        match m {
            ExtendedAxisMove::Regular(a) => {
                let oriented = orient_move(&self.orientation, a);
                self.base_cube.apply_axis_move(&oriented);
            },
            ExtendedAxisMove::Rotation(rot) => {
                self.orientation.rotate(rot);
            },
            ExtendedAxisMove::Wide(w) => {
                let depth = w.depth();
                let turn = AxisMove::new(*w.face(), w.amount());
                if depth > 5 {
                    self.orientation.rotate(&AxisRotation::from_move(&turn));
                    return;
                }
                let depth_opposite = 5 - depth;
                if depth < depth_opposite {
                    self.base_cube.apply_narrower(w);
                } else {
                    self.orientation.rotate(&AxisRotation::from_move(&turn));
                    let o = opposite(w, depth_opposite);
                    self.base_cube.apply_narrower(&o);
                }
            },
            ExtendedAxisMove::Slice { .. } => {},
        }
    }
}

impl Orientable<Cube6> {
    /// Does an extended move on the cube:
    /// - a face turn is done as the cube is oriented (the base cube gets the turn rotated by each
    ///   of the orientation's rotations);
    /// - a rotation rotates the orientation;
    /// - a wide move deeper than the cube (6) is a rotation by its face turn;
    /// - a wide move that reaches less than half of the cube turns the base cube;
    /// - any other wide move rotates the orientation by its face turn and turns the opposite face
    ///   of the base cube to the remaining depth.
    ///
    /// Slice moves are not supported, and the depth at which a wide move is done must be one
    /// that the base cube has ([`done_depth`] at most 2).
    pub fn apply_extended(&mut self, m: &ExtendedAxisMove)
        requires
            !(*m is Slice),
            *m matches ExtendedAxisMove::Wide(w) ==> done_depth(w.layers(), 6) <= 2,
        ensures
            *m matches ExtendedAxisMove::Regular(a) ==> final(self).orientation == old(self).orientation
                && old(self).base_cube.turned(
                final(self).base_cube,
                move_rotated_by_all(a, old(self).orientation.rotations_of()).face,
                move_rotated_by_all(a, old(self).orientation.rotations_of()).amount,
                0,
            ),
            *m matches ExtendedAxisMove::Rotation(rot) ==> final(self).base_cube == old(self).base_cube
                && final(self).orientation == old(self).orientation.rotated_by(rot),
            *m matches ExtendedAxisMove::Wide(w) ==> (w.layers() > 6) ==> final(self).base_cube == old(
                self,
            ).base_cube && final(self).orientation == old(self).orientation.rotated_by(
                AxisRotation::of_move(w.turn()),
            ),
            *m matches ExtendedAxisMove::Wide(w) ==> (w.layers() <= 6 && w.layers() < 6 - w.layers()) ==> final(self).orientation == old(self).orientation && old(self).base_cube.turned(
                final(self).base_cube,
                w.turn().face,
                w.turn().amount,
                w.layers(),
            ),
            *m matches ExtendedAxisMove::Wide(w) ==> (w.layers() <= 6 && w.layers() >= 6 - w.layers()) ==> final(self).orientation == old(self).orientation.rotated_by(
                AxisRotation::of_move(w.turn()),
            ) && old(self).base_cube.turned(
                final(self).base_cube,
                w.turn().face.opp(),
                w.turn().amount,
                (6 - w.layers()) as u32,
            ),
    {
        match m {
            ExtendedAxisMove::Regular(a) => {
                let oriented = orient_move(&self.orientation, a);
                self.base_cube.apply_axis_move(&oriented);
            },
            ExtendedAxisMove::Rotation(rot) => {
                self.orientation.rotate(rot);
            },
            ExtendedAxisMove::Wide(w) => {
                let depth = w.depth();
                let turn = AxisMove::new(*w.face(), w.amount());
                if depth > 6 {
                    self.orientation.rotate(&AxisRotation::from_move(&turn));
                    return;
                }
                let depth_opposite = 6 - depth;
                if depth < depth_opposite {
                    self.base_cube.apply_narrower(w);
                } else {
                    self.orientation.rotate(&AxisRotation::from_move(&turn));
                    let o = opposite(w, depth_opposite);
                    self.base_cube.apply_narrower(&o);
                }
            },
            ExtendedAxisMove::Slice { .. } => {},
        }
    }
}

impl Orientable<Cube7> {
    /// Does an extended move on the cube:
    /// - a face turn is done as the cube is oriented (the base cube gets the turn rotated by each
    ///   of the orientation's rotations);
    /// - a rotation rotates the orientation;
    /// - a wide move deeper than the cube (7) is a rotation by its face turn;
    /// - a wide move that reaches less than half of the cube turns the base cube;
    /// - any other wide move rotates the orientation by its face turn and turns the opposite face
    ///   of the base cube to the remaining depth.
    ///
    /// Slice moves are not supported, and the depth at which a wide move is done must be one
    /// that the base cube has ([`done_depth`] at most 2).
    pub fn apply_extended(&mut self, m: &ExtendedAxisMove)
        requires
            !(*m is Slice),
            *m matches ExtendedAxisMove::Wide(w) ==> done_depth(w.layers(), 7) <= 2,
        ensures
            *m matches ExtendedAxisMove::Regular(a) ==> final(self).orientation == old(self).orientation
                && old(self).base_cube.turned(
                final(self).base_cube,
                move_rotated_by_all(a, old(self).orientation.rotations_of()).face,
                move_rotated_by_all(a, old(self).orientation.rotations_of()).amount,
                0,
            ),
            *m matches ExtendedAxisMove::Rotation(rot) ==> final(self).base_cube == old(self).base_cube
                && final(self).orientation == old(self).orientation.rotated_by(rot),
            *m matches ExtendedAxisMove::Wide(w) ==> (w.layers() > 7) ==> final(self).base_cube == old(
                self,
            ).base_cube && final(self).orientation == old(self).orientation.rotated_by(
                AxisRotation::of_move(w.turn()),
            ),
            *m matches ExtendedAxisMove::Wide(w) ==> (w.layers() <= 7 && w.layers() < 7 - w.layers()) ==> final(self).orientation == old(self).orientation && old(self).base_cube.turned(
                final(self).base_cube,
                w.turn().face,
                w.turn().amount,
                w.layers(),
            ),
            *m matches ExtendedAxisMove::Wide(w) ==> (w.layers() <= 7 && w.layers() >= 7 - w.layers()) ==> final(self).orientation == old(self).orientation.rotated_by(
                AxisRotation::of_move(w.turn()),
            ) && old(self).base_cube.turned(
                final(self).base_cube,
                w.turn().face.opp(),
                w.turn().amount,
                (7 - w.layers()) as u32,
            ),
    {
        match m {
            ExtendedAxisMove::Regular(a) => {
                let oriented = orient_move(&self.orientation, a);
                self.base_cube.apply_axis_move(&oriented);
            },
            ExtendedAxisMove::Rotation(rot) => {
                self.orientation.rotate(rot);
            },
            ExtendedAxisMove::Wide(w) => {
                let depth = w.depth();
                let turn = AxisMove::new(*w.face(), w.amount());
                if depth > 7 {
                    self.orientation.rotate(&AxisRotation::from_move(&turn));
                    return;
                }
                let depth_opposite = 7 - depth;
                if depth < depth_opposite {
                    self.base_cube.apply_narrower(w);
                } else {
                    self.orientation.rotate(&AxisRotation::from_move(&turn));
                    let o = opposite(w, depth_opposite);
                    self.base_cube.apply_narrower(&o);
                }
            },
            ExtendedAxisMove::Slice { .. } => {},
        }
    }
}

} // verus!
