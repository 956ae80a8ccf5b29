//! Extended moves: every move you can make on an NxN, for cubes that can be oriented.

use vstd::prelude::*;

use crate::moves::rotation::AxisRotation;
use crate::moves::wide::{WideAxisMove, WideMoveCreationError};
use crate::moves::{Amount, AxisMove};

verus! {

/// Fancier moves that only work on orientable cubes.
///
/// On regular NxN cubes only [`AxisMove`]s and [`WideAxisMove`]s can be done; on orientable
/// cubes an [`ExtendedAxisMove`] can be any move you can imagine (see
/// `Orientable::apply_extended`).
#[derive(Debug, Clone, Copy, PartialEq, Eq)]
pub enum ExtendedAxisMove {
    /// A regular face turn.
    Regular(AxisMove),
    /// A rotation of the whole cube ("x", "y" or "z").
    Rotation(AxisRotation),
    /// A wide move of any depth. A move deeper than the cube is a rotation (e.g. 4Rw on a 3x3
    /// is x).
    Wide(WideAxisMove<4294967295>),
    /// A slice move.
    Slice {
        /// The rotation of the slice
        rot: AxisRotation,
        /// Whether the move is wide
        wide: bool,
    },
}

impl ExtendedAxisMove {
    /// The move that undoes this one.
    pub fn inverse(&self) -> (r: ExtendedAxisMove)
        ensures
            *self matches ExtendedAxisMove::Regular(m) ==> r == ExtendedAxisMove::Regular(m.inv()),
            *self matches ExtendedAxisMove::Rotation(m) ==> r == ExtendedAxisMove::Rotation(
                m.inv(),
            ),
            *self matches ExtendedAxisMove::Wide(m) ==> (r matches ExtendedAxisMove::Wide(w)
                && w.layers() == m.layers() && w.turn() == m.turn().inv()),
            *self matches ExtendedAxisMove::Slice { rot, wide } ==> r == (ExtendedAxisMove::Slice {
                rot: rot.inv(),
                wide,
            }),
    {
        match self {
            ExtendedAxisMove::Regular(m) => ExtendedAxisMove::Regular(m.inverse()),
            ExtendedAxisMove::Rotation(m) => ExtendedAxisMove::Rotation(m.inverse()),
            ExtendedAxisMove::Wide(m) => ExtendedAxisMove::Wide(m.inverse()),
            ExtendedAxisMove::Slice { rot, wide } => ExtendedAxisMove::Slice {
                rot: rot.inverse(),
                wide: *wide,
            },
        }
    }

    /// A face turn as an extended move.
    pub fn from_axis_move(m: AxisMove) -> (r: ExtendedAxisMove)
        ensures
            r == ExtendedAxisMove::Regular(m),
    {
        ExtendedAxisMove::Regular(m)
    }

    /// A wide move as an extended move (of unbounded depth).
    pub fn from_wide<const N: u32>(value: WideAxisMove<N>) -> (r: ExtendedAxisMove)
        ensures
            r matches ExtendedAxisMove::Wide(w) && w.layers() == value.layers() && w.turn()
                == value.turn(),
    {
        match value.set_max_depth::<4294967295>() {
            Ok(w) => ExtendedAxisMove::Wide(w),
            Err(_) => {
                assert(false);
                ExtendedAxisMove::Regular(AxisMove::new(*value.face(), value.amount()))
            },
        }
    }

    /// A rotation as an extended move.
    pub fn from_rotation(value: AxisRotation) -> (r: ExtendedAxisMove)
        ensures
            r == ExtendedAxisMove::Rotation(value),
    {
        ExtendedAxisMove::Rotation(value)
    }

    /// A slice move (its rotation, and whether it is wide) as an extended move.
    pub fn from_slice(value: (AxisRotation, bool)) -> (r: ExtendedAxisMove)
        ensures
            r == (ExtendedAxisMove::Slice { rot: value.0, wide: value.1 }),
    {
        ExtendedAxisMove::Slice { rot: value.0, wide: value.1 }
    }
}

/// The face turn of the opposite face, with the same amount, widened to `depth`.
pub fn opposite<const N: u32>(m: &WideAxisMove<N>, depth: u32) -> (r: WideAxisMove<N>)
    requires
        depth <= N,
    ensures
        r.layers() == depth,
        r.turn() == (AxisMove { face: m.turn().face.opp(), amount: m.turn().amount }),
{
    match AxisMove::new(m.face().opposite(), m.amount()).widen::<N>(depth) {
        Ok(w) => w,
        Err(_) => {
            assert(false);
            *m
        },
    }
}

} // verus!
