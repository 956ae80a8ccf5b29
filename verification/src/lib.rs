//! Verified model of NxNxN twisty puzzles: spatial primitives, pieces, moves and
//! the algorithms that manipulate them.

pub mod cube2;
pub mod cube3;
pub mod cube4;
pub mod cube5;
pub mod cube6;
pub mod cube7;
pub mod equivalence;
pub mod moves;
pub mod notation;
pub mod orientable;
pub mod parser;
pub mod pieces;
pub mod space;
pub mod visualization;

use vstd::prelude::*;

verus! {

/// An NxNxN cube.
///
/// Currently just a marker trait.
pub trait CubeN {

}

impl CubeN for cube3::Cube3 {

}

} // verus!
