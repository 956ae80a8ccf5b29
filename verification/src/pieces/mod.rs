//! Pieces of an `NxNxN` cube.

pub mod center;
pub mod corner;
pub mod edge;
pub mod wing;

use vstd::prelude::*;

use crate::space::{Axis, Direction, Face};

verus! {

/// Kinds of pieces of which a cube has `N`, with the arrangement of a solved cube.
pub trait PieceSetDescriptor<const N: usize>: Sized {
    /// The `i`-th piece of a solved set.
    spec fn solved_piece(i: int) -> Self;

    /// Whether the piece is solved when it started at `original`.
    spec fn solved_as(self, original: Self) -> bool;

    /// The pieces of a solved set.
    fn solved_pieces() -> (r: [Self; N])
        ensures
            forall|i: int| 0 <= i < N ==> #[trigger] r[i] == Self::solved_piece(i),
    ;

    /// Whether the piece is solved when it started at `original`.
    fn is_solved_as(&self, original: &Self) -> (r: bool)
        ensures
            r == self.solved_as(*original),
    ;
}

/// The direction for a bit: positive for 0, negative for 1.
pub open spec fn direction_of_bit(b: int) -> Direction {
    if b == 0 {
        Direction::Positive
    } else {
        Direction::Negative
    }
}

/// The direction for a bit: positive for 0, negative for 1.
pub fn direction_at_bit(b: usize) -> (r: Direction)
    ensures
        r == direction_of_bit(b as int),
{
    if b == 0 {
        Direction::Positive
    } else {
        Direction::Negative
    }
}

/// The axis at a position of the cycle X, Y, Z.
pub fn axis_at_index(k: usize) -> (r: Axis)
    requires
        k < 3,
    ensures
        r == Axis::at(k as int),
{
    if k == 0 {
        Axis::X
    } else if k == 1 {
        Axis::Y
    } else {
        Axis::Z
    }
}

/// The face at a position of the order R, U, F, L, D, B.
pub fn face_at_index(k: usize) -> (r: Face)
    requires
        k < 6,
    ensures
        r == Face::all_faces()[k as int],
{
    let direction = if k < 3 {
        Direction::Positive
    } else {
        Direction::Negative
    };
    Face::new(axis_at_index(k % 3), direction)
}

} // verus!
