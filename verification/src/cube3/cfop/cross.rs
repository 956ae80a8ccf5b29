//! The "C" in CFOP: the cross of a 3x3. This module finds and counts the cross pieces;
//! searching for a move sequence that solves the cross is not part of this crate.

use vstd::prelude::*;

use crate::cube3::{edge_ref, Cube3};
use crate::pieces::edge::{Edge, EdgePosition};
use crate::space::{Axis, Direction, Face, Vec2};

verus! {

/// The direction of an edge position on an axis, `None` on its normal axis.
pub open spec fn direction_at(pos: EdgePosition, axis: Axis) -> Option<Direction> {
    if axis == pos.0 {
        None
    } else if axis == pos.0.succ() {
        Some(pos.1.x)
    } else {
        Some(pos.1.y)
    }
}

/// Whether the edge position is one of the cross positions of `face`: on that face.
pub open spec fn cross_position(pos: EdgePosition, face: Face) -> bool {
    direction_at(pos, face.axis) == Some(face.direction)
}

/// Whether the `i`-th edge of a cube is a cross piece of `face` that is solved: at its reference
/// position, oriented.
pub open spec fn solved_cross_piece(e: Edge, i: int, face: Face) -> bool {
    &&& e.pos() == edge_ref(i)
    &&& cross_position(edge_ref(i), face)
    &&& e.oriented
}

/// Number of solved cross pieces of `face` among the first `n` edges.
pub open spec fn solved_cross_count(es: Seq<Edge>, face: Face, n: nat) -> nat
    decreases n,
{
    if n == 0 {
        0
    } else {
        solved_cross_count(es, face, (n - 1) as nat) + if solved_cross_piece(
            es[n - 1],
            n - 1,
            face,
        ) {
            1nat
        } else {
            0nat
        }
    }
}

/// Number of cross positions of `face` among the first `n` reference positions.
pub open spec fn cross_reference_count(face: Face, n: nat) -> nat
    decreases n,
{
    if n == 0 {
        0
    } else {
        cross_reference_count(face, (n - 1) as nat) + if cross_position(edge_ref(n - 1), face) {
            1nat
        } else {
            0nat
        }
    }
}

proof fn lemma_solved_cross_count_bound(es: Seq<Edge>, face: Face, n: nat)
    ensures
        solved_cross_count(es, face, n) <= cross_reference_count(face, n),
    decreases n,
{
    if n > 0 {
        lemma_solved_cross_count_bound(es, face, (n - 1) as nat);
    }
}

/// Every face has four cross positions among the reference positions.
pub proof fn lemma_four_cross_positions(face: Face)
    ensures
        cross_reference_count(face, 12) == 4,
{
    reveal_with_fuel(cross_reference_count, 13);
}

/// Whether the edge with the given original position is a cross piece of `face`.
pub fn is_cross_edge(original_position: &EdgePosition, bottom_face: &Face) -> (r: bool)
    ensures
        r == cross_position(*original_position, *bottom_face),
{
    match Edge::direction_on_axis(original_position, bottom_face.axis) {
        Some(d) => d == bottom_face.direction,
        None => false,
    }
}

/// Returns the number of cross pieces of `face` in `cube` that are solved. Between 0 and 4.
pub fn count_cross_pieces(cube: &Cube3, bottom_face: &Face) -> (r: i32)
    ensures
        r == solved_cross_count(cube.edges@, *bottom_face, 12),
        0 <= r <= 4,
{
    let refs = crate::cube3::edge_reference_positions();
    let mut count: i32 = 0;
    let mut i: usize = 0;
    while i < 12
        invariant
            i <= 12,
            forall|j: int| 0 <= j < 12 ==> #[trigger] refs[j] == edge_ref(j),
            count == solved_cross_count(cube.edges@, *bottom_face, i as nat),
            count <= cross_reference_count(*bottom_face, i as nat),
            cross_reference_count(*bottom_face, i as nat) <= i,
        decreases 12 - i,
    {
        let edge = cube.edges[i];
        let original_pos = refs[i];
        let at_original = edge.normal_axis == original_pos.0 && edge.slice_position
            == original_pos.1;
        if at_original && is_cross_edge(&original_pos, bottom_face) && edge.oriented {
            count = count + 1;
        }
        proof {
            lemma_solved_cross_count_bound(cube.edges@, *bottom_face, (i + 1) as nat);
        }
        i = i + 1;
    }
    proof {
        lemma_four_cross_positions(*bottom_face);
    }
    count
}

/// Gets the original positions of the 4 cross pieces that belong to `bottom_face`.
pub fn get_cross_pieces(bottom_face: &Face) -> (r: [EdgePosition; 4])
    ensures
        r[0] == (bottom_face.axis.succ(), Vec2 { x: Direction::Positive, y: bottom_face.direction }),
        r[1] == (bottom_face.axis.succ(), Vec2 { x: Direction::Negative, y: bottom_face.direction }),
        r[2] == (bottom_face.axis.succ().succ(), Vec2 { x: bottom_face.direction, y: Direction::Positive }),
        r[3] == (bottom_face.axis.succ().succ(), Vec2 { x: bottom_face.direction, y: Direction::Negative }),
        forall|i: int| 0 <= i < 4 ==> cross_position(#[trigger] r[i], *bottom_face),
        forall|i: int, j: int| 0 <= i < j < 4 ==> #[trigger] r[i] != #[trigger] r[j],
{
    let n1 = bottom_face.axis.next();
    let n2 = n1.next();
    let d = bottom_face.direction;
    [
        (n1, Vec2::new(Direction::Positive, d)),
        (n1, Vec2::new(Direction::Negative, d)),
        (n2, Vec2::new(d, Direction::Positive)),
        (n2, Vec2::new(d, Direction::Negative)),
    ]
}

} // verus!
