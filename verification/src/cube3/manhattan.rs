//! Manhattan distance of the pieces of a 3x3 to their places in the solved cube.
//!
//! A piece position has coordinates -1, 0 or 1 on each axis (0 only for an edge, on its
//! normal axis), and the manhattan distance between two positions is the sum of the absolute
//! differences of their coordinates. Being a sum of small integers, it is computed exactly.

use vstd::prelude::*;

use crate::cube3::{corner_ref, corner_reference_positions, edge_ref, edge_reference_positions, Cube3};
use crate::pieces::corner::Corner;
use crate::pieces::edge::{Edge, EdgePosition};
use crate::space::{Axis, Vec3};

verus! {

/// The coordinate of an edge position on an axis: 0 on its normal axis, and the sign of its
/// slice position on the other two (the first after the normal axis takes `x`, the next `y`).
pub open spec fn edge_coordinate(pos: EdgePosition, axis: Axis) -> int {
    if axis == pos.0 {
        0
    } else if axis == pos.0.succ() {
        pos.1.x.sign()
    } else {
        pos.1.y.sign()
    }
}

/// The absolute difference of two integers.
pub open spec fn abs_diff(a: int, b: int) -> int {
    if a >= b {
        a - b
    } else {
        b - a
    }
}

/// The manhattan distance between two edge positions.
pub open spec fn edge_distance(a: EdgePosition, b: EdgePosition) -> int {
    abs_diff(edge_coordinate(a, Axis::X), edge_coordinate(b, Axis::X)) + abs_diff(
        edge_coordinate(a, Axis::Y),
        edge_coordinate(b, Axis::Y),
    ) + abs_diff(edge_coordinate(a, Axis::Z), edge_coordinate(b, Axis::Z))
}

/// The manhattan distance between two corner positions.
pub open spec fn corner_distance(a: Vec3, b: Vec3) -> int {
    abs_diff(a.x.sign(), b.x.sign()) + abs_diff(a.y.sign(), b.y.sign()) + abs_diff(
        a.z.sign(),
        b.z.sign(),
    )
}

/// The sum of the distances of the first `n` edges to their reference positions.
pub open spec fn edges_distance(edges: Seq<Edge>, n: int) -> int
    decreases n,
{
    if n <= 0 {
        0
    } else {
        edges_distance(edges, n - 1) + edge_distance(edges[n - 1].pos(), edge_ref(n - 1))
    }
}

/// The sum of the distances of the first `n` corners to their reference positions.
pub open spec fn corners_distance(corners: Seq<Corner>, n: int) -> int
    decreases n,
{
    if n <= 0 {
        0
    } else {
        corners_distance(corners, n - 1) + corner_distance(
            corners[n - 1].position,
            corner_ref(n - 1),
        )
    }
}

/// The coordinate of an edge position on an axis, as computed.
fn edge_coordinate_on(pos: &EdgePosition, axis: Axis) -> (r: i8)
    ensures
        r == edge_coordinate(*pos, axis),
{
    match Edge::direction_on_axis(pos, axis) {
        Some(d) => d.scalar(),
        None => 0,
    }
}

/// The absolute difference of two coordinates.
fn coordinate_difference(a: i8, b: i8) -> (r: u32)
    requires
        -1 <= a <= 1,
        -1 <= b <= 1,
    ensures
        r == abs_diff(a as int, b as int),
{
    if a >= b {
        (a - b) as u32
    } else {
        (b - a) as u32
    }
}

/// Manhattan distance between an edge and its original position.
pub fn edge_manhattan(original_pos: &EdgePosition, edge: &Edge) -> (r: u32)
    ensures
        r == edge_distance(edge.pos(), *original_pos),
        r <= 4,
{
    let pos = edge.position();
    let dx = coordinate_difference(edge_coordinate_on(&pos, Axis::X), edge_coordinate_on(original_pos, Axis::X));
    let dy = coordinate_difference(edge_coordinate_on(&pos, Axis::Y), edge_coordinate_on(original_pos, Axis::Y));
    let dz = coordinate_difference(edge_coordinate_on(&pos, Axis::Z), edge_coordinate_on(original_pos, Axis::Z));
    proof {
        lemma_edge_distance_bound(pos, *original_pos);
    }
    dx + dy + dz
}

/// Manhattan distance between a corner and its original position.
pub fn corner_manhattan(original_pos: &Vec3, corner: &Corner) -> (r: u32)
    ensures
        r == corner_distance(corner.position, *original_pos),
        r <= 6,
{
    let p = corner.position;
    let dx = coordinate_difference(p.x.scalar(), original_pos.x.scalar());
    let dy = coordinate_difference(p.y.scalar(), original_pos.y.scalar());
    let dz = coordinate_difference(p.z.scalar(), original_pos.z.scalar());
    dx + dy + dz
}

/// The sum of the manhattan distances of all the edges and corners of `cube` to their places
/// in the solved cube.
pub fn manhattan_sum(cube: &Cube3) -> (r: u32)
    ensures
        r == edges_distance(cube.edges@, 12) + corners_distance(cube.corners@, 8),
{
    let edge_refs = edge_reference_positions();
    let corner_refs = corner_reference_positions();
    let mut edge_total: u32 = 0;
    let mut i: usize = 0;
    while i < 12
        invariant
            0 <= i <= 12,
            forall|k: int| 0 <= k < 12 ==> #[trigger] edge_refs[k] == edge_ref(k),
            edge_total == edges_distance(cube.edges@, i as int),
            edge_total <= 4 * i,
        decreases 12 - i,
    {
        let d = edge_manhattan(&edge_refs[i], &cube.edges[i]);
        edge_total = edge_total + d;
        i = i + 1;
    }
    let mut corner_total: u32 = 0;
    let mut j: usize = 0;
    while j < 8
        invariant
            0 <= j <= 8,
            forall|k: int| 0 <= k < 8 ==> #[trigger] corner_refs[k] == corner_ref(k),
            corner_total == corners_distance(cube.corners@, j as int),
            corner_total <= 6 * j,
        decreases 8 - j,
    {
        let d = corner_manhattan(&corner_refs[j], &cube.corners[j]);
        corner_total = corner_total + d;
        j = j + 1;
    }
    edge_total + corner_total
}

/// The distance between two edge positions is at most 4.
proof fn lemma_edge_distance_bound(a: EdgePosition, b: EdgePosition)
    ensures
        0 <= edge_distance(a, b) <= 4,
{
}

/// The manhattan distance between two edge positions is 0 exactly when they are the same
/// position.
pub proof fn lemma_edge_distance_zero(a: EdgePosition, b: EdgePosition)
    ensures
        edge_distance(a, b) >= 0,
        edge_distance(a, b) == 0 <==> a == b,
{
    if edge_distance(a, b) == 0 {
        assert(edge_coordinate(a, a.0) == 0);
        assert(edge_coordinate(b, a.0) == 0);
        assert(a.0 == b.0);
        assert(a.1.x.sign() == b.1.x.sign() ==> a.1.x == b.1.x);
        assert(a.1.y.sign() == b.1.y.sign() ==> a.1.y == b.1.y);
        assert(edge_coordinate(a, a.0.succ()) == a.1.x.sign());
        assert(edge_coordinate(b, a.0.succ()) == b.1.x.sign());
        assert(edge_coordinate(a, a.0.succ().succ()) == a.1.y.sign());
        assert(edge_coordinate(b, a.0.succ().succ()) == b.1.y.sign());
        assert(a.1 == b.1);
    }
}

/// The manhattan distance between two corner positions is 0 exactly when they are the same
/// position.
pub proof fn lemma_corner_distance_zero(a: Vec3, b: Vec3)
    ensures
        corner_distance(a, b) >= 0,
        corner_distance(a, b) == 0 <==> a == b,
{
}

/// The sum of the distances of the first `n` edges is 0 exactly when each of them is at its
/// reference position.
proof fn lemma_edges_distance_zero(edges: Seq<Edge>, n: int)
    requires
        0 <= n <= edges.len(),
    ensures
        edges_distance(edges, n) >= 0,
        edges_distance(edges, n) == 0 <==> forall|i: int|
            0 <= i < n ==> #[trigger] edges[i].pos() == edge_ref(i),
    decreases n,
{
    if n > 0 {
        lemma_edges_distance_zero(edges, n - 1);
        lemma_edge_distance_zero(edges[n - 1].pos(), edge_ref(n - 1));
    }
}

/// The sum of the distances of the first `n` corners is 0 exactly when each of them is at its
/// reference position.
proof fn lemma_corners_distance_zero(corners: Seq<Corner>, n: int)
    requires
        0 <= n <= corners.len(),
    ensures
        corners_distance(corners, n) >= 0,
        corners_distance(corners, n) == 0 <==> forall|i: int|
            0 <= i < n ==> #[trigger] corners[i].position == corner_ref(i),
    decreases n,
{
    if n > 0 {
        lemma_corners_distance_zero(corners, n - 1);
        lemma_corner_distance_zero(corners[n - 1].position, corner_ref(n - 1));
    }
}

/// The manhattan sum of a cube is 0 exactly when every piece is at its place in the solved
/// cube (whatever its orientation).
pub proof fn lemma_manhattan_zero(cube: Cube3)
    ensures
        edges_distance(cube.edges@, 12) + corners_distance(cube.corners@, 8) == 0 <==> {
            &&& forall|i: int| 0 <= i < 12 ==> #[trigger] cube.edges[i].pos() == edge_ref(i)
            &&& forall|i: int| 0 <= i < 8 ==> #[trigger] cube.corners[i].position == corner_ref(i)
        },
{
    lemma_edges_distance_zero(cube.edges@, 12);
    lemma_corners_distance_zero(cube.corners@, 8);
}

} // verus!
