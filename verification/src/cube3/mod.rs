//! The 3x3x3 Rubik's cube.

pub mod cache;
pub mod cfop;
pub mod deindex;
pub mod index;
pub mod manhattan;
pub mod parity;

use vstd::prelude::*;

use crate::cube3::index::{
    corner_position_idx, digits_value, disposition_index, edge_position_idx,
    lemma_corner_position_idx, lemma_digits_value_injective, lemma_disposition_index_bound, lemma_disposition_index_limit,
    lemma_edge_position_idx, lemma_set_sizes, orientations_of, positions_of, CornersMUS, HalfEdgesMUS, Indexable,
    OrientationIndexable, PositionIndexable,
};
use crate::cube3::parity::{flipped_count, lemma_move_keeps_flip_parity};
use crate::equivalence::{corner_after, edge_after, same_effect};
use crate::moves::rotation::{AxisRotation, Rotatable};
use crate::moves::{Alg, Amount, AxisMove};
use crate::pieces::corner::{lemma_corner_move_inverse, Corner};
use crate::pieces::edge::{lemma_edge_move_inverse, Edge, EdgePosition};
use crate::space::{Axis, Direction, Vec2, Vec3};

verus! {

/// A 3x3x3 Rubik's cube: 12 [Edge] pieces and 8 [Corner] pieces.
///
/// A piece only stores where it is; what it is is given by its index: the piece at index `i`
/// is the one that is at the `i`-th reference position in the solved cube.
#[derive(Debug, Clone, Copy, PartialEq, Eq, Hash)]
pub struct Cube3 {
    /// The edges of the cube.
    pub edges: [Edge; 12],
    /// The corners of the cube.
    pub corners: [Corner; 8],
}

/// The direction for a bit: positive for 0, negative for 1.
pub open spec fn dir_of_bit(b: int) -> Direction {
    if b == 0 {
        Direction::Positive
    } else {
        Direction::Negative
    }
}

/// The `i`-th reference position of an edge. They are set up so that an x2 rotation takes
/// position `i` to position `i + 6` for the first six.
pub open spec fn edge_ref(i: int) -> EdgePosition {
    let p = Direction::Positive;
    let n = Direction::Negative;
    if i == 0 {
        (Axis::X, Vec2 { x: p, y: p })
    } else if i == 1 {
        (Axis::X, Vec2 { x: p, y: n })
    } else if i == 2 {
        (Axis::Y, Vec2 { x: p, y: p })
    } else if i == 3 {
        (Axis::Y, Vec2 { x: p, y: n })
    } else if i == 4 {
        (Axis::Z, Vec2 { x: p, y: p })
    } else if i == 5 {
        (Axis::Z, Vec2 { x: n, y: p })
    } else if i == 6 {
        (Axis::X, Vec2 { x: n, y: n })
    } else if i == 7 {
        (Axis::X, Vec2 { x: n, y: p })
    } else if i == 8 {
        (Axis::Y, Vec2 { x: n, y: p })
    } else if i == 9 {
        (Axis::Y, Vec2 { x: n, y: n })
    } else if i == 10 {
        (Axis::Z, Vec2 { x: p, y: n })
    } else {
        (Axis::Z, Vec2 { x: n, y: n })
    }
}

/// The `i`-th reference position of a corner: the coordinates in X, Y, Z order, each positive
/// then negative, X varying the slowest.
pub open spec fn corner_ref(i: int) -> Vec3 {
    Vec3 { x: dir_of_bit((i / 4) % 2), y: dir_of_bit((i / 2) % 2), z: dir_of_bit(i % 2) }
}

/// The edge that starts at reference position `i`, oriented.
pub open spec fn solved_edge(i: int) -> Edge {
    Edge { normal_axis: edge_ref(i).0, slice_position: edge_ref(i).1, oriented: true }
}

/// The corner that starts at reference position `i`, oriented.
pub open spec fn solved_corner(i: int) -> Corner {
    Corner { position: corner_ref(i), orientation_axis: Axis::X }
}

/// The reference positions of the edges, in order.
pub fn edge_reference_positions() -> (r: [EdgePosition; 12])
    ensures
        forall|i: int| 0 <= i < 12 ==> #[trigger] r[i] == edge_ref(i),
{
    let p = Direction::Positive;
    let n = Direction::Negative;
    let r = [
        (Axis::X, Vec2::new(p, p)),
        (Axis::X, Vec2::new(p, n)),
        (Axis::Y, Vec2::new(p, p)),
        (Axis::Y, Vec2::new(p, n)),
        (Axis::Z, Vec2::new(p, p)),
        (Axis::Z, Vec2::new(n, p)),
        (Axis::X, Vec2::new(n, n)),
        (Axis::X, Vec2::new(n, p)),
        (Axis::Y, Vec2::new(n, p)),
        (Axis::Y, Vec2::new(n, n)),
        (Axis::Z, Vec2::new(p, n)),
        (Axis::Z, Vec2::new(n, n)),
    ];
    r
}

/// The reference positions of the corners, in order.
pub fn corner_reference_positions() -> (r: [Vec3; 8])
    ensures
        forall|i: int| 0 <= i < 8 ==> #[trigger] r[i] == corner_ref(i),
{
    let p = Direction::Positive;
    let n = Direction::Negative;
    let r = [
        Vec3::new(p, p, p),
        Vec3::new(p, p, n),
        Vec3::new(p, n, p),
        Vec3::new(p, n, n),
        Vec3::new(n, p, p),
        Vec3::new(n, p, n),
        Vec3::new(n, n, p),
        Vec3::new(n, n, n),
    ];
    r
}

/// Moves each corner by a face turn.
pub fn apply_to_corners(corners: &mut [Corner; 8], m: &AxisMove)
    ensures
        final(corners)@ == old(corners)@.map_values(|c: Corner| c.moved_by(*m)),
{
    let mut i: usize = 0;
    while i < 8
        invariant
            i <= 8,
            forall|j: int| 0 <= j < i ==> #[trigger] corners[j] == old(corners)[j].moved_by(*m),
            forall|j: int| i <= j < 8 ==> #[trigger] corners[j] == old(corners)[j],
        decreases 8 - i,
    {
        let mut c = corners[i];
        c.apply(m);
        corners[i] = c;
        i = i + 1;
    }
    assert(corners@ =~= old(corners)@.map_values(|c: Corner| c.moved_by(*m)));
}

/// Moves each edge by a face turn.
pub fn apply_to_edges(edges: &mut [Edge; 12], m: &AxisMove)
    ensures
        final(edges)@ == old(edges)@.map_values(|e: Edge| e.moved_by(*m)),
{
    let mut i: usize = 0;
    while i < 12
        invariant
            i <= 12,
            forall|j: int| 0 <= j < i ==> #[trigger] edges[j] == old(edges)[j].moved_by(*m),
            forall|j: int| i <= j < 12 ==> #[trigger] edges[j] == old(edges)[j],
        decreases 12 - i,
    {
        let mut e = edges[i];
        e.apply(m);
        edges[i] = e;
        i = i + 1;
    }
    assert(edges@ =~= old(edges)@.map_values(|e: Edge| e.moved_by(*m)));
}

/// Whether every corner is at its reference position, oriented.
pub fn corners_solved(corners: &[Corner; 8]) -> (r: bool)
    ensures
        r == forall|i: int| 0 <= i < 8 ==> #[trigger] corners[i] == solved_corner(i),
{
    let cr = corner_reference_positions();
    let mut i: usize = 0;
    while i < 8
        invariant
            i <= 8,
            forall|j: int| 0 <= j < 8 ==> #[trigger] cr[j] == corner_ref(j),
            forall|j: int| 0 <= j < i ==> #[trigger] corners[j] == solved_corner(j),
        decreases 8 - i,
    {
        if !corners[i].is_solved(&cr[i]) {
            return false;
        }
        i = i + 1;
    }
    true
}

/// Whether every edge is at its reference position, oriented.
pub fn edges_solved(edges: &[Edge; 12]) -> (r: bool)
    ensures
        r == forall|i: int| 0 <= i < 12 ==> #[trigger] edges[i] == solved_edge(i),
{
    let er = edge_reference_positions();
    let mut i: usize = 0;
    while i < 12
        invariant
            i <= 12,
            forall|j: int| 0 <= j < 12 ==> #[trigger] er[j] == edge_ref(j),
            forall|j: int| 0 <= j < i ==> #[trigger] edges[j] == solved_edge(j),
        decreases 12 - i,
    {
        if !edges[i].is_solved(&er[i]) {
            return false;
        }
        i = i + 1;
    }
    true
}

/// The edges after a sequence of moves.
pub open spec fn edges_after(es: Seq<Edge>, s: Seq<AxisMove>) -> Seq<Edge> {
    es.map_values(|e: Edge| edge_after(e, s))
}

/// The corners after a sequence of moves.
pub open spec fn corners_after(cs: Seq<Corner>, s: Seq<AxisMove>) -> Seq<Corner> {
    cs.map_values(|c: Corner| corner_after(c, s))
}

impl Cube3 {
    /// `next` is this cube after the turn of `face` by `amount` (a 3x3x3 has no inner layers to
    /// turn, so `depth` does not matter).
    pub open spec fn turned(self, next: Cube3, face: crate::space::Face, amount: Amount, depth: u32) -> bool {
        &&& next.edges@ == self.edges@.map_values(|e: Edge| e.moved_by(AxisMove { face, amount }))
        &&& next.corners@ == self.corners@.map_values(|c: Corner| c.moved_by(AxisMove { face, amount }))
    }

    /// The solved cube: every piece at its reference position, oriented.
    pub fn solved() -> (r: Cube3)
        ensures
            forall|i: int| 0 <= i < 12 ==> #[trigger] r.edges[i] == solved_edge(i),
            forall|i: int| 0 <= i < 8 ==> #[trigger] r.corners[i] == solved_corner(i),
            r.wf(),
    {
        let er = edge_reference_positions();
        let cr = corner_reference_positions();
        let mut edges = [Edge::oriented(er[0].0, er[0].1); 12];
        let mut i: usize = 0;
        while i < 12
            invariant
                i <= 12,
                forall|j: int| 0 <= j < 12 ==> #[trigger] er[j] == edge_ref(j),
                forall|j: int| 0 <= j < i ==> #[trigger] edges[j] == solved_edge(j),
            decreases 12 - i,
        {
            edges[i] = Edge::oriented(er[i].0, er[i].1);
            i = i + 1;
        }
        let mut corners = [Corner::oriented(cr[0]); 8];
        let mut i: usize = 0;
        while i < 8
            invariant
                i <= 8,
                forall|j: int| 0 <= j < 8 ==> #[trigger] cr[j] == corner_ref(j),
                forall|j: int| 0 <= j < i ==> #[trigger] corners[j] == solved_corner(j),
            decreases 8 - i,
        {
            corners[i] = Corner::oriented(cr[i]);
            i = i + 1;
        }
        let r = Cube3 { edges, corners };
        proof {
            assert forall|i: int| 0 <= i < 12 implies #[trigger] positions_of(r.edges@)[i] == i by {
                lemma_edge_position_idx(r.edges[i].pos(), i);
            }
            assert forall|i: int| 0 <= i < 8 implies #[trigger] positions_of(r.corners@)[i] == i by {
                lemma_corner_position_idx(r.corners[i].position, i);
            }
        }
        r
    }

    /// The solved cube (same as [`Cube3::solved`]).
    pub fn new_solved() -> (r: Cube3)
        ensures
            forall|i: int| 0 <= i < 12 ==> #[trigger] r.edges[i] == solved_edge(i),
            forall|i: int| 0 <= i < 8 ==> #[trigger] r.corners[i] == solved_corner(i),
    {
        Cube3::solved()
    }

    /// Whether no two edges and no two corners are at the same position (as told apart by the
    /// index of their reference position).
    pub open spec fn wf(self) -> bool {
        &&& positions_of(self.edges@).no_duplicates()
        &&& positions_of(self.corners@).no_duplicates()
    }

    /// Whether every piece is back at its reference position and oriented.
    pub open spec fn solved_spec(self) -> bool {
        &&& forall|i: int| 0 <= i < 12 ==> #[trigger] self.edges[i] == solved_edge(i)
        &&& forall|i: int| 0 <= i < 8 ==> #[trigger] self.corners[i] == solved_corner(i)
    }

    /// Whether the cube is solved: every piece is at its reference position, oriented.
    pub fn is_solved(&self) -> (r: bool)
        ensures
            r == self.solved_spec(),
    {
        let er = edge_reference_positions();
        let cr = corner_reference_positions();
        let mut i: usize = 0;
        while i < 12
            invariant
                i <= 12,
                forall|j: int| 0 <= j < 12 ==> #[trigger] er[j] == edge_ref(j),
                forall|j: int| 0 <= j < i ==> #[trigger] self.edges[j] == solved_edge(j),
            decreases 12 - i,
        {
            if !self.edges[i].is_solved(&er[i]) {
                return false;
            }
            i = i + 1;
        }
        let mut i: usize = 0;
        while i < 8
            invariant
                i <= 8,
                forall|j: int| 0 <= j < 12 ==> #[trigger] self.edges[j] == solved_edge(j),
                forall|j: int| 0 <= j < 8 ==> #[trigger] cr[j] == corner_ref(j),
                forall|j: int| 0 <= j < i ==> #[trigger] self.corners[j] == solved_corner(j),
            decreases 8 - i,
        {
            if !self.corners[i].is_solved(&cr[i]) {
                return false;
            }
            i = i + 1;
        }
        true
    }

    /// Does a move on the cube.
    pub fn apply(&mut self, m: &AxisMove)
        ensures
            final(self).edges@ == old(self).edges@.map_values(|e: Edge| e.moved_by(*m)),
            final(self).corners@ == old(self).corners@.map_values(|c: Corner| c.moved_by(*m)),
            old(self).wf() ==> final(self).wf(),
            old(self).wf() ==> flipped_count(final(self).edges@) % 2 == flipped_count(
                old(self).edges@,
            ) % 2,
    {
        let mut i: usize = 0;
        while i < 8
            invariant
                i <= 8,
                self.edges == old(self).edges,
                forall|j: int| 0 <= j < i ==> #[trigger] self.corners[j] == old(self).corners[j].moved_by(*m),
                forall|j: int| i <= j < 8 ==> #[trigger] self.corners[j] == old(self).corners[j],
            decreases 8 - i,
        {
            let mut c = self.corners[i];
            c.apply(m);
            self.corners[i] = c;
            i = i + 1;
        }
        let mut i: usize = 0;
        while i < 12
            invariant
                i <= 12,
                forall|j: int| 0 <= j < 8 ==> #[trigger] self.corners[j] == old(self).corners[j].moved_by(*m),
                forall|j: int| 0 <= j < i ==> #[trigger] self.edges[j] == old(self).edges[j].moved_by(*m),
                forall|j: int| i <= j < 12 ==> #[trigger] self.edges[j] == old(self).edges[j],
            decreases 12 - i,
        {
            let mut e = self.edges[i];
            e.apply(m);
            self.edges[i] = e;
            i = i + 1;
        }
        assert(self.edges@ =~= old(self).edges@.map_values(|e: Edge| e.moved_by(*m)));
        assert(self.corners@ =~= old(self).corners@.map_values(|c: Corner| c.moved_by(*m)));
        proof {
            if old(self).wf() {
                lemma_moved_distinct(old(self).edges@, old(self).corners@, *m);
                lemma_move_keeps_flip_parity(old(self).edges@, *m);
            }
        }
    }

    /// The cube after a move.
    pub fn moved(&self, m: &AxisMove) -> (r: Cube3)
        ensures
            r.edges@ == self.edges@.map_values(|e: Edge| e.moved_by(*m)),
            r.corners@ == self.corners@.map_values(|c: Corner| c.moved_by(*m)),
    {
        let mut r = *self;
        r.apply(m);
        r
    }

    /// Does every move of an algorithm on the cube, in order.
    pub fn apply_alg(&mut self, alg: &Alg<AxisMove>)
        ensures
            final(self).edges@ == edges_after(old(self).edges@, alg.moves@),
            final(self).corners@ == corners_after(old(self).corners@, alg.moves@),
    {
        let n = alg.moves.len();
        let mut i: usize = 0;
        while i < n
            invariant
                n == alg.moves.len(),
                i <= n,
                self.edges@ == edges_after(old(self).edges@, alg.moves@.subrange(0, i as int)),
                self.corners@ == corners_after(old(self).corners@, alg.moves@.subrange(0, i as int)),
            decreases n - i,
        {
            let ghost prefix = alg.moves@.subrange(0, i + 1);
            proof {
                assert(prefix.drop_last() =~= alg.moves@.subrange(0, i as int));
            }
            self.apply(&alg.moves[i]);
            i = i + 1;
            assert(self.edges@ =~= edges_after(old(self).edges@, alg.moves@.subrange(0, i as int)));
            assert(self.corners@ =~= corners_after(old(self).corners@, alg.moves@.subrange(0, i as int)));
        }
        assert(alg.moves@.subrange(0, n as int) =~= alg.moves@);
    }

    /// Every state reachable with one move, together with the move.
    pub fn successors(&self) -> (r: Vec<(Cube3, AxisMove)>)
        ensures
            r.len() == 18,
            forall|i: int| 0 <= i < 18 ==> (#[trigger] r@[i]).1 == AxisMove::nth(i),
            forall|i: int| 0 <= i < 18 ==> (#[trigger] r@[i]).0.edges@ == self.edges@.map_values(|e: Edge| e.moved_by(r@[i].1)),
            forall|i: int| 0 <= i < 18 ==> (#[trigger] r@[i]).0.corners@ == self.corners@.map_values(|c: Corner| c.moved_by(r@[i].1)),
    {
        let all = AxisMove::all();
        let mut r: Vec<(Cube3, AxisMove)> = Vec::new();
        let mut i: usize = 0;
        while i < all.len()
            invariant
                all.len() == 18,
                forall|k: int| 0 <= k < 18 ==> #[trigger] all@[k] == AxisMove::nth(k),
                i <= 18,
                r.len() == i,
                forall|k: int| 0 <= k < i ==> (#[trigger] r@[k]).1 == AxisMove::nth(k),
                forall|k: int| 0 <= k < i ==> (#[trigger] r@[k]).0.edges@ == self.edges@.map_values(|e: Edge| e.moved_by(r@[k].1)),
                forall|k: int| 0 <= k < i ==> (#[trigger] r@[k]).0.corners@ == self.corners@.map_values(|c: Corner| c.moved_by(r@[k].1)),
            decreases 18 - i,
        {
            let m = all[i];
            let c = self.moved(&m);
            r.push((c, m));
            i = i + 1;
        }
        r
    }
}

proof fn lemma_edge_moved_pos(e1: Edge, e2: Edge, m: AxisMove)
    requires
        e1.pos() == e2.pos(),
    ensures
        e1.moved_by(m).pos() == e2.moved_by(m).pos(),
{
    reveal(<Edge as Rotatable>::rotated_by);
}

proof fn lemma_edge_rotated_pos(e1: Edge, e2: Edge, r: AxisRotation)
    requires
        e1.pos() == e2.pos(),
    ensures
        e1.rotated_by(r).pos() == e2.rotated_by(r).pos(),
{
    reveal(<Edge as Rotatable>::rotated_by);
}

/// A move keeps pieces at distinct positions at distinct positions.
pub proof fn lemma_moved_distinct(es: Seq<Edge>, cs: Seq<Corner>, m: AxisMove)
    requires
        positions_of(es).no_duplicates(),
        positions_of(cs).no_duplicates(),
    ensures
        positions_of(es.map_values(|e: Edge| e.moved_by(m))).no_duplicates(),
        positions_of(cs.map_values(|c: Corner| c.moved_by(m))).no_duplicates(),
{
    let es2 = es.map_values(|e: Edge| e.moved_by(m));
    let cs2 = cs.map_values(|c: Corner| c.moved_by(m));
    assert forall|i: int, j: int|
        0 <= i < es2.len() && 0 <= j < es2.len() && i != j implies #[trigger] positions_of(es2)[i]
        != #[trigger] positions_of(es2)[j] by {
        if positions_of(es2)[i] == positions_of(es2)[j] {
            lemma_edge_position_idx(es2[i].pos(), 0);
            lemma_edge_position_idx(es2[j].pos(), 0);
            lemma_edge_moved_pos(es2[i], es2[j], m.inv());
            lemma_edge_move_inverse(es[i], m);
            lemma_edge_move_inverse(es[j], m);
            assert(positions_of(es)[i] == positions_of(es)[j]);
        }
    }
    assert forall|i: int, j: int|
        0 <= i < cs2.len() && 0 <= j < cs2.len() && i != j implies #[trigger] positions_of(cs2)[i]
        != #[trigger] positions_of(cs2)[j] by {
        if positions_of(cs2)[i] == positions_of(cs2)[j] {
            lemma_corner_position_idx(cs2[i].position, 0);
            lemma_corner_position_idx(cs2[j].position, 0);
            lemma_corner_move_inverse(cs[i], m);
            lemma_corner_move_inverse(cs[j], m);
            assert(positions_of(cs)[i] == positions_of(cs)[j]);
        }
    }
}

/// A rotation keeps edges at distinct positions at distinct positions.
pub proof fn lemma_rotated_distinct(es: Seq<Edge>, r: AxisRotation)
    requires
        positions_of(es).no_duplicates(),
    ensures
        positions_of(es.map_values(|e: Edge| e.rotated_by(r))).no_duplicates(),
{
    let es2 = es.map_values(|e: Edge| e.rotated_by(r));
    assert forall|i: int, j: int|
        0 <= i < es2.len() && 0 <= j < es2.len() && i != j implies #[trigger] positions_of(es2)[i]
        != #[trigger] positions_of(es2)[j] by {
        if positions_of(es2)[i] == positions_of(es2)[j] {
            lemma_edge_position_idx(es2[i].pos(), 0);
            lemma_edge_position_idx(es2[j].pos(), 0);
            lemma_edge_rotated_pos(es2[i], es2[j], r.inv());
            crate::pieces::edge::lemma_edge_rotation_inverse(es[i], r);
            crate::pieces::edge::lemma_edge_rotation_inverse(es[j], r);
            assert(positions_of(es)[i] == positions_of(es)[j]);
        }
    }
}

/// The index of a set of edges: the index of their disposition out of the 12 edge positions,
/// then the number written with their orientations in base 2.
pub open spec fn half_edges_index(s: Seq<Edge>) -> nat {
    disposition_index(positions_of(s), 12) * 64 + digits_value(orientations_of(s), 2)
}

/// The index of the corners: the index of their disposition out of the 8 corner positions, then
/// the number written with the orientations of the first seven in base 3.
pub open spec fn corners_index(s: Seq<Corner>) -> nat {
    disposition_index(positions_of(s), 8) * 2187 + digits_value(orientations_of(s.take(7)), 3)
}

/// The x2 rotation, which takes the reference position of each of the first six edges to that of
/// the edge six places after it.
pub open spec fn x2() -> AxisRotation {
    AxisRotation { axis: Axis::X, amount: Amount::Double }
}

/// The indices of the cube's corners and edges.
pub struct CubeIndices {
    /// The index of the corners.
    pub corners: usize,
    /// The indices of the first six edges and of the last six (see [Cube3::indices]).
    pub edges: [usize; 2],
}

/// This function is used to transform the second half of the edges into a set that can be used
/// for indexing a cache generated by the first set of edges.
///
/// It rotates every edge by x2, which on a solved cube takes the edge at index `i` to the
/// position of the edge at index `i - 6`.
fn adjust_second_edges_for_indexing(edges: &HalfEdgesMUS) -> (r: HalfEdgesMUS)
    ensures
        r@ == edges@.map_values(|e: Edge| e.rotated_by(x2())),
{
    let mut output = *edges;
    let rotation = AxisRotation::new(Axis::X, Amount::Double);
    let mut i: usize = 0;
    while i < 6
        invariant
            i <= 6,
            rotation == x2(),
            forall|k: int| 0 <= k < i ==> #[trigger] output[k] == edges[k].rotated_by(x2()),
            forall|k: int| i <= k < 6 ==> #[trigger] output[k] == edges[k],
        decreases 6 - i,
    {
        let mut edge = output[i];
        edge.rotate(&rotation);
        output[i] = edge;
        i = i + 1;
    }
    assert(output@ =~= edges@.map_values(|e: Edge| e.rotated_by(x2())));
    output
}

proof fn lemma_distinct_subrange(p: Seq<nat>, a: int, b: int)
    requires
        p.no_duplicates(),
        0 <= a <= b <= p.len(),
    ensures
        p.subrange(a, b).no_duplicates(),
{
    let q = p.subrange(a, b);
    assert forall|i: int, j: int|
        0 <= i < q.len() && 0 <= j < q.len() && i != j implies #[trigger] q[i] != #[trigger] q[j] by {
        assert(q[i] == p[a + i]);
        assert(q[j] == p[a + j]);
    }
}

impl Cube3 {
    fn edge_partition(&self) -> (r: [HalfEdgesMUS; 2])
        ensures
            r[0]@ == self.edges@.subrange(0, 6),
            r[1]@ == self.edges@.subrange(6, 12),
    {
        let e = self.edges;
        let r = [[e[0], e[1], e[2], e[3], e[4], e[5]], [e[6], e[7], e[8], e[9], e[10], e[11]]];
        assert(r[0]@ =~= self.edges@.subrange(0, 6));
        assert(r[1]@ =~= self.edges@.subrange(6, 12));
        r
    }

    /// Whether no two edges and no two corners are at the same position: the condition under
    /// which [Cube3::indices] are below the table sizes.
    pub fn has_distinct_positions(&self) -> (r: bool)
        ensures
            r == self.wf(),
    {
        let mut edge_seen: [bool; 12] = [false; 12];
        let mut i: usize = 0;
        while i < 12
            invariant
                i <= 12,
                forall|k: int| 0 <= k < 12 ==> #[trigger] edge_seen[k] == positions_of(self.edges@.take(i as int)).contains(k as nat),
                positions_of(self.edges@.take(i as int)).no_duplicates(),
            decreases 12 - i,
        {
            let p = self.edges[i].position_index();
            proof {
                assert(positions_of(self.edges@.take(i + 1)) =~= positions_of(self.edges@.take(i as int)).push(p as nat));
            }
            if edge_seen[p] {
                proof {
                    let q = positions_of(self.edges@.take(i as int));
                    let j = choose|j: int| 0 <= j < q.len() && q[j] == p as nat;
                    assert(positions_of(self.edges@)[j] == positions_of(self.edges@)[i as int]);
                }
                return false;
            }
            edge_seen[p] = true;
            proof {
                let q = positions_of(self.edges@.take(i as int));
                let q2 = positions_of(self.edges@.take(i + 1));
                assert forall|k: int| 0 <= k < 12 implies #[trigger] edge_seen[k] == q2.contains(k as nat) by {
                    if q2.contains(k as nat) && k != p {
                        let j = choose|j: int| 0 <= j < q2.len() && q2[j] == k as nat;
                        assert(q[j] == k as nat);
                    }
                    if q.contains(k as nat) {
                        let j = choose|j: int| 0 <= j < q.len() && q[j] == k as nat;
                        assert(q2[j] == k as nat);
                    }
                    if k == p {
                        assert(q2[i as int] == p as nat);
                    }
                }
            }
            i = i + 1;
        }
        assert(self.edges@.take(12) =~= self.edges@);
        let mut corner_seen: [bool; 8] = [false; 8];
        let mut i: usize = 0;
        while i < 8
            invariant
                i <= 8,
                positions_of(self.edges@).no_duplicates(),
                forall|k: int| 0 <= k < 8 ==> #[trigger] corner_seen[k] == positions_of(self.corners@.take(i as int)).contains(k as nat),
                positions_of(self.corners@.take(i as int)).no_duplicates(),
            decreases 8 - i,
        {
            let p = self.corners[i].position_index();
            proof {
                assert(positions_of(self.corners@.take(i + 1)) =~= positions_of(self.corners@.take(i as int)).push(p as nat));
            }
            if corner_seen[p] {
                proof {
                    let q = positions_of(self.corners@.take(i as int));
                    let j = choose|j: int| 0 <= j < q.len() && q[j] == p as nat;
                    assert(positions_of(self.corners@)[j] == positions_of(self.corners@)[i as int]);
                }
                return false;
            }
            corner_seen[p] = true;
            proof {
                let q = positions_of(self.corners@.take(i as int));
                let q2 = positions_of(self.corners@.take(i + 1));
                assert forall|k: int| 0 <= k < 8 implies #[trigger] corner_seen[k] == q2.contains(k as nat) by {
                    if q2.contains(k as nat) && k != p {
                        let j = choose|j: int| 0 <= j < q2.len() && q2[j] == k as nat;
                        assert(q[j] == k as nat);
                    }
                    if q.contains(k as nat) {
                        let j = choose|j: int| 0 <= j < q.len() && q[j] == k as nat;
                        assert(q2[j] == k as nat);
                    }
                    if k == p {
                        assert(q2[i as int] == p as nat);
                    }
                }
            }
            i = i + 1;
        }
        assert(self.corners@.take(8) =~= self.corners@);
        true
    }

    /// Returns the indices of the cube's corners and edges.
    ///
    /// Indices are unique and contiguous, so they can be used to index into a table of
    /// precomputed values: on a cube whose pieces are at distinct positions they are below the
    /// sizes of the tables.
    pub fn indices(&self) -> (r: CubeIndices)
        ensures
            r.corners == corners_index(self.corners@),
            r.edges[0] == half_edges_index(self.edges@.subrange(0, 6)),
            r.edges[1] == half_edges_index(
                self.edges@.subrange(6, 12).map_values(|e: Edge| e.rotated_by(x2())),
            ),
            self.wf() ==> r.corners < CornersMUS::TOTAL_SET_SIZE,
            self.wf() ==> r.edges[0] < HalfEdgesMUS::TOTAL_SET_SIZE,
            self.wf() ==> r.edges[1] < HalfEdgesMUS::TOTAL_SET_SIZE,
    {
        let edges = self.edge_partition();
        let first = edges[0];
        let second = adjust_second_edges_for_indexing(&edges[1]);
        proof {
            reveal_with_fuel(crate::cube3::index::falling, 9);
            lemma_index_limits(first@);
            lemma_index_limits(second@);
            lemma_corner_index_limits(self.corners@);
            lemma_set_sizes();
            lemma_digits_value_injective(
                orientations_of(self.corners@.take(7)),
                orientations_of(self.corners@.take(7)),
                3,
            );
            lemma_digits_value_injective(orientations_of(first@), orientations_of(first@), 2);
            lemma_digits_value_injective(orientations_of(second@), orientations_of(second@), 2);
            let pc = self.corners.position_idx();
            let p0 = first.position_idx();
            let p1 = second.position_idx();
            assert((pc + 1) * 2187 <= 8 * 40320 * 2187) by (nonlinear_arith)
                requires
                    pc < 8 * 40320,
            ;
            assert((p0 + 1) * 64 <= 12 * 665280 * 64) by (nonlinear_arith)
                requires
                    p0 < 12 * 665280,
            ;
            assert((p1 + 1) * 64 <= 12 * 665280 * 64) by (nonlinear_arith)
                requires
                    p1 < 12 * 665280,
            ;
            if self.wf() {
                lemma_distinct_subrange(positions_of(self.edges@), 0, 6);
                lemma_distinct_subrange(positions_of(self.edges@), 6, 12);
                assert(positions_of(first@) =~= positions_of(self.edges@).subrange(0, 6));
                assert(positions_of(edges[1]@) =~= positions_of(self.edges@).subrange(6, 12));
                lemma_rotated_distinct(edges[1]@, x2());
                lemma_disposition_index_bound(positions_of(first@), 12);
                lemma_disposition_index_bound(positions_of(second@), 12);
                lemma_disposition_index_bound(positions_of(self.corners@), 8);
                let oc = self.corners.orientation_idx();
                let o0 = first.orientation_idx();
                let o1 = second.orientation_idx();
                assert(pc * 2187 + oc < 40320 * 2187) by (nonlinear_arith)
                    requires
                        pc < 40320,
                        oc < 2187,
                ;
                assert(p0 * 64 + o0 < 665280 * 64) by (nonlinear_arith)
                    requires
                        p0 < 665280,
                        o0 < 64,
                ;
                assert(p1 * 64 + o1 < 665280 * 64) by (nonlinear_arith)
                    requires
                        p1 < 665280,
                        o1 < 64,
                ;
            }
        }
        let corners = self.corners.index();
        let e0 = first.index();
        let e1 = second.index();
        CubeIndices { corners, edges: [e0, e1] }
    }
}

proof fn lemma_index_limits(s: Seq<Edge>)
    requires
        s.len() == 6,
    ensures
        disposition_index(positions_of(s), 12) < 12 * 665280,
{
    reveal_with_fuel(crate::cube3::index::falling, 7);
    lemma_disposition_index_limit(positions_of(s), 12);
}

proof fn lemma_corner_index_limits(s: Seq<Corner>)
    requires
        s.len() == 8,
    ensures
        disposition_index(positions_of(s), 8) < 8 * 40320,
{
    reveal_with_fuel(crate::cube3::index::falling, 9);
    lemma_disposition_index_limit(positions_of(s), 8);
}

/// The reference edges are set up so that an x2 rotation swaps the edge at index `i` with the
/// one at index `i + 6`, for the first six.
pub proof fn lemma_x2_pairs_reference_edges(i: int)
    requires
        0 <= i < 6,
    ensures
        solved_edge(i).rotated_by(x2()) == solved_edge(i + 6),
        solved_edge(i + 6).rotated_by(x2()) == solved_edge(i),
{
    reveal(<Edge as Rotatable>::rotated_by);
}

/// Sets of six edges at distinct positions with the same index are the same edges.
pub proof fn lemma_half_edges_index_injective(a: Seq<Edge>, b: Seq<Edge>)
    requires
        a.len() == 6,
        b.len() == 6,
        positions_of(a).no_duplicates(),
        positions_of(b).no_duplicates(),
        half_edges_index(a) == half_edges_index(b),
    ensures
        a == b,
{
    let (pa, pb) = (positions_of(a), positions_of(b));
    let (oa, ob) = (orientations_of(a), orientations_of(b));
    reveal_with_fuel(crate::cube3::index::power, 7);
    lemma_digits_value_injective(oa, ob, 2);
    lemma_digits_value_injective(ob, oa, 2);
    crate::cube3::index::lemma_digit_unique(
        disposition_index(pa, 12),
        digits_value(oa, 2),
        disposition_index(pb, 12),
        digits_value(ob, 2),
        64,
    );
    crate::cube3::index::lemma_disposition_index_injective(pa, pb, 12);
    assert forall|i: int| 0 <= i < 6 implies a[i] == b[i] by {
        assert(pa[i] == pb[i]);
        assert(oa[i] == ob[i]);
        lemma_edge_position_idx(a[i].pos(), 0);
        lemma_edge_position_idx(b[i].pos(), 0);
    }
    assert(a =~= b);
}

/// Corners at distinct positions with the same index are at the same positions, and the first
/// seven have the same orientations (the orientation of the last one does not count).
pub proof fn lemma_corners_index_injective(a: Seq<Corner>, b: Seq<Corner>)
    requires
        a.len() == 8,
        b.len() == 8,
        positions_of(a).no_duplicates(),
        positions_of(b).no_duplicates(),
        corners_index(a) == corners_index(b),
    ensures
        forall|i: int| 0 <= i < 8 ==> #[trigger] a[i].position == b[i].position,
        a.take(7) == b.take(7),
{
    let (pa, pb) = (positions_of(a), positions_of(b));
    let (oa, ob) = (orientations_of(a.take(7)), orientations_of(b.take(7)));
    reveal_with_fuel(crate::cube3::index::power, 8);
    lemma_digits_value_injective(oa, ob, 3);
    lemma_digits_value_injective(ob, oa, 3);
    crate::cube3::index::lemma_digit_unique(
        disposition_index(pa, 8),
        digits_value(oa, 3),
        disposition_index(pb, 8),
        digits_value(ob, 3),
        2187,
    );
    crate::cube3::index::lemma_disposition_index_injective(pa, pb, 8);
    assert forall|i: int| 0 <= i < 8 implies #[trigger] a[i].position == b[i].position by {
        assert(pa[i] == pb[i]);
        lemma_corner_position_idx(a[i].position, 0);
        lemma_corner_position_idx(b[i].position, 0);
    }
    assert forall|i: int| 0 <= i < 7 implies a.take(7)[i] == b.take(7)[i] by {
        assert(oa[i] == ob[i]);
        assert(a[i].position == b[i].position);
        crate::pieces::corner::lemma_orientation_determines_axis(a[i], b[i]);
    }
    assert(a.take(7) =~= b.take(7));
}

/// Doing a move and then its inverse gives back the same cube.
pub proof fn lemma_cube_move_inverse(es: Seq<Edge>, cs: Seq<Corner>, m: AxisMove)
    ensures
        es.map_values(|e: Edge| e.moved_by(m)).map_values(|e: Edge| e.moved_by(m.inv())) == es,
        cs.map_values(|c: Corner| c.moved_by(m)).map_values(|c: Corner| c.moved_by(m.inv())) == cs,
{
    let e1 = es.map_values(|e: Edge| e.moved_by(m));
    let e2 = e1.map_values(|e: Edge| e.moved_by(m.inv()));
    let c1 = cs.map_values(|c: Corner| c.moved_by(m));
    let c2 = c1.map_values(|c: Corner| c.moved_by(m.inv()));
    assert forall|i: int| 0 <= i < es.len() implies #[trigger] e2[i] == es[i] by {
        crate::pieces::edge::lemma_edge_move_inverse(es[i], m);
    }
    assert forall|i: int| 0 <= i < cs.len() implies #[trigger] c2[i] == cs[i] by {
        crate::pieces::corner::lemma_corner_move_inverse(cs[i], m);
    }
    assert(e2 =~= es);
    assert(c2 =~= cs);
}

/// Two algorithms with the same effect (such as an algorithm and its normalized version) take
/// every cube to the same state.
pub proof fn lemma_same_effect_same_cube(es: Seq<Edge>, cs: Seq<Corner>, s1: Seq<AxisMove>, s2: Seq<AxisMove>)
    requires
        same_effect(s1, s2),
    ensures
        edges_after(es, s1) == edges_after(es, s2),
        corners_after(cs, s1) == corners_after(cs, s2),
{
    assert(edges_after(es, s1) =~= edges_after(es, s2));
    assert(corners_after(cs, s1) =~= corners_after(cs, s2));
}

} // verus!
