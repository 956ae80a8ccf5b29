//! The orientations of the edges: every face turn flips an even number of them, so a cube
//! reached from the solved one by face turns always has an even number of flipped edges.

use vstd::prelude::*;

use crate::cube3::cfop::cross::{cross_position, cross_reference_count, lemma_four_cross_positions};
use crate::cube3::index::{
    count_true, lemma_count_true_set, lemma_edge_position_idx, lemma_taken_count,
    positions_of, taken_below,
};
use crate::cube3::{edge_ref, edges_after, solved_edge};
use crate::moves::rotation::Rotatable;
use crate::moves::{Amount, AxisMove};
use crate::pieces::edge::Edge;
use crate::space::{Axis, Face};

verus! {

/// Number of edges that are not oriented.
pub open spec fn flipped_count(es: Seq<Edge>) -> nat
    decreases es.len(),
{
    if es.len() == 0 {
        0
    } else {
        flipped_count(es.drop_last()) + if es.last().oriented {
            0nat
        } else {
            1nat
        }
    }
}

/// Number of edges on a face.
pub open spec fn on_face_count(es: Seq<Edge>, f: Face) -> nat
    decreases es.len(),
{
    if es.len() == 0 {
        0
    } else {
        on_face_count(es.drop_last(), f) + if es.last().on_face(f) {
            1nat
        } else {
            0nat
        }
    }
}

/// Number of edges on a face that are not oriented.
pub open spec fn on_face_flipped_count(es: Seq<Edge>, f: Face) -> nat
    decreases es.len(),
{
    if es.len() == 0 {
        0
    } else {
        on_face_flipped_count(es.drop_last(), f) + if es.last().on_face(f) && !es.last().oriented {
            1nat
        } else {
            0nat
        }
    }
}

/// Whether a face turn flips the edges of its face: a quarter turn of R or L.
pub open spec fn flips_edges(m: AxisMove) -> bool {
    m.amount != Amount::Double && m.face.axis == Axis::X
}

proof fn lemma_edge_moved_orientation(e: Edge, m: AxisMove)
    ensures
        e.moved_by(m).oriented == (e.oriented != (e.on_face(m.face) && flips_edges(m))),
{
    reveal(<Edge as Rotatable>::rotated_by);
}

proof fn lemma_flipped_after_move(es: Seq<Edge>, m: AxisMove)
    ensures
        flipped_count(es.map_values(|e: Edge| e.moved_by(m))) == flipped_count(es) + if flips_edges(
            m,
        ) {
            on_face_count(es, m.face) - 2 * on_face_flipped_count(es, m.face)
        } else {
            0
        },
    decreases es.len(),
{
    let moved = es.map_values(|e: Edge| e.moved_by(m));
    if es.len() > 0 {
        let rest = es.drop_last();
        lemma_flipped_after_move(rest, m);
        assert(moved.drop_last() =~= rest.map_values(|e: Edge| e.moved_by(m)));
        lemma_edge_moved_orientation(es.last(), m);
        lemma_on_face_flipped_le(rest, m.face);
    }
}

proof fn lemma_on_face_flipped_le(es: Seq<Edge>, f: Face)
    ensures
        on_face_flipped_count(es, f) <= on_face_count(es, f),
    decreases es.len(),
{
    if es.len() > 0 {
        lemma_on_face_flipped_le(es.drop_last(), f);
    }
}

proof fn lemma_count_true_all(b: Seq<bool>)
    requires
        count_true(b) == b.len(),
    ensures
        forall|i: int| 0 <= i < b.len() ==> #[trigger] b[i],
    decreases b.len(),
{
    if b.len() > 0 {
        crate::cube3::index::lemma_count_true_le_len(b.drop_last());
        lemma_count_true_all(b.drop_last());
        assert forall|i: int| 0 <= i < b.len() implies #[trigger] b[i] by {
            if i < b.len() - 1 {
                assert(b[i] == b.drop_last()[i]);
            }
        }
    }
}

/// For each reference position, whether it is one of the first `k` positions of `p` and on
/// the face `f`.
spec fn taken_on_face(p: Seq<nat>, k: int, f: Face) -> Seq<bool> {
    Seq::new(12, |v: int| p.take(k).contains(v as nat) && cross_position(edge_ref(v), f))
}

/// Number of the first `k` positions of `p` that are on the face `f`.
spec fn positions_on_face(p: Seq<nat>, k: nat, f: Face) -> nat
    decreases k,
{
    if k == 0 {
        0
    } else {
        positions_on_face(p, (k - 1) as nat, f) + if cross_position(edge_ref(p[k - 1] as int), f) {
            1nat
        } else {
            0nat
        }
    }
}

proof fn lemma_taken_on_face_count(p: Seq<nat>, k: nat, f: Face)
    requires
        p.no_duplicates(),
        forall|i: int| 0 <= i < p.len() ==> #[trigger] p[i] < 12,
        k <= p.len(),
    ensures
        count_true(taken_on_face(p, k as int, f)) == positions_on_face(p, k, f),
    decreases k,
{
    if k == 0 {
        crate::cube3::index::lemma_count_true_zero(taken_on_face(p, 0, f));
    } else {
        let j = (k - 1) as int;
        lemma_taken_on_face_count(p, j as nat, f);
        assert(p.take(j + 1) =~= p.take(j).push(p[j]));
        if p.take(j).contains(p[j]) {
            let i = choose|i: int| 0 <= i < j && #[trigger] p.take(j)[i] == p[j];
            assert(p[i] == p[j]);
        }
        let before = taken_on_face(p, j, f);
        let after = taken_on_face(p, j + 1, f);
        assert forall|v: int| 0 <= v < 12 && v != p[j] implies #[trigger] after[v] == before[v] by {
            if p.take(j + 1).contains(v as nat) {
                let i = choose|i: int| 0 <= i < j + 1 && #[trigger] p.take(j + 1)[i] == v as nat;
                assert(p.take(j)[i] == v as nat);
            }
            if p.take(j).contains(v as nat) {
                let i = choose|i: int| 0 <= i < j && #[trigger] p.take(j)[i] == v as nat;
                assert(p.take(j + 1)[i] == v as nat);
            }
        }
        assert(p.take(j + 1)[j] == p[j]);
        if cross_position(edge_ref(p[j] as int), f) {
            assert(after =~= before.update(p[j] as int, true));
            lemma_count_true_set(before, p[j] as int);
        } else {
            assert(after =~= before);
        }
    }
}

proof fn lemma_count_reference_on_face(f: Face, n: nat)
    requires
        n <= 12,
    ensures
        count_true(Seq::new(n, |v: int| cross_position(edge_ref(v), f))) == cross_reference_count(
            f,
            n,
        ),
    decreases n,
{
    if n > 0 {
        lemma_count_reference_on_face(f, (n - 1) as nat);
        assert(Seq::new(n, |v: int| cross_position(edge_ref(v), f)).drop_last() =~= Seq::new(
            (n - 1) as nat,
            |v: int| cross_position(edge_ref(v), f),
        ));
    }
}

proof fn lemma_on_face_count_positions(es: Seq<Edge>, f: Face, k: nat)
    requires
        k <= es.len(),
    ensures
        on_face_count(es.take(k as int), f) == positions_on_face(positions_of(es), k, f),
    decreases k,
{
    if k > 0 {
        lemma_on_face_count_positions(es, f, (k - 1) as nat);
        assert(es.take(k as int).drop_last() =~= es.take(k - 1));
        let e = es[k - 1];
        lemma_edge_position_idx(e.pos(), 0);
    }
}

/// Twelve edges at distinct positions have four on each face.
pub proof fn lemma_four_edges_on_face(es: Seq<Edge>, f: Face)
    requires
        es.len() == 12,
        positions_of(es).no_duplicates(),
    ensures
        on_face_count(es, f) == 4,
{
    let p = positions_of(es);
    assert forall|i: int| 0 <= i < p.len() implies #[trigger] p[i] < 12 by {
        lemma_edge_position_idx(es[i].pos(), 0);
    }
    lemma_taken_count(p, 12, 12);
    lemma_count_true_all(taken_below(p, 12, 12));
    assert forall|v: int| 0 <= v < 12 implies #[trigger] p.take(12).contains(v as nat) by {
        assert(taken_below(p, 12, 12)[v]);
    }
    lemma_taken_on_face_count(p, 12, f);
    assert(taken_on_face(p, 12, f) =~= Seq::new(12, |v: int| cross_position(edge_ref(v), f)));
    lemma_count_reference_on_face(f, 12);
    lemma_four_cross_positions(f);
    lemma_on_face_count_positions(es, f, 12);
    assert(es.take(12) =~= es);
}

/// A face turn on twelve edges at distinct positions keeps the parity of the number of flipped
/// edges: it flips the four edges of its face, or none.
pub proof fn lemma_move_keeps_flip_parity(es: Seq<Edge>, m: AxisMove)
    requires
        es.len() == 12,
        positions_of(es).no_duplicates(),
    ensures
        flipped_count(es.map_values(|e: Edge| e.moved_by(m))) % 2 == flipped_count(es) % 2,
{
    lemma_flipped_after_move(es, m);
    lemma_four_edges_on_face(es, m.face);
    lemma_on_face_flipped_le(es, m.face);
}

/// The edges of the solved cube.
pub open spec fn solved_edges() -> Seq<Edge> {
    Seq::new(12, |i: int| solved_edge(i))
}

/// From the solved cube, any sequence of face turns leaves the edges at distinct positions with
/// an even number of them flipped.
pub proof fn lemma_flip_parity_from_solved(s: Seq<AxisMove>)
    ensures
        positions_of(edges_after(solved_edges(), s)).no_duplicates(),
        flipped_count(edges_after(solved_edges(), s)) % 2 == 0,
    decreases s.len(),
{
    let es = edges_after(solved_edges(), s);
    if s.len() == 0 {
        assert(es =~= solved_edges());
        assert forall|i: int| 0 <= i < 12 implies #[trigger] positions_of(es)[i] == i by {
            lemma_edge_position_idx(es[i].pos(), i);
        }
        assert(flipped_count(es) == 0) by {
            lemma_no_flips(es);
        }
    } else {
        let prev = edges_after(solved_edges(), s.drop_last());
        lemma_flip_parity_from_solved(s.drop_last());
        assert(es =~= prev.map_values(|e: Edge| e.moved_by(s.last())));
        crate::cube3::lemma_moved_distinct(prev, seq![], s.last());
        assert(positions_of(Seq::<crate::pieces::corner::Corner>::empty()).no_duplicates()) by {
            assert(positions_of(Seq::<crate::pieces::corner::Corner>::empty()).len() == 0);
        }
        lemma_move_keeps_flip_parity(prev, s.last());
    }
}

proof fn lemma_no_flips(es: Seq<Edge>)
    requires
        forall|i: int| 0 <= i < es.len() ==> #[trigger] es[i].oriented,
    ensures
        flipped_count(es) == 0,
    decreases es.len(),
{
    if es.len() > 0 {
        lemma_no_flips(es.drop_last());
    }
}

} // verus!
