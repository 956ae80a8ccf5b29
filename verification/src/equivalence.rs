//! What a sequence of face turns does to the pieces of a 3x3x3 cube, and when two sequences do
//! the same.

use vstd::prelude::*;

use crate::moves::non_redundant::{opt_amount, opt_seq, side_of, absorbed, lemma_combine_sides, lemma_opt_seq_len, NonRedundantAxisMove};
use crate::moves::rotation::{AxisRotation, Rotatable};
use crate::moves::{Amount, AxisMove};
use crate::pieces::corner::{Corner, lemma_corner_rotation_compose, lemma_corner_rotation_keeps_face};
use crate::pieces::edge::{Edge, lemma_edge_rotation_compose, lemma_edge_rotation_keeps_face};
use crate::space::{Axis, Direction, Face};

verus! {

/// The edge after the moves of `s`, in order.
pub open spec fn edge_after(e: Edge, s: Seq<AxisMove>) -> Edge
    decreases s.len(),
{
    if s.len() == 0 {
        e
    } else {
        edge_after(e, s.drop_last()).moved_by(s.last())
    }
}

/// The corner after the moves of `s`, in order.
pub open spec fn corner_after(c: Corner, s: Seq<AxisMove>) -> Corner
    decreases s.len(),
{
    if s.len() == 0 {
        c
    } else {
        corner_after(c, s.drop_last()).moved_by(s.last())
    }
}

/// Two sequences of moves do the same thing: they take every edge and every corner to the
/// same place, with the same orientation.
pub open spec fn same_effect(s1: Seq<AxisMove>, s2: Seq<AxisMove>) -> bool {
    &&& forall|e: Edge| #[trigger] edge_after(e, s1) == edge_after(e, s2)
    &&& forall|c: Corner| #[trigger] corner_after(c, s1) == corner_after(c, s2)
}

/// Doing `s1` and then `s2` moves a piece like doing the moves of `s1 + s2`.
pub proof fn lemma_after_concat(e: Edge, c: Corner, s1: Seq<AxisMove>, s2: Seq<AxisMove>)
    ensures
        edge_after(e, s1 + s2) == edge_after(edge_after(e, s1), s2),
        corner_after(c, s1 + s2) == corner_after(corner_after(c, s1), s2),
    decreases s2.len(),
{
    if s2.len() == 0 {
        assert(s1 + s2 =~= s1);
    } else {
        lemma_after_concat(e, c, s1, s2.drop_last());
        assert((s1 + s2).drop_last() =~= s1 + s2.drop_last());
        assert((s1 + s2).last() == s2.last());
    }
}

/// Replacing a part of a sequence by one with the same effect keeps the effect of the whole.
pub proof fn lemma_same_effect_congruence(a: Seq<AxisMove>, s1: Seq<AxisMove>, s2: Seq<AxisMove>, b: Seq<AxisMove>)
    requires
        same_effect(s1, s2),
    ensures
        same_effect(a + s1 + b, a + s2 + b),
{
    assert forall|e: Edge| #[trigger] edge_after(e, a + s1 + b) == edge_after(e, a + s2 + b) by {
        let c = Corner { position: crate::space::Vec3 { x: Direction::Positive, y: Direction::Positive, z: Direction::Positive }, orientation_axis: Axis::X };
        lemma_after_concat(e, c, a + s1, b);
        lemma_after_concat(e, c, a + s2, b);
        lemma_after_concat(e, c, a, s1);
        lemma_after_concat(e, c, a, s2);
        assert(edge_after(edge_after(e, a), s1) == edge_after(edge_after(e, a), s2));
    }
    assert forall|c: Corner| #[trigger] corner_after(c, a + s1 + b) == corner_after(c, a + s2 + b) by {
        let e = Edge { normal_axis: Axis::X, slice_position: crate::space::Vec2 { x: Direction::Positive, y: Direction::Positive }, oriented: true };
        lemma_after_concat(e, c, a + s1, b);
        lemma_after_concat(e, c, a + s2, b);
        lemma_after_concat(e, c, a, s1);
        lemma_after_concat(e, c, a, s2);
        assert(corner_after(corner_after(c, a), s1) == corner_after(corner_after(c, a), s2));
    }
}

/// An edge after `k` clockwise quarter turns (taken modulo 4) of a face.
#[verifier::opaque]
pub open spec fn turn_edge(e: Edge, f: Face, k: int) -> Edge {
    match opt_amount(k % 4) {
        None => e,
        Some(a) => e.moved_by(AxisMove { face: f, amount: a }),
    }
}

/// A corner after `k` clockwise quarter turns (taken modulo 4) of a face.
#[verifier::opaque]
pub open spec fn turn_corner(c: Corner, f: Face, k: int) -> Corner {
    match opt_amount(k % 4) {
        None => c,
        Some(a) => c.moved_by(AxisMove { face: f, amount: a }),
    }
}

/// Turning the same face twice turns an edge by the sum of both turns.
pub proof fn lemma_edge_turn_merge(e: Edge, f: Face, j: int, k: int)
    requires
        0 <= j < 4,
        0 <= k < 4,
    ensures
        turn_edge(turn_edge(e, f, j), f, k) == turn_edge(e, f, j + k),
{
    reveal(turn_edge);
    if j == 0 {
        assert(turn_edge(e, f, j) == e);
    } else if k == 0 {
        assert(turn_edge(turn_edge(e, f, j), f, k) == turn_edge(e, f, j));
    } else {
        let a = opt_amount(j).unwrap();
        let b = opt_amount(k).unwrap();
        let ra = AxisRotation { axis: f.axis, amount: a };
        let rb = AxisRotation { axis: f.axis, amount: b };
        let e1 = turn_edge(e, f, j);
        if e.on_face(f) {
            assert(e1 == e.rotated_by(ra));
            lemma_edge_rotation_keeps_face(e, ra, f);
            assert(turn_edge(e1, f, k) == e1.rotated_by(rb));
            lemma_edge_rotation_compose(e, f.axis, a, b);
        } else {
            assert(e1 == e);
        }
    }
}

/// Turning the same face twice turns a corner by the sum of both turns.
#[verifier::spinoff_prover]
#[verifier::rlimit(30)]
pub proof fn lemma_corner_turn_merge(c: Corner, f: Face, j: int, k: int)
    requires
        0 <= j < 4,
        0 <= k < 4,
    ensures
        turn_corner(turn_corner(c, f, j), f, k) == turn_corner(c, f, j + k),
{
    reveal(turn_corner);
    if j == 0 {
        assert(turn_corner(c, f, j) == c);
    } else if k == 0 {
        assert(turn_corner(turn_corner(c, f, j), f, k) == turn_corner(c, f, j));
    } else {
        let a = opt_amount(j).unwrap();
        let b = opt_amount(k).unwrap();
        let ra = AxisRotation { axis: f.axis, amount: a };
        let rb = AxisRotation { axis: f.axis, amount: b };
        let c1 = turn_corner(c, f, j);
        if c.position.at(f.axis) == f.direction {
            assert(c1 == c.rotated_by(ra));
            lemma_corner_rotation_keeps_face(c, ra);
            assert(turn_corner(c1, f, k) == c1.rotated_by(rb));
            lemma_corner_rotation_compose(c, f.axis, a, b);
        } else {
            assert(c1 == c);
        }
    }
}

/// Turns of the two faces of the same axis commute on edges.
pub proof fn lemma_edge_turn_commute(e: Edge, f: Face, j: int, k: int)
    requires
        0 <= j < 4,
        0 <= k < 4,
    ensures
        turn_edge(turn_edge(e, f, j), f.opp(), k) == turn_edge(turn_edge(e, f.opp(), k), f, j),
{
    reveal(turn_edge);
    if j != 0 && k != 0 {
        let a = opt_amount(j).unwrap();
        let b = opt_amount(k).unwrap();
        let ra = AxisRotation { axis: f.axis, amount: a };
        let rb = AxisRotation { axis: f.axis, amount: b };
        let g = f.opp();
        assert(!(e.on_face(f) && e.on_face(g)));
        if e.on_face(f) {
            lemma_edge_rotation_keeps_face(e, ra, g);
            assert(turn_edge(e, f, j) == e.rotated_by(ra));
            assert(turn_edge(e, g, k) == e);
        } else if e.on_face(g) {
            lemma_edge_rotation_keeps_face(e, rb, f);
            assert(turn_edge(e, f, j) == e);
            assert(turn_edge(e, g, k) == e.rotated_by(rb));
        } else {
            assert(turn_edge(e, f, j) == e);
            assert(turn_edge(e, g, k) == e);
        }
    }
}

/// Turns of the two faces of the same axis commute on corners.
pub proof fn lemma_corner_turn_commute(c: Corner, f: Face, j: int, k: int)
    requires
        0 <= j < 4,
        0 <= k < 4,
    ensures
        turn_corner(turn_corner(c, f, j), f.opp(), k) == turn_corner(turn_corner(c, f.opp(), k), f, j),
{
    reveal(turn_corner);
    if j != 0 && k != 0 {
        let a = opt_amount(j).unwrap();
        let b = opt_amount(k).unwrap();
        let ra = AxisRotation { axis: f.axis, amount: a };
        let rb = AxisRotation { axis: f.axis, amount: b };
        let g = f.opp();
        if c.position.at(f.axis) == f.direction {
            lemma_corner_rotation_keeps_face(c, ra);
            assert(turn_corner(c, f, j) == c.rotated_by(ra));
            assert(turn_corner(c, g, k) == c);
        } else {
            lemma_corner_rotation_keeps_face(c, rb);
            assert(turn_corner(c, f, j) == c);
            assert(turn_corner(c, g, k) == c.rotated_by(rb));
        }
    }
}

/// A single move turns its face once by its amount.
pub proof fn lemma_after_single(e: Edge, c: Corner, m: AxisMove)
    ensures
        edge_after(e, seq![m]) == turn_edge(e, m.face, m.amount.turns()),
        corner_after(c, seq![m]) == turn_corner(c, m.face, m.amount.turns()),
{
    reveal(turn_edge);
    reveal(turn_corner);
    reveal_with_fuel(edge_after, 2);
    reveal_with_fuel(corner_after, 2);
    assert(seq![m].drop_last() =~= seq![]);
}

/// Turning a face a number of times only depends on that number modulo 4.
pub proof fn lemma_turn_mod(e: Edge, c: Corner, f: Face, k: int)
    ensures
        turn_edge(e, f, k) == turn_edge(e, f, k % 4),
        turn_corner(c, f, k) == turn_corner(c, f, k % 4),
{
    reveal(turn_edge);
    reveal(turn_corner);
}


/// An edge after the turns of an optional non-redundant move on `axis`: the positive face
/// turns, then the negative one.
pub proof fn lemma_edge_block_effect(e: Edge, o: Option<NonRedundantAxisMove>, axis: Axis)
    requires
        o matches Some(n) ==> n.axis_of() == axis,
    ensures
        edge_after(e, opt_seq(o)) == turn_edge(
            turn_edge(e, Face { axis, direction: Direction::Positive }, side_of(o, Direction::Positive)),
            Face { axis, direction: Direction::Negative },
            side_of(o, Direction::Negative),
        ),
{
    reveal(turn_edge);
    reveal_with_fuel(edge_after, 3);
    match o {
        None => {},
        Some(NonRedundantAxisMove::Single(m)) => {
            assert(opt_seq(o).drop_last() =~= seq![]);
            if m.face.direction == Direction::Positive {
                assert(turn_edge(e, Face { axis, direction: Direction::Positive }, m.amount.turns()) == e.moved_by(m));
            } else {
                assert(turn_edge(e, Face { axis, direction: Direction::Positive }, 0) == e);
            }
        },
        Some(NonRedundantAxisMove::Double { .. }) => {
            assert(opt_seq(o).drop_last().drop_last() =~= seq![]);
        },
    }
}

/// A corner after the turns of an optional non-redundant move on `axis`: the positive face
/// turns, then the negative one.
pub proof fn lemma_corner_block_effect(c: Corner, o: Option<NonRedundantAxisMove>, axis: Axis)
    requires
        o matches Some(n) ==> n.axis_of() == axis,
    ensures
        corner_after(c, opt_seq(o)) == turn_corner(
            turn_corner(c, Face { axis, direction: Direction::Positive }, side_of(o, Direction::Positive)),
            Face { axis, direction: Direction::Negative },
            side_of(o, Direction::Negative),
        ),
{
    reveal(turn_corner);
    reveal_with_fuel(corner_after, 3);
    match o {
        None => {},
        Some(NonRedundantAxisMove::Single(m)) => {
            assert(opt_seq(o).drop_last() =~= seq![]);
            if m.face.direction == Direction::Positive {
                assert(turn_corner(c, Face { axis, direction: Direction::Positive }, m.amount.turns()) == c.moved_by(m));
            } else {
                assert(turn_corner(c, Face { axis, direction: Direction::Positive }, 0) == c);
            }
        },
        Some(NonRedundantAxisMove::Double { .. }) => {
            assert(opt_seq(o).drop_last().drop_last() =~= seq![]);
        },
    }
}

/// Doing a non-redundant move and then a move on its axis moves every edge like the
/// non-redundant move that absorves it.
pub proof fn lemma_edge_absorb_effect_after(o: Option<NonRedundantAxisMove>, mov: AxisMove)
    requires
        o matches Some(n) ==> n.axis_of() == mov.face.axis,
    ensures
        forall|e: Edge| #[trigger] edge_after(e, opt_seq(o) + seq![mov]) == edge_after(e, opt_seq(absorbed(o, mov))),
{
    let axis = mov.face.axis;
    let pf = Face { axis, direction: Direction::Positive };
    let nf = Face { axis, direction: Direction::Negative };
    lemma_opt_seq_len(o);
    let sp = side_of(o, Direction::Positive);
    let sn = side_of(o, Direction::Negative);
    let t = mov.amount.turns();
    let added_p = if mov.face.direction == Direction::Positive { t } else { 0 };
    let added_n = if mov.face.direction == Direction::Negative { t } else { 0 };
    lemma_combine_sides(axis, (sp + added_p) % 4, (sn + added_n) % 4);
    let o2 = absorbed(o, mov);
    assert forall|e: Edge| #[trigger] edge_after(e, opt_seq(o) + seq![mov]) == edge_after(e, opt_seq(o2)) by {
        let c = Corner { position: crate::space::Vec3 { x: Direction::Positive, y: Direction::Positive, z: Direction::Positive }, orientation_axis: Axis::X };
        lemma_after_concat(e, c, opt_seq(o), seq![mov]);
        let e1 = edge_after(e, opt_seq(o));
        lemma_after_single(e1, c, mov);
        lemma_edge_block_effect(e, o, axis);
        lemma_edge_block_effect(e, o2, axis);
        let x = turn_edge(e, pf, sp);
        if mov.face.direction == Direction::Negative {
            lemma_edge_turn_merge(x, nf, sn, t);
            lemma_turn_mod(x, c, nf, sn + t);
            lemma_turn_mod(e, c, pf, sp);
        } else {
            assert(nf.opp() == pf);
            lemma_edge_turn_commute(x, nf, sn, t);
            lemma_edge_turn_merge(e, pf, sp, t);
            lemma_turn_mod(e, c, pf, sp + t);
        }
    }
}

/// Doing a non-redundant move and then a move on its axis moves every corner like the
/// non-redundant move that absorves it.
pub proof fn lemma_corner_absorb_effect_after(o: Option<NonRedundantAxisMove>, mov: AxisMove)
    requires
        o matches Some(n) ==> n.axis_of() == mov.face.axis,
    ensures
        forall|c: Corner| #[trigger] corner_after(c, opt_seq(o) + seq![mov]) == corner_after(c, opt_seq(absorbed(o, mov))),
{
    let axis = mov.face.axis;
    let pf = Face { axis, direction: Direction::Positive };
    let nf = Face { axis, direction: Direction::Negative };
    lemma_opt_seq_len(o);
    let sp = side_of(o, Direction::Positive);
    let sn = side_of(o, Direction::Negative);
    let t = mov.amount.turns();
    let added_p = if mov.face.direction == Direction::Positive { t } else { 0 };
    let added_n = if mov.face.direction == Direction::Negative { t } else { 0 };
    lemma_combine_sides(axis, (sp + added_p) % 4, (sn + added_n) % 4);
    let o2 = absorbed(o, mov);
    assert forall|c: Corner| #[trigger] corner_after(c, opt_seq(o) + seq![mov]) == corner_after(c, opt_seq(o2)) by {
        let e = Edge { normal_axis: Axis::X, slice_position: crate::space::Vec2 { x: Direction::Positive, y: Direction::Positive }, oriented: true };
        lemma_after_concat(e, c, opt_seq(o), seq![mov]);
        let c1 = corner_after(c, opt_seq(o));
        lemma_after_single(e, c1, mov);
        lemma_corner_block_effect(c, o, axis);
        lemma_corner_block_effect(c, o2, axis);
        let x = turn_corner(c, pf, sp);
        if mov.face.direction == Direction::Negative {
            lemma_corner_turn_merge(x, nf, sn, t);
            lemma_turn_mod(e, x, nf, sn + t);
            lemma_turn_mod(e, c, pf, sp);
        } else {
            assert(nf.opp() == pf);
            lemma_corner_turn_commute(x, nf, sn, t);
            lemma_corner_turn_merge(c, pf, sp, t);
            lemma_turn_mod(e, c, pf, sp + t);
        }
    }
}

/// Doing a non-redundant move and then a move on its axis does the same as the non-redundant
/// move that absorves it.
pub proof fn lemma_absorb_effect_after(o: Option<NonRedundantAxisMove>, mov: AxisMove)
    requires
        o matches Some(n) ==> n.axis_of() == mov.face.axis,
    ensures
        same_effect(opt_seq(o) + seq![mov], opt_seq(absorbed(o, mov))),
{
    lemma_edge_absorb_effect_after(o, mov);
    lemma_corner_absorb_effect_after(o, mov);
}

/// The face turns of a non-redundant move can be done in either order.
pub proof fn lemma_block_reverse(o: Option<NonRedundantAxisMove>)
    ensures
        same_effect(opt_seq(o).reverse(), opt_seq(o)),
{
    match o {
        None => {
            assert(opt_seq(o).reverse() =~= opt_seq(o));
        },
        Some(NonRedundantAxisMove::Single(m)) => {
            assert(opt_seq(o).reverse() =~= opt_seq(o));
        },
        Some(NonRedundantAxisMove::Double { axis, amount_positive, amount_negative }) => {
            let pf = Face { axis, direction: Direction::Positive };
            let nf = Face { axis, direction: Direction::Negative };
            let mp = AxisMove { face: pf, amount: amount_positive };
            let mn = AxisMove { face: nf, amount: amount_negative };
            assert(opt_seq(o).reverse() =~= seq![mn] + seq![mp]);
            assert(nf.opp() == pf);
            assert forall|e: Edge| #[trigger] edge_after(e, opt_seq(o).reverse()) == edge_after(e, opt_seq(o)) by {
                let c = Corner { position: crate::space::Vec3 { x: Direction::Positive, y: Direction::Positive, z: Direction::Positive }, orientation_axis: Axis::X };
                lemma_after_concat(e, c, seq![mn], seq![mp]);
                lemma_after_single(e, c, mn);
                lemma_after_single(edge_after(e, seq![mn]), c, mp);
                lemma_edge_block_effect(e, o, axis);
                lemma_edge_turn_commute(e, nf, amount_negative.turns(), amount_positive.turns());
            }
            assert forall|c: Corner| #[trigger] corner_after(c, opt_seq(o).reverse()) == corner_after(c, opt_seq(o)) by {
                let e = Edge { normal_axis: Axis::X, slice_position: crate::space::Vec2 { x: Direction::Positive, y: Direction::Positive }, oriented: true };
                lemma_after_concat(e, c, seq![mn], seq![mp]);
                lemma_after_single(e, c, mn);
                lemma_after_single(e, corner_after(c, seq![mn]), mp);
                lemma_corner_block_effect(c, o, axis);
                lemma_corner_turn_commute(c, nf, amount_negative.turns(), amount_positive.turns());
            }
        },
    }
}

} // verus!
