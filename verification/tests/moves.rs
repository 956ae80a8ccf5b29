use barbarosa::moves::extended::ExtendedAxisMove;
use barbarosa::moves::non_redundant::{absorve, AbsorveResult, NonRedundantAxisMove};
use barbarosa::moves::quarter::QuarterAxisMove;
use barbarosa::moves::rotation::{AxisRotation, Rotatable};
use barbarosa::moves::wide::{DepthPieceSet, WideAxisMove, WideMoveCreationError};
use barbarosa::moves::{Alg, Amount, AxisMove};
use barbarosa::cube3::Cube3;
use barbarosa::pieces::center::edge::CenterEdge;
use barbarosa::space::{Axis, Direction, Face};

fn alg(s: &[&str]) -> Alg<AxisMove> {
    Alg::new(s.iter().map(|m| AxisMove::parse(m).unwrap()).collect())
}

#[test]
fn all_moves() {
    let all = AxisMove::all();
    assert_eq!(all.len(), 18);
    for (i, a) in all.iter().enumerate() {
        for b in all.iter().skip(i + 1) {
            assert_ne!(a, b);
        }
    }
}

#[test]
fn inverse_moves() {
    assert_eq!(
        AxisMove::parse("R").unwrap().inverse(),
        AxisMove::parse("R'").unwrap()
    );
    assert_eq!(
        AxisMove::parse("U2").unwrap().inverse(),
        AxisMove::parse("U2").unwrap()
    );
    for m in AxisMove::all() {
        assert_eq!(m.inverse().inverse(), m);
        let cube = Cube3::solved().moved(&m).moved(&m.inverse());
        assert_eq!(cube, Cube3::solved());
    }
}

#[test]
fn four_turns_solve() {
    for m in AxisMove::all() {
        let mut cube = Cube3::solved();
        for _ in 0..4 {
            cube.apply(&m);
        }
        assert!(cube.is_solved());
    }
    let mut cube = Cube3::solved();
    cube.apply(&AxisMove::parse("R").unwrap());
    assert!(!cube.is_solved());
}

#[test]
fn six_sexy_moves_solve() {
    let mut cube = Cube3::solved();
    let sexy = alg(&["R", "U", "R'", "U'"]);
    for _ in 0..6 {
        cube.apply_alg(&sexy);
    }
    assert!(cube.is_solved());
}

#[test]
fn amounts_add() {
    assert_eq!(Amount::Single.add(Amount::Single), Some(Amount::Double));
    assert_eq!(Amount::Single.add(Amount::Inverse), None);
    assert_eq!(Amount::Double.add(Amount::Single), Some(Amount::Inverse));
    assert_eq!(Amount::Single.mul(Direction::Negative), Amount::Inverse);
    assert_eq!(Amount::Double.mul(Direction::Negative), Amount::Double);
    assert_eq!(Amount::from_direction(Direction::Negative), Amount::Inverse);
}

#[test]
fn normalized_merges_and_cancels() {
    assert_eq!(alg(&["R", "R"]).normalized().moves, alg(&["R2"]).moves);
    assert_eq!(alg(&["R", "R'"]).normalized().moves, Vec::<AxisMove>::new());
    assert_eq!(alg(&["R", "L", "R'"]).normalized().moves, alg(&["L"]).moves);
    assert_eq!(
        alg(&["U", "R", "R'", "U"]).normalized().moves,
        alg(&["U2"]).moves
    );
    let scramble = alg(&["F", "R", "U", "B'", "L2", "D"]);
    assert_eq!(scramble.clone().normalized().moves, scramble.moves);
}

#[test]
fn normalized_doc_example() {
    let a = alg(&["L'", "F", "R'", "L2", "R", "L2", "F'", "L", "B", "F", "B", "D"]);
    assert_eq!(a.normalized().moves, alg(&["B2", "F", "D"]).moves);
}

#[test]
fn normalized_keeps_merging_after_a_cancellation() {
    let a = alg(&["F'", "R'", "R", "F", "B2"]);
    assert_eq!(a.normalized().moves, alg(&["B2"]).moves);
    let b = alg(&["F", "B", "U", "U'", "F'"]);
    assert_eq!(b.normalized().moves, alg(&["B"]).moves);
    let c = alg(&["R", "L"]);
    assert_eq!(c.normalized().moves, alg(&["L", "R"]).moves);
}

#[test]
fn normalized_does_the_same() {
    let a = alg(&["R", "L", "R", "U", "U", "U", "U", "F'", "B", "F", "F"]);
    let n = a.clone().normalized();
    assert!(n.moves.len() <= a.moves.len());
    let mut c1 = Cube3::solved();
    c1.apply_alg(&a);
    let mut c2 = Cube3::solved();
    c2.apply_alg(&n);
    assert_eq!(c1, c2);
}

#[test]
fn absorving() {
    let r = AxisMove::parse("R").unwrap();
    let mut nr = None;
    assert_eq!(absorve(&mut nr, &r), AbsorveResult::Absorved);
    assert_eq!(nr, Some(NonRedundantAxisMove::Single(r)));
    assert_eq!(
        absorve(&mut nr, &AxisMove::parse("F").unwrap()),
        AbsorveResult::NotAdded
    );
    assert_eq!(
        absorve(&mut nr, &AxisMove::parse("L2").unwrap()),
        AbsorveResult::Added
    );
    assert_eq!(
        absorve(&mut nr, &AxisMove::parse("L2").unwrap()),
        AbsorveResult::Collapsed
    );
    assert_eq!(nr, Some(NonRedundantAxisMove::Single(r)));
    assert_eq!(
        absorve(&mut nr, &AxisMove::parse("R'").unwrap()),
        AbsorveResult::Collapsed
    );
    assert_eq!(nr, None);
}

#[test]
fn non_redundant_move_counts() {
    assert_eq!(NonRedundantAxisMove::of_axis(Axis::X).len(), 15);
    assert_eq!(NonRedundantAxisMove::given_last_axis(&Axis::Y).len(), 30);
    assert_eq!(NonRedundantAxisMove::all().len(), 45);
    for m in NonRedundantAxisMove::given_last_axis(&Axis::Y) {
        assert_ne!(m.axis(), Axis::Y);
    }
}

#[test]
fn quarter_moves() {
    let q = alg(&["R2", "U'"]).to_quarter();
    assert_eq!(q.moves.len(), 3);
    assert_eq!(
        q.moves[2],
        QuarterAxisMove::new(Face::U(), Direction::Negative)
    );
    assert_eq!(
        QuarterAxisMove::new(Face::R(), Direction::Positive).to_axis_move(),
        AxisMove::parse("R").unwrap()
    );
}

#[test]
fn quarter_moves_do_the_same() {
    let a = alg(&["R2", "U'", "F2", "L", "D2"]);
    let q = a.clone().to_quarter();
    assert_eq!(q.moves.len(), a.moves.len() + 3);
    let as_moves = Alg::new(q.moves.iter().map(|m| m.to_axis_move()).collect());
    let mut c1 = Cube3::solved();
    c1.apply_alg(&a);
    let mut c2 = Cube3::solved();
    c2.apply_alg(&as_moves);
    assert_eq!(c1, c2);
}

#[test]
fn widening_beyond_the_maximum_fails_even_when_empty() {
    assert_eq!(
        Alg::<AxisMove>::new(vec![]).widen::<1>(5),
        Err(WideMoveCreationError::ExcededDepth(5, 1))
    );
    assert!(Alg::<AxisMove>::new(vec![]).widen::<1>(1).unwrap().moves.is_empty());
    assert_eq!(
        alg(&["R"]).widen::<2>(3),
        Err(WideMoveCreationError::ExcededDepth(3, 2))
    );
}

#[test]
fn rotations() {
    let x = AxisRotation::new(Axis::X, Amount::Single);
    assert_eq!(x.inverse(), AxisRotation::new(Axis::X, Amount::Inverse));
    assert_eq!(Face::F().rotated(&x), Face::U());
    let m = AxisMove::parse("F").unwrap().rotated(&x);
    assert_eq!(m, AxisMove::parse("U").unwrap());
    assert!(x.flips_edge_orientation(Axis::Y));
    assert!(!AxisRotation::new(Axis::Y, Amount::Single).flips_edge_orientation(Axis::X));
    assert_eq!(
        AxisRotation::from_move(&AxisMove::parse("U'").unwrap()),
        AxisRotation::new(Axis::Y, Amount::Inverse)
    );
}

#[test]
fn wide_move_errors() {
    assert_eq!(
        WideAxisMove::<2>::new(Face::R(), Amount::Single, 3),
        Err(WideMoveCreationError::ExcededDepth(3, 2))
    );
    let mut m = WideAxisMove::<2>::new(Face::R(), Amount::Single, 1).unwrap();
    assert_eq!(m.set_depth(4), Err(WideMoveCreationError::ExcededDepth(4, 2)));
    assert_eq!(m.depth(), 1);
    assert_eq!(m.set_depth(2), Ok(()));
    assert_eq!(m.depth(), 2);
    assert_eq!(m.inverse().amount(), Amount::Inverse);
    assert!(m.set_max_depth::<1>().is_err());
    assert!(AxisMove::parse("R").unwrap().widen::<1>(1).is_ok());
}

#[test]
fn extended_inverse() {
    let m = ExtendedAxisMove::parse("Rw").unwrap();
    assert_eq!(m.inverse().inverse(), m);
    assert_eq!(
        ExtendedAxisMove::parse("x").unwrap().inverse(),
        ExtendedAxisMove::parse("x'").unwrap()
    );
}

#[test]
fn depth_piece_set_moves_and_undoes() {
    let on_u = CenterEdge::new(Face::U(), Direction::Positive, Direction::Positive);
    let on_d = CenterEdge::new(Face::D(), Direction::Positive, Direction::Positive);
    let mut set: DepthPieceSet<CenterEdge, 2, 1, 0> = DepthPieceSet { set: [on_u, on_d] };
    let u = WideAxisMove::<1>::new(Face::U(), Amount::Single, 0).unwrap();
    set.apply(&u);
    assert_eq!(
        set.set[0],
        on_u.rotated(&AxisRotation::new(Axis::Y, Amount::Single))
    );
    assert_eq!(set.set[1], on_d);
    set.apply(&u.inverse());
    assert_eq!(set.set, [on_u, on_d]);
}
