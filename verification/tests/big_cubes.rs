use barbarosa::cube2::Cube2;
use barbarosa::cube4::Cube4;
use barbarosa::cube5::Cube5;
use barbarosa::cube6::Cube6;
use barbarosa::cube7::Cube7;
use barbarosa::moves::wide::WideAxisMove;
use barbarosa::moves::{Alg, Amount, AxisMove};
use barbarosa::pieces::wing::Wing;
use barbarosa::space::{Axis, Direction, Face};
use rand::rngs::StdRng;
use rand::SeedableRng;

fn moves(s: &str) -> Vec<AxisMove> {
    s.split_whitespace()
        .map(|m| AxisMove::parse(m).unwrap())
        .collect()
}

fn sexy_move() -> Vec<AxisMove> {
    moves("R U R' U'")
}

fn t_perm() -> Vec<AxisMove> {
    moves("R U R' U' R' F R2 U' R' U' R U R' F'")
}

fn widen<const N: u32>(alg: &[AxisMove], depth: u32) -> Vec<WideAxisMove<N>> {
    alg.iter().map(|m| m.widen::<N>(depth).unwrap()).collect()
}

fn j_perm() -> Vec<AxisMove> {
    moves("R U R' F' R U R' U' R' F R2 U' R' U'")
}

fn u_perm() -> Vec<AxisMove> {
    moves("R U' R U R U R U' R' U' R2")
}

fn expect_wing(cube: &Cube4, target: ([Face; 2], Direction), expected: ([Face; 2], Direction)) {
    let target = Wing::try_from_faces(target.0, target.1).unwrap();
    let expected = Wing::try_from_faces(expected.0, expected.1).unwrap();

    let found = cube.wings.original_position_of_piece_at(&target).unwrap();

    assert_eq!(found, expected);
}

#[test]
fn just_solved() {
    assert!(Cube4::solved().is_solved());
}

#[test]
fn apply_move() {
    let mut cube = Cube4::solved();
    let mov = WideAxisMove::<1>::new(Face::R(), Amount::Single, 1).unwrap();

    cube.apply(&mov);
    assert!(!cube.is_solved());
}

#[test]
fn six_sexy_moves() {
    let mut cube = Cube4::solved();

    for _ in 0..6 {
        for m in sexy_move() {
            cube.apply_axis_move(&m);
        }
    }

    assert!(cube.is_solved());
}

#[test]
fn four_wide_us() {
    let mut cube = Cube4::solved();
    let mov = WideAxisMove::<1>::new(Face::U(), Amount::Single, 1).unwrap();

    for _ in 0..4 {
        cube.apply(&mov);
    }

    assert!(cube.is_solved());
}

#[test]
fn four_wide_fs() {
    let mut cube = Cube4::solved();
    let mov = WideAxisMove::<1>::new(Face::F(), Amount::Single, 1).unwrap();
    let (r, u, f) = (Face::R(), Face::U(), Face::F());

    for i in 0..4 {
        cube.apply(&mov);

        match i {
            0 => expect_wing(&cube, ([r, f], Direction::Positive), ([u, f], Direction::Negative)),
            _ => (),
        }
    }

    assert!(cube.is_solved());
}

#[test]
fn four_wide_rs() {
    let mut cube = Cube4::solved();
    let mov = WideAxisMove::<1>::new(Face::R(), Amount::Single, 1).unwrap();

    for _ in 0..4 {
        cube.apply(&mov);
    }

    assert!(cube.is_solved());
}

#[test]
fn four_of_every_single_move() {
    for m in AxisMove::all() {
        let m_wide = m.widen::<1>(1).unwrap();

        let mut cube = Cube4::solved();

        for _ in 0..4 {
            cube.apply(&m_wide);
        }

        assert!(cube.is_solved());

        for _ in 0..4 {
            cube.apply_axis_move(&m);
        }

        assert!(cube.is_solved());
    }
}

#[test]
fn solve_unsolve_journey() {
    let alg = Alg::random_with_rng(30, &mut StdRng::seed_from_u64(69420));
    let wide: Vec<WideAxisMove<1>> = alg
        .moves
        .iter()
        .enumerate()
        .map(|(i, m)| m.widen::<1>((i % 2) as u32).unwrap())
        .collect();

    let mut cube = Cube4::solved();

    for m in &wide {
        cube.apply(m);
    }
    assert!(!cube.is_solved());

    for m in wide.iter().rev() {
        cube.apply(&m.inverse());
    }
    assert!(cube.is_solved());
}

#[test]
fn six_wide_sexies() {
    let mut cube = Cube4::solved();

    let wide_sexy = widen::<1>(&sexy_move(), 1);

    for _ in 0..6 {
        for m in &wide_sexy {
            cube.apply(m);
        }
    }

    assert_eq!(cube.corners, Cube4::solved().corners);
    assert_eq!(cube.centers, Cube4::solved().centers, "Centers are not solved");
    assert_eq!(cube.wings, Cube4::solved().wings, "Wings are not solved");

    assert!(cube.is_solved());
}

#[test]
fn two_wide_ts() {
    let mut cube = Cube4::solved();
    let wide_t = widen::<1>(&t_perm(), 1);
    let (r, u, f) = (Face::R(), Face::U(), Face::F());

    for (i, m) in wide_t.iter().enumerate() {
        cube.apply(m);

        match i {
            12 => expect_wing(&cube, ([r, f], Direction::Negative), ([r, u], Direction::Negative)),
            13 => expect_wing(&cube, ([u, f], Direction::Positive), ([r, u], Direction::Negative)),
            _ => (),
        }
    }

    for m in &wide_t {
        cube.apply(m);
    }

    assert_eq!(cube.wings, Cube4::solved().wings);
    assert!(cube.is_solved());
}

#[test]
fn two_wide_js() {
    let mut cube = Cube4::solved();
    let wide_j = widen::<1>(&j_perm(), 1);

    for _ in 0..2 {
        for m in &wide_j {
            cube.apply(m);
        }
    }

    assert_eq!(Cube4::solved().corners, cube.corners);
    assert_eq!(Cube4::solved().centers, cube.centers);
    assert_eq!(Cube4::solved().wings, cube.wings);
    assert!(cube.is_solved());
}

#[test]
fn random_amount_of_wide_u_perms() {
    let mut cube = Cube4::solved();
    let wide_u = widen::<1>(&u_perm(), 1);

    for _ in 0..5 {
        for m in &wide_u {
            cube.apply(m);
        }
    }

    assert!(cube.is_solved());
}

#[test]
fn regular_ass_t_perm_lol() {
    let mut cube = Cube4::solved();

    for _ in 0..2 {
        for m in t_perm() {
            cube.apply_axis_move(&m);
        }
    }

    assert!(cube.is_solved());
}

#[test]
fn moves_by_all_widenesses() {
    let normal = AxisMove::new(Face::R(), Amount::Single);
    let w0 = WideAxisMove::<0>::new(Face::R(), Amount::Single, 0).unwrap();
    let w1 = WideAxisMove::<1>::new(Face::R(), Amount::Single, 0).unwrap();

    let mut a = Cube4::solved();
    a.apply_axis_move(&normal);
    let mut b = Cube4::solved();
    b.apply_narrower(&w0);
    let mut c = Cube4::solved();
    c.apply(&w1);
    assert_eq!(a, b);
    assert_eq!(b, c);
}

#[test]
fn two_t_pems_solve_it() {
    let mut cube = Cube5::solved();

    let wide_t = widen::<1>(&t_perm(), 1);

    for m in &wide_t {
        cube.apply(m);
    }

    assert!(!cube.is_solved());

    for m in &wide_t {
        cube.apply(m);
    }

    assert!(cube.is_solved());
}

#[test]
fn half_wide_t_perm() {
    let mut cube = Cube5::solved();

    let half_wide_t: Vec<WideAxisMove<1>> = t_perm()
        .into_iter()
        .map(|mov| {
            let depth = if mov.face == Face::R() { 1 } else { 0 };
            mov.widen(depth).unwrap()
        })
        .collect();

    for m in &half_wide_t {
        cube.apply(m);
    }

    assert!(!cube.is_solved());

    for m in &half_wide_t {
        cube.apply(m);
    }

    assert!(cube.is_solved());
}

#[test]
fn test_six_sexies() {
    let mut cube2 = Cube2::solved();
    let mut cube6 = Cube6::solved();
    let mut cube7 = Cube7::solved();
    let alg = widen::<2>(&sexy_move(), 0);

    for _ in 0..6 {
        for m in sexy_move() {
            cube2.apply(&m);
        }
        for m in &alg {
            cube6.apply(m);
            cube7.apply(m);
        }
    }

    assert!(cube2.is_solved());
    assert!(cube6.is_solved());
    assert!(cube7.is_solved());
}

#[test]
fn two_ts_solves() {
    let mut cube = Cube2::solved();
    for _ in 0..2 {
        for m in t_perm() {
            cube.apply(&m);
        }
    }

    assert!(cube.is_solved());
}

#[test]
fn test_two_t_perms_of_varying_depths() {
    let mut cube6 = Cube6::solved();
    let mut cube7 = Cube7::solved();

    for i in 0..=2 {
        let alg = widen::<2>(&t_perm(), i);

        for m in &alg {
            cube6.apply(m);
            cube7.apply(m);
        }
        assert!(!cube6.is_solved());
        assert!(!cube7.is_solved());

        for m in &alg {
            cube6.apply(m);
            cube7.apply(m);
        }
        assert!(cube6.is_solved());
        assert!(cube7.is_solved());
    }
}

#[test]
fn four_of_each() {
    for mov in &AxisMove::all() {
        for depth in 0..=2 {
            let mov = mov.widen::<2>(depth).unwrap();
            let mut cube = Cube6::solved();

            for _ in 0..4 {
                cube.apply(&mov);
            }

            assert!(cube.is_solved());
        }
    }
}

#[test]
fn center_wings_normal_directions() {
    let ru = &Cube6::solved().center_wings.set[0];

    assert_eq!(ru.normal_axis(), Axis::Z);
    assert_eq!(ru.normal_direction(), Direction::Positive);

    let uf = &Cube6::solved().center_wings.set[1];

    assert_eq!(uf.normal_axis(), Axis::X);
    assert_eq!(uf.normal_direction(), Direction::Negative);
}

#[test]
fn varying_type_of_wide_move() {
    let axis_move = AxisMove::new(Face::R(), Amount::Single);
    let w0 = WideAxisMove::<0>::new(Face::R(), Amount::Single, 0).unwrap();
    let w1 = WideAxisMove::<1>::new(Face::R(), Amount::Single, 0).unwrap();
    let w2 = WideAxisMove::<2>::new(Face::R(), Amount::Single, 0).unwrap();

    let mut a = Cube7::solved();
    a.apply_axis_move(&axis_move);
    let mut b = Cube7::solved();
    b.apply_narrower(&w0);
    let mut c = Cube7::solved();
    c.apply_narrower(&w1);
    let mut d = Cube7::solved();
    d.apply(&w2);
    assert_eq!(a, b);
    assert_eq!(b, c);
    assert_eq!(c, d);
}

#[test]
fn wide_moves_undo() {
    for mov in &AxisMove::all() {
        for depth in 0..=2 {
            let m = mov.widen::<2>(depth).unwrap();
            let mut cube = Cube7::solved();
            cube.apply(&m);
            cube.apply(&m.inverse());
            assert_eq!(cube, Cube7::solved());
        }
    }
}

#[test]
fn trying_to_permute_edges_doesnt_unsolve() {
    let mut cube = Cube2::solved();
    for m in u_perm() {
        cube.apply(&m);
    }
    assert!(cube.is_solved());
}
