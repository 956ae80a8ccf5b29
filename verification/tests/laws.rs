use std::collections::HashMap;

use rand::rngs::StdRng;
use rand::SeedableRng;

use barbarosa::cube3::index::{CornersMUS, HalfEdgesMUS, Indexable};
use barbarosa::cube3::manhattan::{corner_manhattan, edge_manhattan, manhattan_sum};
use barbarosa::cube3::{corner_reference_positions, edge_reference_positions, Cube3};
use barbarosa::moves::non_redundant::NonRedundantAxisMove;
use barbarosa::moves::rotation::{AxisRotation, Rotatable};
use barbarosa::moves::wide::WideAxisMove;
use barbarosa::moves::{Alg, Amount, AxisMove};
use barbarosa::pieces::edge::Edge;
use barbarosa::space::{Axis, Face};
use barbarosa::visualization::{unfolded_rows, Color, Colored};

fn flipped(cube: &Cube3) -> usize {
    cube.edges.iter().filter(|e| !e.oriented).count()
}

#[test]
fn scrambles_flip_an_even_number_of_edges() {
    let mut rng = StdRng::seed_from_u64(69420);
    for length in [1, 2, 3, 7, 20, 50] {
        let alg = Alg::random_with_rng(length, &mut rng);
        let mut cube = Cube3::solved();
        cube.apply_alg(&alg);
        assert_eq!(flipped(&cube) % 2, 0);
        assert!(cube.has_distinct_positions());
    }
    let cube = Cube3::solved().moved(&AxisMove::parse("R").unwrap());
    assert_eq!(flipped(&cube), 4);
    let cube = Cube3::solved().moved(&AxisMove::parse("F").unwrap());
    assert_eq!(flipped(&cube), 0);
}

#[test]
fn random_algs_have_the_requested_length() {
    let mut rng = StdRng::seed_from_u64(7);
    for length in [0, 1, 5, 20, 31] {
        let alg = Alg::random_with_rng(length, &mut rng);
        assert!(alg.moves.len() >= length && alg.moves.len() <= length + 1);
        for w in alg.moves.windows(2) {
            assert_ne!(w[0].face, w[1].face);
        }
        for w in alg.moves.windows(3) {
            assert!(!(w[0].face.axis == w[1].face.axis && w[1].face.axis == w[2].face.axis));
        }
    }
    assert!(Alg::random(10).unwrap().moves.len() >= 10);
    assert!(Alg::random_with_rng(0, &mut rng).moves.is_empty());
}

#[test]
fn x2_pairs_reference_edges() {
    let solved = Cube3::solved();
    let x2 = AxisRotation::new(Axis::X, Amount::Double);
    for i in 0..6 {
        assert_eq!(solved.edges[i].rotated(&x2), solved.edges[i + 6]);
        assert_eq!(solved.edges[i + 6].rotated(&x2), solved.edges[i]);
    }
}

#[test]
fn notation_reads_back() {
    for m in AxisMove::all() {
        assert_eq!(AxisMove::parse(&m.notation()).unwrap(), m);
        for depth in 0..=1 {
            let w = m.widen::<3>(depth).unwrap();
            assert_eq!(WideAxisMove::<3>::parse(&w.notation()).unwrap(), w);
        }
    }
    assert_eq!(AxisMove::parse("R2").unwrap().notation(), "R2");
    assert_eq!(AxisMove::parse("F'").unwrap().notation(), "F'");
    assert_eq!(
        WideAxisMove::<3>::new(Face::R(), Amount::Inverse, 1).unwrap().notation(),
        "Rw'"
    );
    // Deeper moves are written with the depth plus one.
    let deep = WideAxisMove::<3>::new(Face::U(), Amount::Double, 2).unwrap();
    assert_eq!(deep.notation(), "3Uw2");
    assert_eq!(WideAxisMove::<3>::parse("3Uw2").unwrap().depth(), 3);
    assert_eq!(Amount::Inverse.notation(), "'");
    assert_eq!(Face::B().notation(), "B");
    let double = NonRedundantAxisMove::Double {
        axis: Axis::X,
        amount_positive: Amount::Single,
        amount_negative: Amount::Double,
    };
    assert_eq!(double.notation(), "R L2");
}

#[test]
fn solved_pieces_show_their_own_colors() {
    let solved = Cube3::solved();
    for (c, pos) in solved.corners.iter().zip(corner_reference_positions().iter()) {
        for (face, color) in c.colors(*pos) {
            assert_eq!(color, Color::new(face));
        }
    }
    for (e, pos) in solved.edges.iter().zip(edge_reference_positions().iter()) {
        let colors = e.colors(*pos);
        assert_eq!(colors.len(), 2);
        for (face, color) in colors {
            assert_eq!(color, Color::new(face));
        }
    }
    let flipped = solved.edges[0].flipped();
    let colors = flipped.colors(edge_reference_positions()[0]);
    assert_eq!(colors[0].1, Color::new(colors[1].0));
}

#[test]
fn distinct_positions_check() {
    assert!(Cube3::solved().has_distinct_positions());
    let mut cube = Cube3::solved();
    cube.edges[1] = cube.edges[0];
    assert!(!cube.has_distinct_positions());
    let mut cube = Cube3::solved();
    cube.corners[3] = cube.corners[5];
    assert!(!cube.has_distinct_positions());
}

#[test]
fn indices_tell_arrangements_apart() {
    let mut by_index: HashMap<usize, Vec<Edge>> = HashMap::new();
    let mut corners_by_index: HashMap<usize, Vec<barbarosa::pieces::corner::Corner>> = HashMap::new();
    let mut frontier = vec![Cube3::solved()];
    for _ in 0..2 {
        let mut next = Vec::new();
        for cube in &frontier {
            for (c, _) in cube.successors() {
                let indices = c.indices();
                let half = c.edges[0..6].to_vec();
                if let Some(seen) = by_index.get(&indices.edges[0]) {
                    assert_eq!(seen, &half);
                }
                by_index.insert(indices.edges[0], half);
                let corners = c.corners.to_vec();
                if let Some(seen) = corners_by_index.get(&indices.corners) {
                    for i in 0..7 {
                        assert_eq!(seen[i], corners[i]);
                    }
                }
                corners_by_index.insert(indices.corners, corners);
                assert!(indices.corners < <CornersMUS as Indexable>::TOTAL_SET_SIZE);
                assert!(indices.edges[1] < <HalfEdgesMUS as Indexable>::TOTAL_SET_SIZE);
                next.push(c);
            }
        }
        frontier = next;
    }
    assert!(by_index.len() > 18);
}

#[test]
fn manhattan_distances_of_single_turns() {
    assert_eq!(manhattan_sum(&Cube3::solved()), 0);

    let r = Cube3::solved().moved(&AxisMove::parse("R").unwrap());
    assert_eq!(manhattan_sum(&r), 16);

    let r2 = Cube3::solved().moved(&AxisMove::parse("R2").unwrap());
    assert_eq!(manhattan_sum(&r2), 24);

    let edges = edge_reference_positions();
    let corners = corner_reference_positions();
    assert_eq!(edge_manhattan(&edges[2], &r2.edges[2]), 2);
    assert_eq!(edge_manhattan(&edges[0], &r2.edges[0]), 0);
    assert_eq!(corner_manhattan(&corners[0], &r2.corners[0]), 4);
    assert_eq!(corner_manhattan(&corners[0], &Cube3::solved().corners[7]), 6);
}

#[test]
fn manhattan_sum_ignores_orientation() {
    let mut cube = Cube3::solved();
    cube.edges[0].oriented = false;
    cube.edges[1].oriented = false;
    assert!(!cube.is_solved());
    assert_eq!(manhattan_sum(&cube), 0);
}

#[test]
fn unfolded_drawing_layout() {
    let faces: [[[Color; 2]; 2]; 6] = std::array::from_fn(|i| [[Color::new(Face::iter()[i]); 2]; 2]);
    let rows = unfolded_rows(&faces);
    assert_eq!(rows.len(), 4 * 2 + 4);
    let u = Some(Color::new(Face::U()));
    assert_eq!(rows[0], vec![None, None, None, u, u]);
    assert!(rows[2].is_empty());
    let (l, f, r) = (
        Some(Color::new(Face::L())),
        Some(Color::new(Face::F())),
        Some(Color::new(Face::R())),
    );
    assert_eq!(rows[3], vec![r, r, None, f, f, None, l, l]);
    assert!(rows[5].is_empty());
    let d = Some(Color::new(Face::D()));
    assert_eq!(rows[6], vec![None, None, None, d, d]);
    let b = Some(Color::new(Face::B()));
    assert_eq!(rows[9], vec![None, None, None, b, b]);
    assert!(rows[11].is_empty());
}
