use barbarosa::cube3::deindex::{
    deindex_orientations, deindex_positions, fix_corner_multiplicity, Deindexable,
};
use barbarosa::cube3::index::{
    disposition_multipliers, factorial, orientation_permutation_index,
    position_disposition_index, CornersMUS, HalfEdgesMUS, Indexable, OrientationIndexable,
    PositionIndexable,
};
use barbarosa::cube3::Cube3;
use barbarosa::moves::AxisMove;
use barbarosa::pieces::corner::Corner;
use barbarosa::pieces::edge::Edge;

#[test]
fn factorials() {
    assert_eq!(factorial(0), 1);
    assert_eq!(factorial(1), 1);
    assert_eq!(factorial(5), 120);
    assert_eq!(factorial(8), 40320);
    assert_eq!(factorial(12), 479001600);
    assert_eq!(factorial(20), 2432902008176640000);
    assert_eq!(factorial(21), 0);
    assert_eq!(factorial(100), 0);
}

#[test]
fn multipliers_of_half_edges_and_corners() {
    assert_eq!(
        disposition_multipliers::<Edge, 6, 12>(),
        vec![55440, 5040, 504, 56, 7, 1]
    );
    assert_eq!(
        disposition_multipliers::<Corner, 8, 8>(),
        vec![5040, 720, 120, 24, 6, 2, 1, 1]
    );
}

fn solved_first_half() -> HalfEdgesMUS {
    let e = Cube3::solved().edges;
    [e[0], e[1], e[2], e[3], e[4], e[5]]
}

#[test]
fn disposition_of_solved_pieces_is_zero() {
    assert_eq!(
        position_disposition_index::<Edge, 6, 12>(&solved_first_half()),
        0
    );
    assert_eq!(
        position_disposition_index::<Corner, 8, 8>(&Cube3::solved().corners),
        0
    );
}

#[test]
fn disposition_index_values() {
    let e = Cube3::solved().edges;
    // First two swapped: the first choice is 1 (one unused position below it).
    let swapped = [e[1], e[0], e[2], e[3], e[4], e[5]];
    assert_eq!(position_disposition_index::<Edge, 6, 12>(&swapped), 55440);
    // The last one at the last position: 11 - 5 = 6 unused positions below it.
    let last = [e[0], e[1], e[2], e[3], e[4], e[11]];
    assert_eq!(position_disposition_index::<Edge, 6, 12>(&last), 6);
    // Reversed corners: the largest index.
    let c = Cube3::solved().corners;
    let reversed = [c[7], c[6], c[5], c[4], c[3], c[2], c[1], c[0]];
    assert_eq!(
        position_disposition_index::<Corner, 8, 8>(&reversed),
        40320 - 1
    );
}

#[test]
fn orientation_index_values() {
    let mut h = solved_first_half();
    assert_eq!(orientation_permutation_index::<Edge, 6>(&h), 0);
    h[5].flip();
    assert_eq!(orientation_permutation_index::<Edge, 6>(&h), 1);
    h[0].flip();
    assert_eq!(orientation_permutation_index::<Edge, 6>(&h), 33);
    let mut c = Cube3::solved().corners;
    c[6].twist();
    c[6].twist();
    assert_eq!(c.orientation_index(), 2);
    c[0].twist();
    assert_eq!(c.orientation_index(), 729 + 2);
    // The last corner does not count.
    c[7].twist();
    assert_eq!(c.orientation_index(), 729 + 2);
}

#[test]
fn piece_position_indices() {
    let refs = barbarosa::cube3::edge_reference_positions();
    for (i, (axis, slice)) in refs.iter().enumerate() {
        assert_eq!(Edge::oriented(*axis, *slice).position_index(), i);
    }
    let refs = barbarosa::cube3::corner_reference_positions();
    for (i, pos) in refs.iter().enumerate() {
        assert_eq!(Corner::oriented(*pos).position_index(), i);
    }
    assert_eq!(
        <Edge as OrientationIndexable>::orientation_index(&Cube3::solved().edges[0].flipped()),
        1
    );
}

#[test]
fn solved_cube_indices_are_zero() {
    let indices = Cube3::solved().indices();
    assert_eq!(indices.corners, 0);
    assert_eq!(indices.edges, [0, 0]);
}

#[test]
fn indices_stay_below_table_sizes() {
    let mut cube = Cube3::solved();
    let mut seen = std::collections::HashSet::new();
    seen.insert(cube.indices().edges[0]);
    for s in ["R", "U", "F'", "L2", "D", "B", "R'", "U2", "F", "L'"] {
        cube.apply(&AxisMove::parse(s).unwrap());
        let indices = cube.indices();
        assert!(indices.corners < <CornersMUS as Indexable>::TOTAL_SET_SIZE);
        assert!(indices.edges[0] < <HalfEdgesMUS as Indexable>::TOTAL_SET_SIZE);
        assert!(indices.edges[1] < <HalfEdgesMUS as Indexable>::TOTAL_SET_SIZE);
        seen.insert(indices.edges[0]);
    }
    assert!(seen.len() > 1);
}

#[test]
fn one_move_changes_the_indices() {
    let cube = Cube3::solved().moved(&AxisMove::parse("R").unwrap());
    let indices = cube.indices();
    assert_ne!(indices.corners, 0);
    assert_ne!(indices.edges, [0, 0]);
}

#[test]
fn set_sizes() {
    assert_eq!(<HalfEdgesMUS as PositionIndexable>::POSITION_SET_SIZE, 665280);
    assert_eq!(<HalfEdgesMUS as OrientationIndexable>::ORIENTATION_SET_SIZE, 64);
    assert_eq!(<CornersMUS as PositionIndexable>::POSITION_SET_SIZE, 40320);
    assert_eq!(<CornersMUS as OrientationIndexable>::ORIENTATION_SET_SIZE, 2187);
    assert_eq!(<CornersMUS as Indexable>::TOTAL_SET_SIZE, 88179840);
}

#[test]
fn deindexing_inverts_indexing() {
    assert_eq!(deindex_positions::<Edge, 6, 12>(0), vec![0, 1, 2, 3, 4, 5]);
    assert_eq!(deindex_positions::<Edge, 6, 12>(55440), vec![1, 0, 2, 3, 4, 5]);
    assert_eq!(deindex_positions::<Edge, 6, 12>(6), vec![0, 1, 2, 3, 4, 11]);
    assert_eq!(
        deindex_positions::<Corner, 8, 8>(40319),
        vec![7, 6, 5, 4, 3, 2, 1, 0]
    );
    assert_eq!(deindex_orientations::<Edge, 6>(33), vec![1, 0, 0, 0, 0, 1]);
    assert_eq!(deindex_orientations::<Corner, 7>(731), vec![1, 0, 0, 0, 0, 0, 2]);

    for i in [0, 1, 63, 64, 12345, 665279 * 64, 42577919] {
        let edges = HalfEdgesMUS::from_index(i);
        assert_eq!(edges.index(), i);
    }
    for i in [0, 1, 2186, 2187, 777777, 88179839] {
        let corners = CornersMUS::from_index(i);
        assert_eq!(corners.index(), i);
        let sum: usize = corners.iter().map(|c| c.orientation_index()).sum();
        assert_eq!(sum % 3, 0);
    }
    assert_eq!(HalfEdgesMUS::from_index(0), solved_first_half());
    assert_eq!(CornersMUS::from_index(0), Cube3::solved().corners);
}

#[test]
fn corner_twists_fixed() {
    let mut c = Cube3::solved().corners;
    c[2].twist();
    fix_corner_multiplicity(&mut c);
    let sum: usize = c.iter().map(|c| c.orientation_index()).sum();
    assert_eq!(sum % 3, 0);
    assert_eq!(c[7].orientation_index(), 2);
    assert_eq!(c[2].orientation_index(), 1);
}
