use barbarosa::cube3::cache::{Cache, CORNERS_TABLE_SIZE, EDGES_TABLE_SIZE};
use barbarosa::cube3::cfop::cross::{count_cross_pieces, get_cross_pieces, is_cross_edge};
use barbarosa::cube3::Cube3;
use barbarosa::moves::AxisMove;
use barbarosa::space::{Axis, Direction, Face, Vec2};

#[test]
fn solved_cube_has_full_crosses() {
    let cube = Cube3::solved();
    for face in Face::iter() {
        assert_eq!(count_cross_pieces(&cube, &face), 4);
    }
}

#[test]
fn moves_break_crosses() {
    let cube = Cube3::solved().moved(&AxisMove::parse("R").unwrap());
    assert_eq!(count_cross_pieces(&cube, &Face::U()), 3);
    assert_eq!(count_cross_pieces(&cube, &Face::R()), 0);
    assert_eq!(count_cross_pieces(&cube, &Face::L()), 4);
    let cube = Cube3::solved().moved(&AxisMove::parse("U").unwrap());
    assert_eq!(count_cross_pieces(&cube, &Face::U()), 0);
    assert_eq!(count_cross_pieces(&cube, &Face::D()), 4);
    let cube = Cube3::solved().moved(&AxisMove::parse("U2").unwrap());
    assert_eq!(count_cross_pieces(&cube, &Face::U()), 0);
}

#[test]
fn cross_pieces_of_u() {
    let pieces = get_cross_pieces(&Face::U());
    let p = Direction::Positive;
    let n = Direction::Negative;
    assert_eq!(
        pieces,
        [
            (Axis::Z, Vec2::new(p, p)),
            (Axis::Z, Vec2::new(n, p)),
            (Axis::X, Vec2::new(p, p)),
            (Axis::X, Vec2::new(p, n)),
        ]
    );
    for face in Face::iter() {
        for piece in get_cross_pieces(&face) {
            assert!(is_cross_edge(&piece, &face));
            assert!(!is_cross_edge(&piece, &face.opposite()));
        }
    }
}

#[test]
fn cache_needs_complete_tables() {
    assert!(Cache::from_tables(vec![0; 10], vec![0; CORNERS_TABLE_SIZE]).is_none());
    assert!(Cache::from_tables(vec![0; EDGES_TABLE_SIZE], vec![0; 3]).is_none());
}

#[test]
fn cache_gives_the_largest_entry() {
    let mut edges = vec![0u8; EDGES_TABLE_SIZE];
    let mut corners = vec![0u8; CORNERS_TABLE_SIZE];
    edges[0] = 3;
    corners[0] = 5;
    let cube = Cube3::solved().moved(&AxisMove::parse("R").unwrap());
    let indices = cube.indices();
    edges[indices.edges[0]] = 9;
    corners[indices.corners] = 2;
    let cache = Cache::from_tables(edges, corners).unwrap();
    assert_eq!(cache.get(&Cube3::solved()), 5);
    assert_eq!(cache.get(&cube), 9);
}
