use barbarosa::cube3::Cube3;
use barbarosa::moves::AxisMove;
use barbarosa::pieces::edge::Edge;
use barbarosa::space::{Axis, Direction, Vec2};

#[test]
fn test_f() {
    let mut cube = Cube3::new_solved();

    let target = Edge::oriented(Axis::Y, Vec2::new(Direction::Positive, Direction::Positive));
    let target_index = cube
        .edges
        .iter()
        .position(|current| current == &target)
        .unwrap();

    cube.apply(&AxisMove::parse("F").unwrap());

    let rotated = &cube.edges[target_index];

    assert_eq!(rotated.normal_axis, Axis::X);
    assert_eq!(
        rotated.slice_position,
        Vec2::new(Direction::Negative, Direction::Positive)
    );
}
