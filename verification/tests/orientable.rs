use barbarosa::cube3::Cube3;
use barbarosa::cube4::Cube4;
use barbarosa::moves::extended::ExtendedAxisMove;
use barbarosa::moves::wide::WideAxisMove;
use barbarosa::moves::rotation::{AxisRotation, Rotatable};
use barbarosa::moves::{Amount, AxisMove};
use barbarosa::orientable::orientation::{
    connecting_rotation, connecting_rotation_with_face, Orientation,
};
use barbarosa::orientable::Orientable;
use barbarosa::space::{Axis, Face};

#[test]
fn test_all_connects() {
    for from in Face::iter() {
        for to in Face::iter() {
            let rotation = connecting_rotation(&from, &to);

            if from == to {
                assert!(rotation.is_none());
            } else {
                assert_eq!(from.clone().rotated(&rotation.unwrap()), to);
            }
        }
    }
}

#[test]
fn default_orientation() {
    let orientation = Orientation::default();

    assert_eq!(orientation.r_face(), &Face::R());
    assert_eq!(orientation.u_face(), Face::U());
}

#[test]
fn rotates_orientation() {
    let mut orientation = Orientation::default();

    orientation.rotate(&AxisRotation::new(Axis::X, Amount::Double));

    assert_eq!(orientation.r_face(), &Face::R());
    assert_eq!(orientation.u_face(), Face::D());

    orientation.rotate(&AxisRotation::new(Axis::Y, Amount::Inverse));

    assert_eq!(orientation.r_face(), &Face::B());
    assert_eq!(orientation.u_face(), Face::D());
}

#[test]
fn moves_rotated_simple() {
    let mut cube = Orientable::new(Cube3::solved());

    cube.orientation
        .rotate(&AxisRotation::new(Axis::X, Amount::Double));

    cube.apply(&AxisMove::new(Face::U(), Amount::Single));

    let expected = Cube3::solved().moved(&AxisMove::new(Face::D(), Amount::Single));

    assert_eq!(cube.base_cube, expected)
}

#[test]
fn moves_rotated() {
    let mut cube = Orientable::new(Cube3::solved());

    cube.orientation
        .rotate(&AxisRotation::new(Axis::X, Amount::Double));
    cube.orientation
        .rotate(&AxisRotation::new(Axis::Y, Amount::Inverse));

    for s in ["R", "U", "R'", "U'"] {
        cube.apply(&AxisMove::parse(s).unwrap());
    }

    let mut expected = Cube3::solved();
    for s in ["B", "D", "B'", "D'"] {
        expected.apply(&AxisMove::parse(s).unwrap());
    }

    assert_eq!(cube.base_cube, expected)
}

#[test]
fn orientation_from_faces() {
    let orientation = Orientation::try_from_faces([Face::F(), Face::D()]).unwrap();
    assert_eq!(orientation.r_face(), &Face::F());
    assert_eq!(orientation.u_face(), Face::D());
    assert!(Orientation::try_from_faces([Face::U(), Face::D()]).is_err());
}

#[test]
fn connecting_rotation_to_opposite_is_half_turn() {
    let r = connecting_rotation(&Face::U(), &Face::D()).unwrap();
    assert_eq!(r.amount, Amount::Double);
    let r = connecting_rotation(&Face::R(), &Face::U()).unwrap();
    assert_eq!(Face::R().rotated(&r), Face::U());
    assert_eq!(r.axis, Axis::Z);
}

#[test]
fn rotations_reach_every_orientation() {
    let mut count = 0;
    for r in Face::iter() {
        for u in Face::iter() {
            if r.axis == u.axis {
                continue;
            }
            let target = Orientation::try_from_faces([r, u]).unwrap();
            let mut o = Orientation::default();
            let rotations = target.rotations();
            assert!(rotations.len() <= 2);
            for rot in &rotations {
                o.rotate(rot);
            }
            assert_eq!(o, target);
            count += 1;
        }
    }
    assert_eq!(count, 24);
    let upside_down = Orientation::try_from_faces([Face::R(), Face::D()]).unwrap();
    assert_eq!(
        upside_down.rotations(),
        vec![AxisRotation::new(Axis::X, Amount::Double)]
    );
}

#[test]
fn connecting_around_a_face() {
    assert_eq!(
        connecting_rotation_with_face(&Face::U(), &Face::R(), &Face::F()),
        Some(AxisRotation::new(Axis::Z, Amount::Single))
    );
    assert_eq!(
        connecting_rotation_with_face(&Face::U(), &Face::L(), &Face::F()),
        Some(AxisRotation::new(Axis::Z, Amount::Inverse))
    );
    assert_eq!(
        connecting_rotation_with_face(&Face::U(), &Face::D(), &Face::F()),
        Some(AxisRotation::new(Axis::Z, Amount::Double))
    );
    assert_eq!(connecting_rotation_with_face(&Face::U(), &Face::U(), &Face::F()), None);
}

#[test]
fn oriented_front_is_original_back_after_x2() {
    let mut cube = Orientable::new(Cube3::solved());
    cube.orientation
        .rotate(&AxisRotation::new(Axis::X, Amount::Double));
    cube.apply(&AxisMove::new(Face::F(), Amount::Single));
    let expected = Cube3::solved().moved(&AxisMove::new(Face::B(), Amount::Single));
    assert_eq!(cube.base_cube, expected);
}

fn wide(face: Face, amount: Amount, depth: u32) -> ExtendedAxisMove {
    ExtendedAxisMove::from_wide(WideAxisMove::<7>::new(face, amount, depth).unwrap())
}

#[test]
fn extended_regular_and_rotation() {
    let r = AxisMove::new(Face::R(), Amount::Single);
    let mut cube = Orientable::new(Cube3::solved());
    cube.apply_extended(&ExtendedAxisMove::from_axis_move(r));
    assert_eq!(cube.base_cube, Cube3::solved().moved(&r));

    let x = AxisRotation::new(Axis::X, Amount::Single);
    let mut rotated = Orientable::new(Cube3::solved());
    rotated.apply_extended(&ExtendedAxisMove::from_rotation(x));
    assert_eq!(rotated.base_cube, Cube3::solved());
    assert_eq!(*rotated.orientation.r_face(), Face::R());
    assert_ne!(rotated.orientation.u_face(), Face::U());
}

#[test]
fn extended_wide_moves_on_a_4x4() {
    // A shallow wide move turns the base cube.
    let mut cube = Orientable::new(Cube4::solved());
    cube.apply_extended(&wide(Face::R(), Amount::Single, 1));
    let mut expected = Cube4::solved();
    expected.apply(&WideAxisMove::<1>::new(Face::R(), Amount::Single, 1).unwrap());
    assert_eq!(cube.base_cube, expected);
    assert_eq!(*cube.orientation.r_face(), Face::R());
    assert_eq!(cube.orientation.u_face(), Face::U());

    // A move deeper than the cube only rotates it.
    let mut deep = Orientable::new(Cube4::solved());
    deep.apply_extended(&wide(Face::R(), Amount::Single, 5));
    assert_eq!(deep.base_cube, Cube4::solved());
    assert_ne!(deep.orientation.u_face(), Face::U());

    // A move reaching past the middle rotates and turns the opposite face.
    let mut far = Orientable::new(Cube4::solved());
    far.apply_extended(&wide(Face::R(), Amount::Single, 3));
    let mut expected = Cube4::solved();
    expected.apply(&WideAxisMove::<1>::new(Face::L(), Amount::Single, 1).unwrap());
    assert_eq!(far.base_cube, expected);
    assert_ne!(far.orientation.u_face(), Face::U());
}
