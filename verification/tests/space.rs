use barbarosa::space::{Axis, Direction, Face, ParallelAxesError};

#[test]
fn text_next_around() {
    assert_eq!(Face::F().next_around(&Axis::X), Face::U());
    assert_eq!(Face::U().next_around(&Axis::X), Face::B());
    assert_eq!(Face::B().next_around(&Axis::X), Face::D());
    assert_eq!(Face::D().next_around(&Axis::X), Face::F());
}

#[test]
fn test_cross() {
    assert_eq!(Face::R().cross(&Face::U()), Some(Face::F()));
    assert_eq!(Face::U().cross(&Face::R()), Some(Face::B()));
    assert_eq!(Face::F().cross(&Face::U()), Some(Face::L()));
}

#[test]
fn cross_of_parallel_faces_is_none() {
    assert_eq!(Face::R().cross(&Face::L()), None);
    assert_eq!(Face::U().cross(&Face::U()), None);
}

#[test]
fn prev_around_undoes_next_around() {
    for face in Face::iter() {
        for axis in [Axis::X, Axis::Y, Axis::Z] {
            assert_eq!(face.next_around(&axis).prev_around(&axis), face);
        }
    }
}

#[test]
fn next_around_four_times_is_identity() {
    for face in Face::iter() {
        let mut f = face;
        for _ in 0..4 {
            f = f.next_around(&Axis::Y);
        }
        assert_eq!(f, face);
    }
}

#[test]
fn opposite_faces() {
    assert_eq!(Face::R().opposite(), Face::L());
    assert_eq!(Face::D().opposite(), Face::U());
    for face in Face::iter() {
        assert_eq!(face.opposite().opposite(), face);
    }
}

#[test]
fn face_order_and_index() {
    let faces = Face::iter();
    assert_eq!(
        faces,
        vec![Face::R(), Face::U(), Face::F(), Face::L(), Face::D(), Face::B()]
    );
    for (i, face) in faces.iter().enumerate() {
        assert_eq!(face.index(), i);
    }
    assert_eq!(Face::F().to_char(), 'F');
    assert_eq!(Face::B().to_char(), 'B');
}

#[test]
fn axis_cycle() {
    assert_eq!(Axis::X.next(), Axis::Y);
    assert_eq!(Axis::Z.next(), Axis::X);
    assert_eq!(Axis::X.prev(), Axis::Z);
    for axis in [Axis::X, Axis::Y, Axis::Z] {
        assert_eq!(axis.next().prev(), axis);
        assert_eq!(axis.next().next().next(), axis);
    }
}

#[test]
fn axis_offsets_and_handedness() {
    assert_eq!(Axis::X.offset(&Axis::Y), 1);
    assert_eq!(Axis::Y.offset(&Axis::X), 2);
    assert_eq!(Axis::X.offset(&Axis::X), 0);
    assert_eq!(Axis::X.get_handedness(&Axis::Y), Ok(Direction::Positive));
    assert_eq!(Axis::Y.get_handedness(&Axis::X), Ok(Direction::Negative));
    assert_eq!(
        Axis::Z.get_handedness(&Axis::Z),
        Err(ParallelAxesError::SameAxis(Axis::Z))
    );
    assert_eq!(Axis::X.next_with_handedness(Direction::Positive), Axis::Y);
    assert_eq!(Axis::X.next_with_handedness(Direction::Negative), Axis::Z);
    assert_eq!(Axis::other(&Axis::X, &Axis::Y), Some(Axis::Z));
    assert_eq!(Axis::other(&Axis::X, &Axis::X), None);
    assert_eq!(Axis::basis(&Axis::Y), [Axis::Z, Axis::X]);
}

#[test]
fn direction_scalar() {
    assert_eq!(Direction::Positive.scalar(), 1);
    assert_eq!(Direction::Negative.scalar(), -1);
    assert_eq!(Direction::Positive.neg(), Direction::Negative);
}
