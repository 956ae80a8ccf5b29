use barbarosa::moves::extended::ExtendedAxisMove;
use barbarosa::moves::rotation::AxisRotation;
use barbarosa::moves::wide::WideAxisMove;
use barbarosa::moves::{Amount, AxisMove};
use barbarosa::parser::{parse_slice_move, ParseError};
use barbarosa::space::{Axis, Face};

#[test]
fn amount() {
    assert_eq!(Amount::Single, Amount::parse("").unwrap());
    assert_eq!(Amount::Double, Amount::parse("2").unwrap());
    assert_eq!(Amount::Inverse, Amount::parse("'").unwrap());

    assert!(Amount::parse("3").is_err());
    assert!(Amount::parse(" ").is_err());
    assert!(Amount::parse("2 ").is_err());
    assert!(Amount::parse(" 2").is_err());
}

#[test]
fn face() {
    assert_eq!(Face::U(), Face::parse("U").unwrap());
    assert_eq!(Face::D(), Face::parse("D").unwrap());
    assert_eq!(Face::L(), Face::parse("L").unwrap());
    assert_eq!(Face::R(), Face::parse("R").unwrap());
    assert_eq!(Face::F(), Face::parse("F").unwrap());
    assert_eq!(Face::B(), Face::parse("B").unwrap());

    assert!(Face::parse("A").is_err());
    assert!(Face::parse("u").is_err());
    assert!(Face::parse(" ").is_err());
    assert!(Face::parse("U caca").is_err());
    assert!(Face::parse(" U").is_err());
}

#[test]
fn moves() {
    let assert_move = |s: &str, face: Face, amount: Amount| {
        assert_eq!(AxisMove::new(face, amount), AxisMove::parse(s).unwrap())
    };

    assert_move("R", Face::R(), Amount::Single);
    assert_move("R2", Face::R(), Amount::Double);
    assert_move("R'", Face::R(), Amount::Inverse);
    assert_move("B'", Face::B(), Amount::Inverse);

    assert!(AxisMove::parse("R3").is_err());
    assert!(AxisMove::parse("R2'").is_err());
}

#[test]
fn wide_moves() {
    let assert_move = |s: &str, face: Face, amount: Amount, depth: u32| {
        assert_eq!(
            WideAxisMove::<2>::new(face, amount, depth).unwrap(),
            WideAxisMove::<2>::parse(s).unwrap()
        )
    };

    assert_move("R", Face::R(), Amount::Single, 0);
    assert_move("Rw", Face::R(), Amount::Single, 1);
    assert_move("Rw2", Face::R(), Amount::Double, 1);
    assert_move("Rw'", Face::R(), Amount::Inverse, 1);

    assert_move("r'", Face::R(), Amount::Inverse, 1);

    assert_move("2r'", Face::R(), Amount::Inverse, 2);
    assert_move("2Rw'", Face::R(), Amount::Inverse, 2);

    assert!(WideAxisMove::<2>::parse("Rw3").is_err());
    assert!(WideAxisMove::<2>::parse("rw").is_err());
}

#[test]
fn extended_moves() {
    let regular = |s: &str| {
        assert_eq!(
            ExtendedAxisMove::parse(s).unwrap(),
            ExtendedAxisMove::from_axis_move(AxisMove::parse(s).unwrap())
        )
    };
    let rotation = |s: &str| {
        assert_eq!(
            ExtendedAxisMove::parse(s).unwrap(),
            ExtendedAxisMove::from_rotation(AxisRotation::parse(s).unwrap())
        )
    };

    regular("R");
    regular("R2");
    assert_eq!(
        ExtendedAxisMove::parse("Rw").unwrap(),
        ExtendedAxisMove::from_wide(WideAxisMove::<2>::parse("Rw").unwrap())
    );

    rotation("x");
    rotation("x2");
    rotation("z'");
    rotation("y");

    assert_eq!(
        ExtendedAxisMove::parse("E").unwrap(),
        ExtendedAxisMove::from_slice(parse_slice_move("E").unwrap())
    );
}

#[test]
fn slice_moves_parse_as_their_own_slice() {
    for s in ["E", "E2", "e'", "S", "M'", "m2", "s"] {
        assert_eq!(
            ExtendedAxisMove::parse(s).unwrap(),
            ExtendedAxisMove::from_slice(parse_slice_move(s).unwrap())
        );
    }
    assert_eq!(
        parse_slice_move("M").unwrap(),
        (AxisRotation::new(Axis::X, Amount::Inverse), false)
    );
    assert_eq!(
        parse_slice_move("S").unwrap(),
        (AxisRotation::new(Axis::Z, Amount::Single), false)
    );
    assert_eq!(
        parse_slice_move("e2").unwrap(),
        (AxisRotation::new(Axis::Y, Amount::Double), true)
    );
    assert_eq!(parse_slice_move("Q"), Err(ParseError::Invalid));
}

#[test]
fn rotations_parse() {
    assert_eq!(
        AxisRotation::parse("x").unwrap(),
        AxisRotation::new(Axis::X, Amount::Single)
    );
    assert_eq!(
        AxisRotation::parse("y'").unwrap(),
        AxisRotation::new(Axis::Y, Amount::Inverse)
    );
    assert_eq!(AxisRotation::parse("w"), Err(ParseError::Invalid));
}

#[test]
fn wide_move_too_deep() {
    assert_eq!(
        WideAxisMove::<2>::parse("3Rw"),
        Err(ParseError::ExceededDepth(3, 2))
    );
    assert_eq!(WideAxisMove::<2>::parse("Q"), Err(ParseError::Invalid));
    let m = WideAxisMove::<3>::parse("3Fw2").unwrap();
    assert_eq!(m.depth(), 3);
    assert_eq!(*m.face(), Face::F());
    assert_eq!(m.amount(), Amount::Double);
}

#[test]
fn invalid_moves_are_errors() {
    assert_eq!(AxisMove::parse(""), Err(ParseError::UnexpectedEnd));
    assert_eq!(ExtendedAxisMove::parse("Q2"), Err(ParseError::Invalid));
    assert_eq!(Amount::parse("22"), Err(ParseError::Invalid));
}

#[test]
fn face_turn_parse_errors() {
    assert_eq!(AxisMove::parse(""), Err(ParseError::UnexpectedEnd));
    assert_eq!(AxisMove::parse("R2'"), Err(ParseError::ExpectedEnd('\'')));
    assert_eq!(AxisMove::parse("X2"), Err(ParseError::InvalidChar('X')));
    assert_eq!(AxisMove::parse("R3"), Err(ParseError::InvalidChar('3')));
    assert_eq!(Face::parse(""), Err(ParseError::UnexpectedEnd));
    assert_eq!(Face::parse("U caca"), Err(ParseError::ExpectedEnd(' ')));
    assert_eq!(Face::parse("u"), Err(ParseError::InvalidChar('u')));
}
