//! Parsing of standard cube notation: amounts, faces, face turns, wide moves, rotations and
//! slice moves.

use vstd::prelude::*;

use crate::moves::extended::ExtendedAxisMove;
use crate::moves::rotation::AxisRotation;
use crate::moves::wide::{WideAxisMove, WideMoveCreationError};
use crate::moves::{Amount, AxisMove};
use crate::space::{Axis, Direction, Face};

verus! {

/// The parser of NxN notation. It has no state: the notation is parsed by the `parse`
/// functions of each type.
pub struct CubeNParser;

/// An error found while parsing notation.
#[derive(Debug, Clone, Copy, PartialEq, Eq, Structural)]
pub enum ParseError {
    /// The text is not valid notation for what was being parsed
    Invalid,
    /// The text ended where more was expected
    UnexpectedEnd,
    /// The text went on where it should have ended, with this character
    ExpectedEnd(char),
    /// This character cannot stand where it is
    InvalidChar(char),
    /// A wide move is deeper than the maximum depth (given depth, maximum)
    ExceededDepth(u32, u32),
}

/// The amount written as `s`: nothing, `2` or `'`.
pub open spec fn amount_spec(s: Seq<char>) -> Option<Amount> {
    if s.len() == 0 {
        Some(Amount::Single)
    } else if s == seq!['2'] {
        Some(Amount::Double)
    } else if s == seq!['\''] {
        Some(Amount::Inverse)
    } else {
        None
    }
}

/// The face written with the upper case letter `c`.
pub open spec fn face_letter(c: char) -> Option<Face> {
    if c == 'R' {
        Some(Face::R())
    } else if c == 'L' {
        Some(Face::L())
    } else if c == 'U' {
        Some(Face::U())
    } else if c == 'D' {
        Some(Face::D())
    } else if c == 'F' {
        Some(Face::F())
    } else if c == 'B' {
        Some(Face::B())
    } else {
        None
    }
}

/// The face of a wide move written with the lower case letter `c` (`r` for `Rw` and so on).
pub open spec fn lower_face_letter(c: char) -> Option<Face> {
    if c == 'r' {
        Some(Face::R())
    } else if c == 'l' {
        Some(Face::L())
    } else if c == 'u' {
        Some(Face::U())
    } else if c == 'd' {
        Some(Face::D())
    } else if c == 'f' {
        Some(Face::F())
    } else if c == 'b' {
        Some(Face::B())
    } else {
        None
    }
}

/// The axis of a rotation written with the letter `c` (`x`, `y` or `z`).
pub open spec fn axis_letter(c: char) -> Option<Axis> {
    if c == 'x' {
        Some(Axis::X)
    } else if c == 'y' {
        Some(Axis::Y)
    } else if c == 'z' {
        Some(Axis::Z)
    } else {
        None
    }
}

/// The axis of a slice move written with the letter `c`, and whether it is wide (lower case):
/// `M`/`m` for X, `E`/`e` for Y, `S`/`s` for Z.
pub open spec fn slice_letter(c: char) -> Option<(Axis, bool)> {
    if c == 'M' {
        Some((Axis::X, false))
    } else if c == 'm' {
        Some((Axis::X, true))
    } else if c == 'E' {
        Some((Axis::Y, false))
    } else if c == 'e' {
        Some((Axis::Y, true))
    } else if c == 'S' {
        Some((Axis::Z, false))
    } else if c == 's' {
        Some((Axis::Z, true))
    } else {
        None
    }
}

/// The face turn written as `s`: a face letter followed by an amount.
pub open spec fn axis_move_spec(s: Seq<char>) -> Option<AxisMove> {
    if s.len() >= 1 && face_letter(s[0]) is Some && amount_spec(s.skip(1)) is Some {
        Some(AxisMove { face: face_letter(s[0]).unwrap(), amount: amount_spec(s.skip(1)).unwrap() })
    } else {
        None
    }
}

/// Whether `c` is an ASCII digit.
pub open spec fn is_digit(c: char) -> bool {
    '0' <= c && c <= '9'
}

/// The number of digits at the start of `s`.
pub open spec fn leading_digits(s: Seq<char>) -> nat
    decreases s.len(),
{
    if s.len() > 0 && is_digit(s[0]) {
        1 + leading_digits(s.skip(1))
    } else {
        0
    }
}

/// The decimal value of a sequence of digits (0 for none).
pub open spec fn number_value(d: Seq<char>) -> int
    decreases d.len(),
{
    if d.len() == 0 {
        0
    } else {
        number_value(d.drop_last()) * 10 + (d.last() as int - '0' as int)
    }
}

/// The face of a wide move written at the start of `r` (`Rw` or `r`), and how many characters
/// it takes.
pub open spec fn wide_face_spec(r: Seq<char>) -> Option<(Face, int)> {
    if r.len() >= 2 && face_letter(r[0]) is Some && r[1] == 'w' {
        Some((face_letter(r[0]).unwrap(), 2))
    } else if r.len() >= 1 && lower_face_letter(r[0]) is Some {
        Some((lower_face_letter(r[0]).unwrap(), 1))
    } else {
        None
    }
}

/// The face, amount and depth of the wide move written as `s`: either a plain face turn
/// (depth 0), or an optional number, a wide face and an amount (depth: the number, at least 1).
pub open spec fn wide_parts(s: Seq<char>) -> Option<(Face, Amount, int)> {
    match axis_move_spec(s) {
        Some(m) => Some((m.face, m.amount, 0)),
        None => {
            let k = leading_digits(s) as int;
            let r = s.skip(k);
            match wide_face_spec(r) {
                None => None,
                Some((f, c)) => match amount_spec(r.skip(c)) {
                    None => None,
                    Some(a) => Some(
                        (
                            f,
                            a,
                            if number_value(s.take(k)) >= 1 {
                                number_value(s.take(k))
                            } else {
                                1
                            },
                        ),
                    ),
                },
            }
        },
    }
}

/// The rotation written as `s`: an axis letter followed by an amount.
pub open spec fn rotation_spec(s: Seq<char>) -> Option<AxisRotation> {
    if s.len() >= 1 && axis_letter(s[0]) is Some && amount_spec(s.skip(1)) is Some {
        Some(AxisRotation { axis: axis_letter(s[0]).unwrap(), amount: amount_spec(s.skip(1)).unwrap() })
    } else {
        None
    }
}

/// The slice move written as `s`: a slice letter followed by an amount. `M` and `E` turn
/// like `L` and `D`, so their rotation is the reverse of their amount.
pub open spec fn slice_spec(s: Seq<char>) -> Option<(AxisRotation, bool)> {
    if s.len() >= 1 && slice_letter(s[0]) is Some && amount_spec(s.skip(1)) is Some {
        let (axis, wide) = slice_letter(s[0]).unwrap();
        let a = amount_spec(s.skip(1)).unwrap();
        Some(
            (
                AxisRotation {
                    axis,
                    amount: if axis != Axis::Z {
                        match a {
                            Amount::Single => Amount::Inverse,
                            Amount::Double => Amount::Double,
                            Amount::Inverse => Amount::Single,
                        }
                    } else {
                        a
                    },
                },
                wide,
            ),
        )
    } else {
        None
    }
}

/// The characters of a string.
fn chars_of(s: &str) -> (r: Vec<char>)
    ensures
        r@ == s@,
{
    let n = s.unicode_len();
    let mut r: Vec<char> = Vec::new();
    let mut i: usize = 0;
    while i < n
        invariant
            n == s@.len(),
            i <= n,
            r@ == s@.subrange(0, i as int),
        decreases n - i,
    {
        r.push(s.get_char(i));
        i = i + 1;
        assert(r@ =~= s@.subrange(0, i as int));
    }
    assert(s@.subrange(0, n as int) =~= s@);
    r
}

/// The amount written in `c[from..]`.
fn parse_amount_from(c: &Vec<char>, from: usize) -> (r: Option<Amount>)
    requires
        from <= c.len(),
    ensures
        r == amount_spec(c@.skip(from as int)),
{
    let ghost rest = c@.skip(from as int);
    if from == c.len() {
        assert(rest.len() == 0);
        assert(amount_spec(rest) == Some(Amount::Single));
        Some(Amount::Single)
    } else if from + 1 == c.len() {
        if c[from] == '2' {
            assert(rest =~= seq!['2']);
            assert(amount_spec(rest) == Some(Amount::Double));
            Some(Amount::Double)
        } else if c[from] == '\'' {
            assert(rest =~= seq!['\'']);
            assert(rest[0] != seq!['2'][0]);
            assert(rest != seq!['2']);
            assert(amount_spec(rest) == Some(Amount::Inverse));
            Some(Amount::Inverse)
        } else {
            assert(rest.len() == 1 && rest[0] == c[from as int]);
            assert(seq!['2'][0] == '2' && seq!['\''][0] == '\'');
            assert(rest != seq!['2']);
            assert(rest != seq!['\'']);
            None
        }
    } else {
        assert(rest.len() > 1);
        assert(rest != seq!['2']);
        assert(rest != seq!['\'']);
        None
    }
}

fn face_from_letter(c: char) -> (r: Option<Face>)
    ensures
        r == face_letter(c),
{
    if c == 'R' {
        Some(Face::R())
    } else if c == 'L' {
        Some(Face::L())
    } else if c == 'U' {
        Some(Face::U())
    } else if c == 'D' {
        Some(Face::D())
    } else if c == 'F' {
        Some(Face::F())
    } else if c == 'B' {
        Some(Face::B())
    } else {
        None
    }
}

fn face_from_lower_letter(c: char) -> (r: Option<Face>)
    ensures
        r == lower_face_letter(c),
{
    if c == 'r' {
        Some(Face::R())
    } else if c == 'l' {
        Some(Face::L())
    } else if c == 'u' {
        Some(Face::U())
    } else if c == 'd' {
        Some(Face::D())
    } else if c == 'f' {
        Some(Face::F())
    } else if c == 'b' {
        Some(Face::B())
    } else {
        None
    }
}

/// The face turn written as `c`.
fn axis_move_of(c: &Vec<char>) -> (r: Option<AxisMove>)
    ensures
        r == axis_move_spec(c@),
{
    if c.len() == 0 {
        return None;
    }
    match face_from_letter(c[0]) {
        None => None,
        Some(face) => match parse_amount_from(c, 1) {
            None => None,
            Some(amount) => Some(AxisMove::new(face, amount)),
        },
    }
}

/// Counting digits one more keeps the count of leading digits of the rest.
proof fn lemma_leading_digits(s: Seq<char>, i: int)
    requires
        0 <= i <= s.len(),
        forall|j: int| 0 <= j < i ==> is_digit(#[trigger] s[j]),
        i == s.len() || !is_digit(s[i]),
    ensures
        leading_digits(s) == i,
    decreases i,
{
    if i > 0 {
        lemma_leading_digits(s.skip(1), i - 1);
    } else if s.len() > 0 {
    }
}

/// A longer prefix of digits has a value at least as large.
proof fn lemma_number_value_grows(d: Seq<char>, c: char)
    requires
        is_digit(c),
    ensures
        number_value(d.push(c)) == number_value(d) * 10 + (c as int - '0' as int),
        number_value(d) >= 0 ==> number_value(d.push(c)) >= number_value(d),
{
    assert(d.push(c).drop_last() =~= d);
}

/// The value of digits is never negative.
proof fn lemma_number_value_nonneg(d: Seq<char>)
    requires
        forall|j: int| 0 <= j < d.len() ==> is_digit(#[trigger] d[j]),
    ensures
        number_value(d) >= 0,
    decreases d.len(),
{
    if d.len() > 0 {
        lemma_number_value_nonneg(d.drop_last());
    }
}

/// The face, amount and depth of the wide move written as `c`; `Err(false)` if `c` is not a
/// wide move, `Err(true)` if it is one whose depth does not fit in a `u32`.
fn wide_parts_of(c: &Vec<char>) -> (r: Result<(Face, Amount, u32), bool>)
    ensures
        wide_parts(c@) is None ==> r == Err::<(Face, Amount, u32), bool>(false),
        wide_parts(c@) matches Some(p) ==> (if p.2 > u32::MAX {
            r == Err::<(Face, Amount, u32), bool>(true)
        } else {
            r matches Ok(q) && q.0 == p.0 && q.1 == p.1 && q.2 == p.2
        }),
{
    if let Some(m) = axis_move_of(c) {
        return Ok((m.face, m.amount, 0));
    }
    let n = c.len();
    let mut k: usize = 0;
    let mut acc: u64 = 0;
    while k < n && '0' <= c[k] && c[k] <= '9'
        invariant
            k <= n,
            n == c.len(),
            forall|j: int| 0 <= j < k ==> is_digit(#[trigger] c@[j]),
            acc <= u32::MAX ==> acc == number_value(c@.take(k as int)),
            acc > u32::MAX ==> number_value(c@.take(k as int)) > u32::MAX,
            acc <= 10 * (u32::MAX as u64) + 9,
        decreases n - k,
    {
        proof {
            lemma_number_value_grows(c@.take(k as int), c@[k as int]);
            assert(c@.take(k as int).push(c@[k as int]) =~= c@.take(k + 1));
            lemma_number_value_nonneg(c@.take(k as int));
        }
        let d = (c[k] as u32 - '0' as u32) as u64;
        if acc <= 4294967295 {
            acc = acc * 10 + d;
        }
        k = k + 1;
    }
    proof {
        lemma_leading_digits(c@, k as int);
        lemma_number_value_nonneg(c@.take(k as int));
    }
    let ghost r = c@.skip(k as int);
    // the wide face
    let (face, consumed) = if n - k >= 2 && c[k + 1] == 'w' {
        match face_from_letter(c[k]) {
            Some(f) => (f, 2usize),
            None => match face_from_lower_letter(c[k]) {
                Some(f) => (f, 1usize),
                None => return Err(false),
            },
        }
    } else if n - k >= 1 {
        match face_from_lower_letter(c[k]) {
            Some(f) => (f, 1usize),
            None => return Err(false),
        }
    } else {
        return Err(false);
    };
    proof {
        assert(r.skip(consumed as int) =~= c@.skip(k + consumed));
    }
    let amount = match parse_amount_from(c, k + consumed) {
        Some(a) => a,
        None => return Err(false),
    };
    if acc > 4294967295 {
        return Err(true);
    }
    let depth: u32 = if acc >= 1 {
        acc as u32
    } else {
        1
    };
    Ok((face, amount, depth))
}

impl Amount {
    /// Parses an amount: nothing for a quarter turn, `2` for a half turn, `'` for a
    /// counterclockwise quarter turn.
    pub fn parse(s: &str) -> (r: Result<Amount, ParseError>)
        ensures
            amount_spec(s@) matches Some(a) ==> r == Ok::<Amount, ParseError>(a),
            amount_spec(s@) is None ==> r == Err::<Amount, ParseError>(ParseError::Invalid),
    {
        let c = chars_of(s);
        match parse_amount_from(&c, 0) {
            Some(a) => {
                assert(c@.skip(0) =~= c@);
                Ok(a)
            },
            None => {
                assert(c@.skip(0) =~= c@);
                Err(ParseError::Invalid)
            },
        }
    }
}

impl Face {
    /// Parses a face from its upper case letter (`R`, `L`, `U`, `D`, `F` or `B`). Errors with
    /// [`ParseError::UnexpectedEnd`] on empty text, [`ParseError::ExpectedEnd`] with the second
    /// character on longer text, and [`ParseError::InvalidChar`] with the character when it is
    /// not a face letter.
    pub fn parse(s: &str) -> (r: Result<Face, ParseError>)
        ensures
            s@.len() == 0 ==> r == Err::<Face, ParseError>(ParseError::UnexpectedEnd),
            s@.len() > 1 ==> r == Err::<Face, ParseError>(ParseError::ExpectedEnd(s@[1])),
            (s@.len() == 1 && face_letter(s@[0]) is Some) ==> r == Ok::<Face, ParseError>(
                face_letter(s@[0]).unwrap(),
            ),
            (s@.len() == 1 && face_letter(s@[0]) is None) ==> r == Err::<Face, ParseError>(
                ParseError::InvalidChar(s@[0]),
            ),
    {
        let c = chars_of(s);
        if c.len() == 0 {
            return Err(ParseError::UnexpectedEnd);
        }
        if c.len() > 1 {
            return Err(ParseError::ExpectedEnd(c[1]));
        }
        match face_from_letter(c[0]) {
            Some(f) => Ok(f),
            None => Err(ParseError::InvalidChar(c[0])),
        }
    }
}

/// The error of parsing `s` as a face turn, when it is not one: an empty text ends too early,
/// a text of more than two characters should end at its third, and otherwise the face letter or
/// the amount character is not valid.
pub open spec fn axis_move_error(s: Seq<char>) -> ParseError {
    if s.len() == 0 {
        ParseError::UnexpectedEnd
    } else if s.len() > 2 {
        ParseError::ExpectedEnd(s[2])
    } else if face_letter(s[0]) is None {
        ParseError::InvalidChar(s[0])
    } else {
        ParseError::InvalidChar(s[1])
    }
}

impl AxisMove {
    /// Parses a face turn: a face letter followed by an amount (e.g. `R`, `U2`, `F'`). See
    /// [`axis_move_error`] for the error when the text is not a face turn.
    pub fn parse(s: &str) -> (r: Result<AxisMove, ParseError>)
        ensures
            axis_move_spec(s@) matches Some(m) ==> r == Ok::<AxisMove, ParseError>(m),
            axis_move_spec(s@) is None ==> r == Err::<AxisMove, ParseError>(axis_move_error(s@)),
    {
        let c = chars_of(s);
        match axis_move_of(&c) {
            Some(m) => Ok(m),
            None => {
                if c.len() == 0 {
                    Err(ParseError::UnexpectedEnd)
                } else if c.len() > 2 {
                    Err(ParseError::ExpectedEnd(c[2]))
                } else if face_from_letter(c[0]).is_none() {
                    Err(ParseError::InvalidChar(c[0]))
                } else {
                    proof {
                        if c.len() == 1 {
                            assert(c@.skip(1) =~= Seq::<char>::empty());
                        }
                    }
                    Err(ParseError::InvalidChar(c[1]))
                }
            },
        }
    }
}

impl AxisRotation {
    /// Parses a rotation: an axis letter followed by an amount (e.g. `x`, `y2`, `z'`).
    pub fn parse(s: &str) -> (r: Result<AxisRotation, ParseError>)
        ensures
            rotation_spec(s@) matches Some(m) ==> r == Ok::<AxisRotation, ParseError>(m),
            rotation_spec(s@) is None ==> r == Err::<AxisRotation, ParseError>(ParseError::Invalid),
    {
        let c = chars_of(s);
        if c.len() == 0 {
            return Err(ParseError::Invalid);
        }
        let axis = if c[0] == 'x' {
            Axis::X
        } else if c[0] == 'y' {
            Axis::Y
        } else if c[0] == 'z' {
            Axis::Z
        } else {
            return Err(ParseError::Invalid);
        };
        match parse_amount_from(&c, 1) {
            Some(amount) => Ok(AxisRotation::new(axis, amount)),
            None => Err(ParseError::Invalid),
        }
    }
}

/// Parses a slice move: its rotation and whether it is wide.
pub fn parse_slice_move(s: &str) -> (r: Result<(AxisRotation, bool), ParseError>)
    ensures
        slice_spec(s@) matches Some(m) ==> r == Ok::<(AxisRotation, bool), ParseError>(m),
        slice_spec(s@) is None ==> r == Err::<(AxisRotation, bool), ParseError>(ParseError::Invalid),
{
    let c = chars_of(s);
    if c.len() == 0 {
        return Err(ParseError::Invalid);
    }
    let (axis, wide) = if c[0] == 'M' {
        (Axis::X, false)
    } else if c[0] == 'm' {
        (Axis::X, true)
    } else if c[0] == 'E' {
        (Axis::Y, false)
    } else if c[0] == 'e' {
        (Axis::Y, true)
    } else if c[0] == 'S' {
        (Axis::Z, false)
    } else if c[0] == 's' {
        (Axis::Z, true)
    } else {
        return Err(ParseError::Invalid);
    };
    let mut amount = match parse_amount_from(&c, 1) {
        Some(a) => a,
        None => return Err(ParseError::Invalid),
    };
    if axis != Axis::Z {
        amount = amount.mul(Direction::Negative);
    }
    Ok((AxisRotation::new(axis, amount), wide))
}

impl<const N: u32> WideAxisMove<N> {
    /// Parses a wide move of depth at most `N`: a face turn (depth 0), or an optional depth,
    /// a wide face (`Rw` or `r`) and an amount (e.g. `Rw`, `2r'`, `3Fw2`). A missing depth
    /// means 1.
    pub fn parse(s: &str) -> (r: Result<WideAxisMove<N>, ParseError>)
        ensures
            wide_parts(s@) is None ==> r == Err::<WideAxisMove<N>, ParseError>(ParseError::Invalid),
            wide_parts(s@) matches Some(p) ==> (if p.2 > u32::MAX {
                r == Err::<WideAxisMove<N>, ParseError>(ParseError::Invalid)
            } else if p.2 > N {
                r == Err::<WideAxisMove<N>, ParseError>(ParseError::ExceededDepth(p.2 as u32, N))
            } else {
                r matches Ok(m) && m.layers() == p.2 && m.turn() == (AxisMove { face: p.0, amount: p.1 })
            }),
    {
        let c = chars_of(s);
        let (face, amount, depth) = match wide_parts_of(&c) {
            Ok(p) => p,
            Err(_) => return Err(ParseError::Invalid),
        };
        if depth > N {
            return Err(ParseError::ExceededDepth(depth, N));
        }
        match WideAxisMove::<N>::new(face, amount, depth) {
            Ok(m) => Ok(m),
            Err(_) => Err(ParseError::ExceededDepth(depth, N)),
        }
    }
}

impl ExtendedAxisMove {
    /// Parses any move: a face turn, a wide move, a rotation or a slice move. A wide move of
    /// depth 0 is a regular face turn.
    pub fn parse(s: &str) -> (r: Result<ExtendedAxisMove, ParseError>)
        ensures
            axis_move_spec(s@) matches Some(m) ==> r == Ok::<ExtendedAxisMove, ParseError>(
                ExtendedAxisMove::Regular(m),
            ),
            (axis_move_spec(s@) is None && wide_parts(s@) is Some) ==> (if wide_parts(s@).unwrap().2 > u32::MAX {
                r == Err::<ExtendedAxisMove, ParseError>(ParseError::Invalid)
            } else {
                r matches Ok(ExtendedAxisMove::Wide(w)) && w.layers() == wide_parts(s@).unwrap().2
                    && w.turn() == (AxisMove { face: wide_parts(s@).unwrap().0, amount: wide_parts(s@).unwrap().1 })
            }),
            rotation_spec(s@) matches Some(rot) ==> r == Ok::<ExtendedAxisMove, ParseError>(
                ExtendedAxisMove::Rotation(rot),
            ),
            slice_spec(s@) matches Some(sl) ==> r == Ok::<ExtendedAxisMove, ParseError>(
                ExtendedAxisMove::Slice { rot: sl.0, wide: sl.1 },
            ),
            (wide_parts(s@) is None && rotation_spec(s@) is None && slice_spec(s@) is None) ==> r
                == Err::<ExtendedAxisMove, ParseError>(ParseError::Invalid),
    {
        let c = chars_of(s);
        if let Some(m) = axis_move_of(&c) {
            return Ok(ExtendedAxisMove::Regular(m));
        }
        match wide_parts_of(&c) {
            Ok((face, amount, depth)) => {
                match WideAxisMove::<4294967295>::new(face, amount, depth) {
                    Ok(w) => return Ok(ExtendedAxisMove::Wide(w)),
                    Err(_) => return Err(ParseError::Invalid),
                }
            },
            Err(overflow) => {
                if overflow {
                    return Err(ParseError::Invalid);
                }
            },
        }
        match AxisRotation::parse(s) {
            Ok(rot) => return Ok(ExtendedAxisMove::Rotation(rot)),
            Err(_) => {},
        }
        match parse_slice_move(s) {
            Ok((rot, wide)) => Ok(ExtendedAxisMove::Slice { rot, wide }),
            Err(e) => Err(e),
        }
    }
}

/// The rotation a face turn makes seen from the positive side of its axis: clockwise quarter
/// turns (modulo 4) of its amount, reversed for a face on the negative side.
pub open spec fn turns_around_axis(m: AxisMove) -> int {
    (m.amount.turns() * m.face.direction.sign()) % 4
}

/// The slice move of letter `sl` followed by the amount text `a` turns like the face turn of
/// letter `f` with the same amount: it reads exactly when the face turn does, and then its
/// rotation is around the axis of that face, by the quarter turns the face turn makes seen from
/// the positive side of the axis, and it is wide exactly when `wide` holds.
pub open spec fn slice_follows(sl: char, f: char, wide: bool, a: Seq<char>) -> bool {
    &&& (slice_spec(seq![sl] + a) is Some <==> axis_move_spec(seq![f] + a) is Some)
    &&& (axis_move_spec(seq![f] + a) matches Some(m) ==> {
        &&& slice_spec(seq![sl] + a).unwrap().0.axis == m.face.axis
        &&& slice_spec(seq![sl] + a).unwrap().0.amount.turns() == turns_around_axis(m)
        &&& slice_spec(seq![sl] + a).unwrap().1 == wide
    })
}

/// A slice move turns like the face it follows: `M` like `L`, `E` like `D` and `S` like `F`
/// (in upper case the slice alone, in lower case the wide slice), whatever amount text follows
/// the letter.
pub proof fn lemma_slice_follows_face(a: Seq<char>)
    ensures
        slice_follows('M', 'L', false, a),
        slice_follows('E', 'D', false, a),
        slice_follows('S', 'F', false, a),
        slice_follows('m', 'L', true, a),
        slice_follows('e', 'D', true, a),
        slice_follows('s', 'F', true, a),
{
    assert forall|c: char| #[trigger] (seq![c] + a).skip(1) == a && (seq![c] + a)[0] == c by {
        assert((seq![c] + a).skip(1) =~= a);
    }
}

} // verus!
