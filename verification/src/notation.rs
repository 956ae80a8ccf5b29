//! Standard notation of moves: the text of a face, an amount, a face turn, a wide move.

use vstd::prelude::*;

use crate::moves::non_redundant::NonRedundantAxisMove;
use crate::moves::wide::WideAxisMove;
use crate::moves::{Amount, AxisMove};
use crate::parser::{amount_spec, axis_move_spec, face_letter, wide_parts};
use crate::space::Face;

verus! {

/// The text of an amount: nothing, `2` or `'`.
pub open spec fn amount_text(a: Amount) -> Seq<char> {
    match a {
        Amount::Single => seq![],
        Amount::Double => seq!['2'],
        Amount::Inverse => seq!['\''],
    }
}

/// The text of a face turn: the face letter followed by the amount.
pub open spec fn axis_move_text(m: AxisMove) -> Seq<char> {
    seq![m.face.letter()] + amount_text(m.amount)
}

/// The decimal digit of a number below 10.
pub open spec fn digit_char(d: nat) -> char {
    if d == 0 {
        '0'
    } else if d == 1 {
        '1'
    } else if d == 2 {
        '2'
    } else if d == 3 {
        '3'
    } else if d == 4 {
        '4'
    } else if d == 5 {
        '5'
    } else if d == 6 {
        '6'
    } else if d == 7 {
        '7'
    } else if d == 8 {
        '8'
    } else {
        '9'
    }
}

/// The decimal digits of a number, most significant first.
pub open spec fn decimal_text(n: nat) -> Seq<char>
    decreases n,
{
    if n < 10 {
        seq![digit_char(n)]
    } else {
        decimal_text(n / 10) + seq![digit_char(n % 10)]
    }
}

/// The text of a wide move of the given face turn and depth: the face turn for depth 0, the
/// face letter, `w` and the amount for depth 1, and the same after the depth plus one for deeper
/// moves.
pub open spec fn wide_move_text(m: AxisMove, depth: nat) -> Seq<char> {
    if depth == 0 {
        axis_move_text(m)
    } else if depth == 1 {
        seq![m.face.letter(), 'w'] + amount_text(m.amount)
    } else {
        decimal_text(depth + 1) + seq![m.face.letter(), 'w'] + amount_text(m.amount)
    }
}

fn face_str(f: &Face) -> (r: &'static str)
    ensures
        r@ == seq![f.letter()],
{
    proof {
        reveal_strlit("R");
        reveal_strlit("L");
        reveal_strlit("U");
        reveal_strlit("D");
        reveal_strlit("F");
        reveal_strlit("B");
    }
    match f.to_char() {
        'R' => "R",
        'L' => "L",
        'U' => "U",
        'D' => "D",
        'F' => "F",
        _ => "B",
    }
}

fn digit_str(d: u64) -> (r: &'static str)
    requires
        d < 10,
    ensures
        r@ == seq![digit_char(d as nat)],
{
    proof {
        reveal_strlit("0");
        reveal_strlit("1");
        reveal_strlit("2");
        reveal_strlit("3");
        reveal_strlit("4");
        reveal_strlit("5");
        reveal_strlit("6");
        reveal_strlit("7");
        reveal_strlit("8");
        reveal_strlit("9");
    }
    match d {
        0 => "0",
        1 => "1",
        2 => "2",
        3 => "3",
        4 => "4",
        5 => "5",
        6 => "6",
        7 => "7",
        8 => "8",
        _ => "9",
    }
}

fn push_decimal(s: &mut String, n: u64)
    ensures
        final(s)@ == old(s)@ + decimal_text(n as nat),
    decreases n,
{
    if n >= 10 {
        push_decimal(s, n / 10);
    }
    s.append(digit_str(n % 10));
    assert(s@ =~= old(s)@ + decimal_text(n as nat));
}

impl Amount {
    /// The text of the amount: nothing, `2` or `'`.
    pub fn notation(&self) -> (r: &'static str)
        ensures
            r@ == amount_text(*self),
    {
        proof {
            reveal_strlit("");
            reveal_strlit("2");
            reveal_strlit("'");
        }
        match self {
            Amount::Single => "",
            Amount::Double => "2",
            Amount::Inverse => "'",
        }
    }
}

impl Face {
    /// The letter of the face as text.
    pub fn notation(&self) -> (r: String)
        ensures
            r@ == seq![self.letter()],
    {
        String::from_str(face_str(self))
    }
}

impl AxisMove {
    /// The text of the move, e.g. `R`, `U2` or `F'`.
    pub fn notation(&self) -> (r: String)
        ensures
            r@ == axis_move_text(*self),
    {
        let mut s = String::from_str(face_str(&self.face));
        s.append(self.amount.notation());
        s
    }
}

impl<const N: u32> WideAxisMove<N> {
    /// The text of the move, e.g. `R`, `Rw'` or `3Fw2` (the number is the depth plus one).
    pub fn notation(&self) -> (r: String)
        ensures
            r@ == wide_move_text(self.turn(), self.layers() as nat),
    {
        let depth = self.depth();
        let face = self.face();
        let amount = self.amount();
        let mut s = String::new();
        if depth >= 2 {
            push_decimal(&mut s, depth as u64 + 1);
        }
        s.append(face_str(face));
        if depth >= 1 {
            proof {
                reveal_strlit("w");
            }
            s.append("w");
        }
        s.append(amount.notation());
        s
    }
}

impl NonRedundantAxisMove {
    /// The text of the face turns of the move, separated by a space.
    pub fn notation(&self) -> (r: String)
        ensures
            *self matches NonRedundantAxisMove::Single(m) ==> r@ == axis_move_text(m),
            *self matches NonRedundantAxisMove::Double { .. } ==> r@ == axis_move_text(self.seq()[0])
                + seq![' '] + axis_move_text(self.seq()[1]),
    {
        let moves = self.moves();
        let mut s = moves[0].notation();
        if moves.len() > 1 {
            proof {
                reveal_strlit(" ");
            }
            s.append(" ");
            let second = moves[1].notation();
            s.append(second.as_str());
        }
        s
    }
}

/// Reading the text of a face turn gives the face turn back.
pub proof fn lemma_axis_move_text_parses(m: AxisMove)
    ensures
        axis_move_spec(axis_move_text(m)) == Some(m),
{
    let t = axis_move_text(m);
    assert(t.skip(1) =~= amount_text(m.amount));
    assert(face_letter(t[0]) == Some(m.face));
    lemma_amount_text_parses(m.amount);
}

proof fn lemma_amount_text_parses(a: Amount)
    ensures
        amount_spec(amount_text(a)) == Some(a),
{
    if a == Amount::Inverse {
        assert(amount_text(a)[0] != seq!['2'][0]);
    }
}

/// Reading the text of a wide move of depth at most one gives its face, amount and depth back.
/// (A deeper move does not: its text starts with the depth plus one, which reads as that
/// depth.)
pub proof fn lemma_wide_move_text_parses(m: AxisMove, depth: nat)
    requires
        depth <= 1,
    ensures
        wide_parts(wide_move_text(m, depth)) == Some((m.face, m.amount, depth as int)),
{
    lemma_axis_move_text_parses(m);
    if depth == 1 {
        let t = wide_move_text(m, depth);
        assert(face_letter(t[0]) == Some(m.face));
        assert(t.skip(0) =~= t);
        assert(t.skip(2) =~= amount_text(m.amount));
        assert(t.skip(1) =~= seq!['w'] + amount_text(m.amount));
        lemma_amount_text_parses(m.amount);
        assert(t.skip(1)[0] == 'w');
        assert(t.skip(1)[0] != seq!['2'][0]);
        assert(t.skip(1)[0] != seq!['\''][0]);
        assert(t.take(0) =~= Seq::<char>::empty());
        assert(crate::parser::number_value(Seq::<char>::empty()) == 0);
        assert(!crate::parser::is_digit(t[0]));
        assert(crate::parser::leading_digits(t) == 0);
        assert(amount_spec(t.skip(1)) is None);
    }
}

} // verus!
