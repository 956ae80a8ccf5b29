//! Colors of the stickers of the pieces, for drawing cubes.

use vstd::prelude::*;

use crate::pieces::corner::Corner;
use crate::pieces::edge::{Edge, EdgePosition};
use crate::moves::rotation::{AxisRotation, Rotatable};
use crate::moves::AxisMove;
use crate::space::{Axis, Face, Vec3};

verus! {

/// An `NxN` sticker color. Newtype around face, since faces and colors biject. Mostly for
/// clarity in type signatures.
#[derive(Debug, Clone, Copy, PartialEq, Eq, Structural)]
pub struct Color {
    /// The face that the color belongs to
    pub face: Face,
}

impl Color {
    /// Creates a new color based on its face
    pub fn new(face: Face) -> (r: Color)
        ensures
            r == (Color { face }),
    {
        Color { face }
    }
}

/// Pieces where you can extract color information.
pub trait Colored {
    /// What tells the original position of a piece.
    type Position;

    /// The faces the piece's stickers are on, with their colors.
    spec fn sticker_colors(&self, original_pos: Self::Position) -> Seq<(Face, Color)>;

    /// Returns a vec that maps faces to colors.
    fn colors(&self, original_pos: Self::Position) -> (r: Vec<(Face, Color)>)
        ensures
            r@ == self.sticker_colors(original_pos),
    ;
}

/// The face that a corner at `position` has on `axis`.
pub open spec fn corner_face(position: Vec3, axis: Axis) -> Face {
    Face { axis, direction: position.at(axis) }
}

impl Colored for Corner {
    type Position = Vec3;

    /// Going around the corner from its orientation axis, and around the original position from
    /// the X axis, the i-th face of the piece has the color of the i-th face of the original
    /// position.
    open spec fn sticker_colors(&self, original_pos: Vec3) -> Seq<(Face, Color)> {
        let a0 = self.orientation_axis;
        let a1 = Corner::twist_axis(self.position, a0);
        let a2 = Corner::twist_axis(self.position, a1);
        let b0 = Axis::X;
        let b1 = Corner::twist_axis(original_pos, b0);
        let b2 = Corner::twist_axis(original_pos, b1);
        seq![
            (corner_face(self.position, a0), Color { face: corner_face(original_pos, b0) }),
            (corner_face(self.position, a1), Color { face: corner_face(original_pos, b1) }),
            (corner_face(self.position, a2), Color { face: corner_face(original_pos, b2) }),
        ]
    }

    fn colors(&self, original_pos: Vec3) -> (r: Vec<(Face, Color)>) {
        let mut current_axis = self.orientation_axis;
        let mut original_axis = Axis::X;
        let mut output: Vec<(Face, Color)> = Vec::new();
        let mut i: usize = 0;
        while i < 3
            invariant
                i <= 3,
                output@ == self.sticker_colors(original_pos).take(i as int),
                i == 0 ==> current_axis == self.orientation_axis && original_axis == Axis::X,
                i == 1 ==> current_axis == Corner::twist_axis(self.position, self.orientation_axis)
                    && original_axis == Corner::twist_axis(original_pos, Axis::X),
                i == 2 ==> current_axis == Corner::twist_axis(
                    self.position,
                    Corner::twist_axis(self.position, self.orientation_axis),
                ) && original_axis == Corner::twist_axis(
                    original_pos,
                    Corner::twist_axis(original_pos, Axis::X),
                ),
            decreases 3 - i,
        {
            let current_face = Face::new(current_axis, self.position.get(current_axis));
            let original_face = Face::new(original_axis, original_pos.get(original_axis));
            output.push((current_face, Color::new(original_face)));
            proof {
                assert(output@ =~= self.sticker_colors(original_pos).take(i + 1));
            }
            current_axis = Corner::next_axis(&self.position, &current_axis);
            original_axis = Corner::next_axis(&original_pos, &original_axis);
            i = i + 1;
        }
        assert(output@ =~= self.sticker_colors(original_pos));
        output
    }
}

impl Colored for Edge {
    type Position = EdgePosition;

    /// The orientation sticker of the piece has the color of the orientation face of the
    /// original position; it is on the orientation face of the current position if the edge is
    /// oriented, on the other face if not.
    open spec fn sticker_colors(&self, original_pos: EdgePosition) -> Seq<(Face, Color)> {
        let f1 = Edge::orientation_face_at(self.pos());
        let f2 = Edge::non_orientation_face_at(self.pos());
        let (c1, c2) = if self.oriented {
            (f1, f2)
        } else {
            (f2, f1)
        };
        seq![
            (c1, Color { face: Edge::orientation_face_at(original_pos) }),
            (c2, Color { face: Edge::non_orientation_face_at(original_pos) }),
        ]
    }

    fn colors(&self, original_pos: EdgePosition) -> (r: Vec<(Face, Color)>) {
        let orig_f1 = Edge::orientation_face(original_pos);
        let orig_f2 = Edge::non_orientation_face(original_pos);
        let mut cur_f1 = Edge::orientation_face(self.position());
        let mut cur_f2 = Edge::non_orientation_face(self.position());
        if !self.oriented {
            let t = cur_f1;
            cur_f1 = cur_f2;
            cur_f2 = t;
        }
        let mut output: Vec<(Face, Color)> = Vec::new();
        output.push((cur_f1, Color::new(orig_f1)));
        output.push((cur_f2, Color::new(orig_f2)));
        assert(output@ =~= self.sticker_colors(original_pos));
        output
    }
}

/// The face of a corner on an axis follows a rotation of the corner.
proof fn lemma_corner_face_rotated(position: Vec3, axis: Axis, r: AxisRotation)
    ensures
        corner_face(position.rotated_by(r), axis.rotated_by(r)) == corner_face(position, axis).rotated_by(
            r,
        ),
{
}

/// Twisting a corner commutes with rotating it: rotations keep the handedness of the corner's
/// faces.
proof fn lemma_twist_rotated(position: Vec3, axis: Axis, r: AxisRotation)
    ensures
        Corner::twist_axis(position.rotated_by(r), axis.rotated_by(r)) == Corner::twist_axis(
            position,
            axis,
        ).rotated_by(r),
{
}

/// The stickers of a corner follow it when it rotates: each sticker keeps its color and is on
/// the rotated face.
pub proof fn lemma_corner_colors_rotate(c: Corner, original_pos: Vec3, r: AxisRotation)
    ensures
        forall|i: int|
            0 <= i < 3 ==> (#[trigger] c.rotated_by(r).sticker_colors(original_pos)[i]) == (
                c.sticker_colors(original_pos)[i].0.rotated_by(r),
                c.sticker_colors(original_pos)[i].1,
            ),
{
    let a0 = c.orientation_axis;
    let a1 = Corner::twist_axis(c.position, a0);
    lemma_corner_face_rotated(c.position, a0, r);
    lemma_twist_rotated(c.position, a0, r);
    lemma_corner_face_rotated(c.position, a1, r);
    lemma_twist_rotated(c.position, a1, r);
    lemma_corner_face_rotated(c.position, Corner::twist_axis(c.position, a1), r);
}

/// The stickers of a corner follow it when a face turn moves it: a corner that the move turns
/// keeps the color of each sticker, on the face rotated like the move; any other corner keeps its
/// stickers.
pub proof fn lemma_corner_colors_follow_move(c: Corner, original_pos: Vec3, m: AxisMove)
    ensures
        c.position.at(m.face.axis) == m.face.direction ==> forall|i: int|
            0 <= i < 3 ==> (#[trigger] c.moved_by(m).sticker_colors(original_pos)[i]) == (
                c.sticker_colors(original_pos)[i].0.rotated_by(AxisRotation::of_move(m)),
                c.sticker_colors(original_pos)[i].1,
            ),
        c.position.at(m.face.axis) != m.face.direction ==> c.moved_by(m).sticker_colors(original_pos)
            == c.sticker_colors(original_pos),
{
    lemma_corner_colors_rotate(c, original_pos, AxisRotation::of_move(m));
}

/// A solved piece shows each face's own color on it.
pub proof fn lemma_solved_colors(c: Corner, e: Edge)
    requires
        c.orientation_axis == Axis::X,
        e.oriented,
    ensures
        forall|i: int|
            0 <= i < 3 ==> (#[trigger] c.sticker_colors(c.position)[i]).1.face == c.sticker_colors(
                c.position,
            )[i].0,
        forall|i: int|
            0 <= i < 2 ==> (#[trigger] e.sticker_colors(e.pos())[i]).1.face == e.sticker_colors(
                e.pos(),
            )[i].0,
{
}

/// `n` blank cells of a drawing.
pub open spec fn blanks(n: nat) -> Seq<Option<Color>> {
    Seq::new(n, |_i: int| None)
}

/// A row of stickers as cells of a drawing.
pub open spec fn cells<const N: usize>(row: [Color; N]) -> Seq<Option<Color>> {
    row@.map_values(|c: Color| Some(c))
}

/// The rows of a face drawn on its own, after `N + 1` blank cells (the width of the face on
/// its left and a blank cell between them).
pub open spec fn indented_face<const N: usize>(face: [[Color; N]; N]) -> Seq<Seq<Option<Color>>> {
    Seq::new(N as nat, |i: int| blanks((N + 1) as nat) + cells(face[i]))
}

/// The rows where three faces lie next to each other, with a blank cell between them.
pub open spec fn side_by_side<const N: usize>(
    left: [[Color; N]; N],
    middle: [[Color; N]; N],
    right: [[Color; N]; N],
) -> Seq<Seq<Option<Color>>> {
    Seq::new(
        N as nat,
        |i: int| cells(left[i]) + seq![None] + cells(middle[i]) + seq![None] + cells(right[i]),
    )
}

/// The drawing of an unfolded cube, row by row, from its faces in the order R, U, F, L, D, B
/// (see [`Face::index`]); a cell is a sticker, or `None` when it is blank, and an empty row is a
/// blank line:
///
/// ```text
///   U
/// R F L
///   D
///   B
/// ```
///
/// U, D and B are indented by the width of a face and a blank cell, so that they stand above and
/// below F; the rows of R, F and L are side by side, a blank cell apart; each face is followed
/// by a blank line. The unfolding is like that of a piece of paper, so B is reached from D by
/// folding down, not by turning the cube around.
pub open spec fn unfolded_layout<const N: usize>(faces: [[[Color; N]; N]; 6]) -> Seq<Seq<Option<Color>>> {
    indented_face(faces[1]) + seq![seq![]] + side_by_side(faces[0], faces[2], faces[3]) + seq![seq![]]
        + indented_face(faces[4]) + seq![seq![]] + indented_face(faces[5]) + seq![seq![]]
}

/// The rows of a drawing, each as a sequence of cells.
pub open spec fn rows_view(rows: Seq<Vec<Option<Color>>>) -> Seq<Seq<Option<Color>>> {
    rows.map_values(|r: Vec<Option<Color>>| r@)
}

/// Pushes the stickers of a row to `out`.
fn push_cells<const N: usize>(row: &[Color; N], out: &mut Vec<Option<Color>>)
    ensures
        final(out)@ == old(out)@ + cells(*row),
{
    let mut k: usize = 0;
    while k < N
        invariant
            k <= N,
            out@ == old(out)@ + cells(*row).take(k as int),
        decreases N - k,
    {
        out.push(Some(row[k]));
        k = k + 1;
        assert(cells(*row).take(k as int) =~= cells(*row).take(k as int - 1).push(Some(row@[k as int - 1])));
    }
    assert(cells(*row).take(N as int) =~= cells(*row));
}

/// Pushes the rows of `face`, indented, to `rows`.
fn push_indented_face<const N: usize>(face: &[[Color; N]; N], rows: &mut Vec<Vec<Option<Color>>>)
    ensures
        rows_view(final(rows)@) == rows_view(old(rows)@) + indented_face(*face),
{
    let mut i: usize = 0;
    while i < N
        invariant
            i <= N,
            rows_view(rows@) == rows_view(old(rows)@) + indented_face(*face).take(i as int),
        decreases N - i,
    {
        let mut row: Vec<Option<Color>> = Vec::new();
        let mut k: usize = 0;
        while k < N
            invariant
                k <= N,
                row@ == blanks(k as nat),
            decreases N - k,
        {
            row.push(None);
            k = k + 1;
            assert(row@ =~= blanks(k as nat));
        }
        row.push(None);
        assert(row@ =~= blanks((N + 1) as nat));
        push_cells(&face[i], &mut row);
        let ghost before = rows@;
        rows.push(row);
        proof {
            assert(rows_view(rows@) =~= rows_view(before).push(row@));
            assert(indented_face(*face).take(i as int + 1) =~= indented_face(*face).take(i as int).push(
                indented_face(*face)[i as int],
            ));
        }
        i = i + 1;
    }
    assert(indented_face(*face).take(N as int) =~= indented_face(*face));
}

/// Pushes an empty row (a blank line) to `rows`.
fn push_blank_line(rows: &mut Vec<Vec<Option<Color>>>)
    ensures
        rows_view(final(rows)@) == rows_view(old(rows)@) + seq![Seq::<Option<Color>>::empty()],
{
    let row: Vec<Option<Color>> = Vec::new();
    rows.push(row);
    assert(rows_view(rows@) =~= rows_view(old(rows)@) + seq![Seq::<Option<Color>>::empty()]);
}

/// The drawing of an unfolded cube whose faces are given in the order R, U, F, L, D, B: the
/// rows of cells of [`unfolded_layout`], `None` standing for a blank cell.
pub fn unfolded_rows<const N: usize>(faces: &[[[Color; N]; N]; 6]) -> (rows: Vec<Vec<Option<Color>>>)
    ensures
        rows_view(rows@) == unfolded_layout(*faces),
{
    let mut rows: Vec<Vec<Option<Color>>> = Vec::new();
    proof {
        assert(rows_view(rows@) =~= Seq::<Seq<Option<Color>>>::empty());
    }
    push_indented_face(&faces[1], &mut rows);
    push_blank_line(&mut rows);
    let ghost top = rows_view(rows@);
    let mut i: usize = 0;
    while i < N
        invariant
            i <= N,
            rows_view(rows@) == top + side_by_side(faces[0], faces[2], faces[3]).take(i as int),
        decreases N - i,
    {
        let mut row: Vec<Option<Color>> = Vec::new();
        push_cells(&faces[0][i], &mut row);
        row.push(None);
        push_cells(&faces[2][i], &mut row);
        row.push(None);
        push_cells(&faces[3][i], &mut row);
        let ghost before = rows@;
        rows.push(row);
        proof {
            assert(row@ =~= side_by_side(faces[0], faces[2], faces[3])[i as int]);
            assert(rows_view(rows@) =~= rows_view(before).push(row@));
            assert(side_by_side(faces[0], faces[2], faces[3]).take(i as int + 1) =~= side_by_side(
                faces[0],
                faces[2],
                faces[3],
            ).take(i as int).push(side_by_side(faces[0], faces[2], faces[3])[i as int]));
        }
        i = i + 1;
    }
    proof {
        assert(side_by_side(faces[0], faces[2], faces[3]).take(N as int) =~= side_by_side(
            faces[0],
            faces[2],
            faces[3],
        ));
    }
    push_blank_line(&mut rows);
    push_indented_face(&faces[4], &mut rows);
    push_blank_line(&mut rows);
    push_indented_face(&faces[5], &mut rows);
    push_blank_line(&mut rows);
    proof {
        assert(rows_view(rows@) =~= unfolded_layout(*faces));
    }
    rows
}

} // verus!
