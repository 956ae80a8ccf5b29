//! Wide moves, for 4x4x4 and up.

use vstd::prelude::*;

use crate::moves::rotation::{AxisRotation, Rotatable};
use crate::moves::{Alg, Amount, AxisMove};
use crate::pieces::PieceSetDescriptor;
use crate::space::Face;

verus! {

/// A wide move of depth at most `N`: the face turn together with the `depth` layers behind it.
///
/// Every value keeps its depth at most `N` (the type invariant [`WideAxisMove::depth_bounded`]).
#[derive(Debug, Clone, Copy, PartialEq, Eq)]
pub struct WideAxisMove<const N: u32> {
    depth: u32,
    /// The corresponding depth 0 axis move
    pub(crate) axis_move: AxisMove,
}

/// An error if the depth of a wide move is greater than the maximum.
#[derive(Debug, Clone, Copy, PartialEq, Eq, Structural)]
pub enum WideMoveCreationError {
    /// The given depth and the maximum one
    ExcededDepth(u32, u32),
}

impl<const N: u32> WideAxisMove<N> {
    /// A wide move is never deeper than `N`.
    #[verifier::type_invariant]
    pub closed spec fn depth_bounded(self) -> bool {
        self.depth <= N
    }

    /// The depth of the move.
    pub closed spec fn layers(self) -> u32 {
        self.depth
    }

    /// The face turn of the move (its depth 0 version).
    pub closed spec fn turn(self) -> AxisMove {
        self.axis_move
    }

    /// The move with the given parts (meaningful when `depth <= N`).
    pub closed spec fn make(face: Face, amount: Amount, depth: u32) -> WideAxisMove<N> {
        WideAxisMove { depth, axis_move: AxisMove { face, amount } }
    }

    /// A wide move is determined by its depth and its face turn.
    pub proof fn lemma_make(face: Face, amount: Amount, depth: u32)
        ensures
            WideAxisMove::<N>::make(face, amount, depth).layers() == depth,
            WideAxisMove::<N>::make(face, amount, depth).turn() == (AxisMove { face, amount }),
    {
    }

    /// Two wide moves with the same depth and face turn are the same move.
    pub proof fn lemma_extensional(a: WideAxisMove<N>, b: WideAxisMove<N>)
        requires
            a.layers() == b.layers(),
            a.turn() == b.turn(),
        ensures
            a == b,
    {
    }

    /// Creates a new wide move. Errors if the depth is greater than `N`.
    pub fn new(face: Face, amount: Amount, depth: u32) -> (r: Result<
        WideAxisMove<N>,
        WideMoveCreationError,
    >)
        ensures
            depth > N ==> r == Err::<WideAxisMove<N>, WideMoveCreationError>(
                WideMoveCreationError::ExcededDepth(depth, N),
            ),
            depth <= N ==> (r matches Ok(m) && m.layers() == depth && m.turn() == (AxisMove {
                face,
                amount,
            })),
    {
        if depth > N {
            return Err(WideMoveCreationError::ExcededDepth(depth, N));
        }
        Ok(WideAxisMove { depth, axis_move: AxisMove { face, amount } })
    }

    /// Face of the move
    pub fn face(&self) -> (r: &Face)
        ensures
            *r == self.turn().face,
    {
        &self.axis_move.face
    }

    /// Amount of the move
    pub fn amount(&self) -> (r: Amount)
        ensures
            r == self.turn().amount,
    {
        self.axis_move.amount
    }

    /// Depth of the move, which is never greater than `N`
    pub fn depth(&self) -> (r: u32)
        ensures
            r == self.layers(),
            r <= N,
    {
        proof {
            use_type_invariant(self);
        }
        self.depth
    }

    /// Tries to set the depth of the move in-place. Fails, leaving the move as it was, if the
    /// depth is greater than `N`.
    pub fn set_depth(&mut self, new_depth: u32) -> (r: Result<(), WideMoveCreationError>)
        ensures
            new_depth > N ==> r == Err::<(), WideMoveCreationError>(
                WideMoveCreationError::ExcededDepth(new_depth, N),
            ) && *final(self) == *old(self),
            new_depth <= N ==> r is Ok && final(self).layers() == new_depth
                && final(self).turn() == old(self).turn(),
    {
        if new_depth > N {
            return Err(WideMoveCreationError::ExcededDepth(new_depth, N));
        }
        self.depth = new_depth;
        Ok(())
    }

    /// The same move with the maximum depth set to `M`. Errors if the depth is greater than
    /// `M`.
    pub fn set_max_depth<const M: u32>(self) -> (r: Result<WideAxisMove<M>, WideMoveCreationError>)
        ensures
            self.layers() > M ==> r == Err::<WideAxisMove<M>, WideMoveCreationError>(
                WideMoveCreationError::ExcededDepth(self.layers(), M),
            ),
            self.layers() <= M ==> (r matches Ok(m) && m.layers() == self.layers() && m.turn()
                == self.turn()),
    {
        if self.depth > M {
            return Err(WideMoveCreationError::ExcededDepth(self.depth, M));
        }
        Ok(WideAxisMove { depth: self.depth, axis_move: self.axis_move })
    }

    /// The move that undoes this one: same depth, inverse face turn.
    pub fn inverse(&self) -> (r: WideAxisMove<N>)
        ensures
            r.layers() == self.layers(),
            r.turn() == self.turn().inv(),
    {
        proof {
            use_type_invariant(self);
        }
        WideAxisMove { depth: self.depth, axis_move: self.axis_move.inverse() }
    }
}

impl AxisMove {
    /// Returns the wide version of this move at the specified depth
    pub fn widen<const N: u32>(self, depth: u32) -> (r: Result<
        WideAxisMove<N>,
        WideMoveCreationError,
    >)
        ensures
            depth > N ==> r == Err::<WideAxisMove<N>, WideMoveCreationError>(
                WideMoveCreationError::ExcededDepth(depth, N),
            ),
            depth <= N ==> (r matches Ok(m) && m.layers() == depth && m.turn() == self),
    {
        WideAxisMove::new(self.face, self.amount, depth)
    }
}

impl Alg<AxisMove> {
    /// Widens every move of the algorithm to the given depth. Fails if the depth is greater
    /// than `N`.
    pub fn widen<const N: u32>(self, depth: u32) -> (r: Result<
        Alg<WideAxisMove<N>>,
        WideMoveCreationError,
    >)
        ensures
            depth > N ==> r == Err::<Alg<WideAxisMove<N>>, WideMoveCreationError>(
                WideMoveCreationError::ExcededDepth(depth, N),
            ),
            depth <= N ==> (r matches Ok(alg) && alg.moves.len() == self.moves.len() && forall|i: int|
                0 <= i < self.moves.len() ==> (#[trigger] alg.moves@[i]).layers() == depth
                    && alg.moves@[i].turn() == self.moves@[i]),
    {
        if depth > N {
            return Err(WideMoveCreationError::ExcededDepth(depth, N));
        }
        let mut out: Vec<WideAxisMove<N>> = Vec::new();
        let n = self.moves.len();
        let mut i: usize = 0;
        while i < n
            invariant
                n == self.moves.len(),
                i <= n,
                out.len() == i,
                depth <= N,
                forall|j: int|
                    0 <= j < i ==> (#[trigger] out@[j]).layers() == depth && out@[j].axis_move
                        == self.moves@[j],
            decreases n - i,
        {
            let w = self.moves[i].widen::<N>(depth)?;
            out.push(w);
            i = i + 1;
        }
        Ok(Alg::new(out))
    }
}

/// A piece that can be moved by a wide move.
pub trait DepthPiece: Rotatable {
    /// Whether a piece at the given normal and tangent depths is turned by a wide move of
    /// the given face and depth.
    spec fn in_wide_move(self, normal_depth: u32, tangent_depth: u32, face: Face, depth: u32, max_depth: u32) -> bool;

    /// Whether the piece is in the wide move if it has the given normal and tangent depth.
    fn is_in_wide_move<const M: u32>(
        &self,
        normal_depth: u32,
        tangent_depth: u32,
        m: &WideAxisMove<M>,
    ) -> (r: bool)
        ensures
            r == self.in_wide_move(normal_depth, tangent_depth, m.turn().face, m.layers(), M),
    ;

    /// A piece that a wide move turns is still in the layers of the move once turned.
    proof fn lemma_turned_stays(
        self,
        normal_depth: u32,
        tangent_depth: u32,
        face: Face,
        amount: Amount,
        depth: u32,
        max_depth: u32,
    )
        requires
            self.in_wide_move(normal_depth, tangent_depth, face, depth, max_depth),
        ensures
            self.rotated_by(AxisRotation { axis: face.axis, amount }).in_wide_move(
                normal_depth,
                tangent_depth,
                face,
                depth,
                max_depth,
            ),
    ;

    /// Rotating a piece and then rotating it back gives it back.
    proof fn lemma_rotation_undone(self, rotation: AxisRotation)
        ensures
            self.rotated_by(rotation).rotated_by(rotation.inv()) == self,
    ;
}

/// A set of pieces that can be moved by wide moves. The pieces are at the given normal and
/// tangent depths (see [DepthPiece]).
#[derive(Debug, Clone, PartialEq, Eq, Hash)]
pub struct DepthPieceSet<
    P: DepthPiece,
    const N: usize,
    const NORMAL_DEPTH: u32,
    const TANGENT_DEPTH: u32,
> {
    /// The original set of pieces.
    pub set: [P; N],
}

impl<
    P: DepthPiece + Copy,
    const N: usize,
    const NORMAL_DEPTH: u32,
    const TANGENT_DEPTH: u32,
> DepthPieceSet<P, N, NORMAL_DEPTH, TANGENT_DEPTH> {
    /// The piece after a wide move: rotated like the move's face if the move turns it.
    pub open spec fn moved_piece<const M: u32>(piece: P, m: WideAxisMove<M>) -> P {
        if piece.in_wide_move(NORMAL_DEPTH, TANGENT_DEPTH, m.turn().face, m.layers(), M) {
            piece.rotated_by(AxisRotation::of_move(m.turn()))
        } else {
            piece
        }
    }

    /// Doing a wide move and then its inverse (the same depth, the inverse face turn) leaves
    /// every piece where it was.
    pub proof fn lemma_move_undone<const M: u32>(piece: P, m: WideAxisMove<M>)
        ensures
            Self::moved_piece(
                Self::moved_piece(piece, m),
                WideAxisMove::<M>::make(m.turn().inv().face, m.turn().inv().amount, m.layers()),
            ) == piece,
    {
        let inverse = WideAxisMove::<M>::make(m.turn().inv().face, m.turn().inv().amount, m.layers());
        let face = m.turn().face;
        let rotation = AxisRotation::of_move(m.turn());
        if piece.in_wide_move(NORMAL_DEPTH, TANGENT_DEPTH, face, m.layers(), M) {
            piece.lemma_turned_stays(NORMAL_DEPTH, TANGENT_DEPTH, face, m.turn().amount, m.layers(), M);
            piece.lemma_rotation_undone(rotation);
            assert(AxisRotation::of_move(inverse.turn()) == rotation.inv());
        }
    }

    /// Does a wide move on the set: every piece that the move turns is rotated like the move's
    /// face, the others stay.
    pub fn apply<const M: u32>(&mut self, m: &WideAxisMove<M>)
        ensures
            forall|i: int|
                0 <= i < N ==> #[trigger] final(self).set[i] == Self::moved_piece(
                    old(self).set[i],
                    *m,
                ),
    {
        let rotation = AxisRotation::from_move(&m.axis_move);
        let mut i: usize = 0;
        while i < N
            invariant
                i <= N,
                rotation == AxisRotation::of_move(m.turn()),
                forall|k: int|
                    0 <= k < i ==> #[trigger] self.set[k] == Self::moved_piece(old(self).set[k], *m),
                forall|k: int| i <= k < N ==> #[trigger] self.set[k] == old(self).set[k],
            decreases N - i,
        {
            let mut piece = self.set[i];
            if piece.is_in_wide_move::<M>(NORMAL_DEPTH, TANGENT_DEPTH, m) {
                piece.rotate(&rotation);
            }
            self.set[i] = piece;
            i = i + 1;
        }
    }
}

impl<
    P: DepthPiece + PieceSetDescriptor<N> + Copy,
    const N: usize,
    const NORMAL_DEPTH: u32,
    const TANGENT_DEPTH: u32,
> DepthPieceSet<P, N, NORMAL_DEPTH, TANGENT_DEPTH> {
    /// Whether every piece is solved with respect to the piece at its index in a solved set.
    pub open spec fn solved_spec(self) -> bool {
        forall|i: int| 0 <= i < N ==> #[trigger] self.set[i].solved_as(P::solved_piece(i))
    }

    /// The solved set.
    pub fn solved() -> (r: Self)
        ensures
            forall|i: int| 0 <= i < N ==> #[trigger] r.set[i] == P::solved_piece(i),
    {
        DepthPieceSet { set: P::solved_pieces() }
    }

    /// Whether every piece is solved.
    pub fn is_solved(&self) -> (r: bool)
        ensures
            r == self.solved_spec(),
    {
        let solved = P::solved_pieces();
        let mut i: usize = 0;
        while i < N
            invariant
                i <= N,
                forall|k: int| 0 <= k < N ==> #[trigger] solved[k] == P::solved_piece(k),
                forall|k: int| 0 <= k < i ==> #[trigger] self.set[k].solved_as(P::solved_piece(k)),
            decreases N - i,
        {
            if !self.set[i].is_solved_as(&solved[i]) {
                return false;
            }
            i = i + 1;
        }
        true
    }
}

} // verus!
