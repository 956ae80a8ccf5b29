//! The orientation of a cube in space.

use vstd::prelude::*;

use crate::moves::rotation::{AxisRotation, Rotatable};
use crate::moves::{Alg, Amount, AxisMove};
use crate::space::{Axis, Direction, Face, ParallelAxesError};

verus! {

/// An orientation of a cube: where its original R and U faces are now.
///
/// It is stored as the current R face, the handedness from its axis to the axis of the
/// current U face, and the direction of the current U face.
#[derive(Debug, Clone, Copy, PartialEq, Eq, Structural)]
pub struct Orientation {
    r_face: Face,
    handedness: Direction,
    side_direction: Direction,
}

/// The rotation that takes `from` to `to`: `None` if they are the same face; a quarter turn
/// around their cross product if they are perpendicular; a half turn around the next axis if
/// they are opposite.
pub open spec fn connecting(from: Face, to: Face) -> Option<AxisRotation> {
    match from.cross_spec(to) {
        Some(c) => Some(AxisRotation {
            axis: c.axis,
            amount: match c.direction {
                Direction::Positive => Amount::Inverse,
                Direction::Negative => Amount::Single,
            },
        }),
        None => if from.direction == to.direction {
            None
        } else {
            Some(AxisRotation { axis: from.axis.succ(), amount: Amount::Double })
        },
    }
}

/// The rotation that takes `from` to `to`, given as a face `face` to be turned.
pub fn connecting_rotation(from: &Face, to: &Face) -> (r: Option<AxisRotation>)
    ensures
        r == connecting(*from, *to),
        r is None <==> *from == *to,
        r matches Some(rot) ==> from.rotated_by(rot) == *to,
{
    match from.cross(to) {
        Some(cross_result) => Some(
            AxisRotation::new(cross_result.axis, Amount::from_direction(cross_result.direction.neg())),
        ),
        None => {
            if from.direction == to.direction {
                return None;
            }
            Some(AxisRotation::new(from.axis.next(), Amount::Double))
        },
    }
}

/// The rotation around the axis of `face` that takes `from` to `to` (both off that axis):
/// `None` if they are the same face, a half turn if they are opposite, and otherwise the quarter
/// turn, clockwise or counterclockwise, that takes one to the other.
pub open spec fn connecting_with_face(from: Face, to: Face, face: Face) -> Option<AxisRotation> {
    if from == to {
        None
    } else if from.axis == to.axis {
        Some(AxisRotation { axis: face.axis, amount: Amount::Double })
    } else if from.turned(face.axis) == to {
        Some(AxisRotation { axis: face.axis, amount: Amount::Single })
    } else {
        Some(AxisRotation { axis: face.axis, amount: Amount::Inverse })
    }
}

/// The rotation around the axis of `face` that takes `from` to `to`, for faces that can be
/// reached from one another by a rotation around the axis of `face`.
pub fn connecting_rotation_with_face(from: &Face, to: &Face, face: &Face) -> (r: Option<AxisRotation>)
    requires
        from.axis != face.axis,
        to.axis != face.axis,
    ensures
        r == connecting_with_face(*from, *to, *face),
        r is None <==> *from == *to,
        r matches Some(rot) ==> rot.axis == face.axis && from.rotated_by(rot) == *to,
{
    if *from == *to {
        return None;
    }
    if from.axis == to.axis {
        return Some(AxisRotation::new(face.axis, Amount::Double));
    }
    let single = AxisRotation::new(face.axis, Amount::Single);
    if from.rotated(&single) == *to {
        Some(single)
    } else {
        Some(AxisRotation::new(face.axis, Amount::Inverse))
    }
}

impl Orientation {
    /// The current position of the original R face.
    pub closed spec fn r(self) -> Face {
        self.r_face
    }

    /// The current position of the original U face.
    pub closed spec fn u(self) -> Face {
        Face { axis: self.r_face.axis.step(self.handedness), direction: self.side_direction }
    }

    /// The two faces of an orientation are perpendicular, and they determine it.
    pub proof fn lemma_faces_determine(a: Orientation, b: Orientation)
        ensures
            a.r().axis != a.u().axis,
            a.r() == b.r() && a.u() == b.u() ==> a == b,
    {
    }

    /// The rotations that [`Orientation::rotations`] returns: the one taking R to the current
    /// R face, followed by the one around the current R face taking the U face (moved by the
    /// first) to the current U face.
    pub open spec fn rotations_of(self) -> Seq<AxisRotation> {
        let r_rot = connecting(Face::R(), self.r());
        let new_u = match r_rot {
            Some(rot) => Face::U().rotated_by(rot),
            None => Face::U(),
        };
        let u_rot = connecting_with_face(new_u, self.u(), self.r());
        match (r_rot, u_rot) {
            (None, None) => seq![],
            (Some(a), None) => seq![a],
            (None, Some(b)) => seq![b],
            (Some(a), Some(b)) => seq![a, b],
        }
    }

    /// The default orientation: R and U are where they are.
    pub closed spec fn initial() -> Orientation {
        Orientation {
            r_face: Face::R(),
            handedness: Direction::Positive,
            side_direction: Direction::Positive,
        }
    }

    /// The default orientation: R and U are where they are.
    pub fn default() -> (r: Orientation)
        ensures
            r == Orientation::initial(),
            r.r() == Face::R(),
            r.u() == Face::U(),
    {
        Orientation {
            r_face: Face::R(),
            handedness: Direction::Positive,
            side_direction: Direction::Positive,
        }
    }

    /// The orientation with the original R face on `r` and the original U face on `u`. Errors
    /// if the faces are on the same axis.
    pub fn try_from_faces(value: [Face; 2]) -> (r: Result<Orientation, ParallelAxesError>)
        ensures
            value[0].axis == value[1].axis ==> r == Err::<Orientation, ParallelAxesError>(
                ParallelAxesError::SameAxis(value[0].axis),
            ),
            value[0].axis != value[1].axis ==> (r matches Ok(o) && o.r() == value[0] && o.u()
                == value[1]),
    {
        let r_face = value[0];
        let u_face = value[1];
        let handedness = r_face.axis.get_handedness(&u_face.axis)?;
        Ok(Orientation { r_face, handedness, side_direction: u_face.direction })
    }

    /// The current position of the original R face, as a face
    pub fn r_face(&self) -> (r: &Face)
        ensures
            *r == self.r(),
    {
        &self.r_face
    }

    /// The current position of the original U face, as a face
    pub fn u_face(&self) -> (r: Face)
        ensures
            r == self.u(),
    {
        let axis = self.r_face.axis.next_with_handedness(self.handedness);
        Face::new(axis, self.side_direction)
    }

    /// The rotations that get you from the default orientation to this one (at most two; see
    /// [lemma_rotations_reach]).
    pub fn rotations(&self) -> (r: Vec<AxisRotation>)
        ensures
            r@ == self.rotations_of(),
    {
        let r_rot = connecting_rotation(&Face::R(), &self.r_face);
        let new_u = match r_rot {
            Some(rot) => Face::U().rotated(&rot),
            None => Face::U(),
        };
        let r_face = match r_rot {
            Some(rot) => Face::R().rotated(&rot),
            None => Face::R(),
        };
        proof {
            lemma_connecting(Face::R(), self.r());
            if let Some(rot) = r_rot {
                lemma_rotation_keeps_perpendicular(Face::R(), Face::U(), rot);
            }
            Orientation::lemma_faces_determine(*self, *self);
        }
        let u_rot = connecting_rotation_with_face(&new_u, &self.u_face(), &r_face);
        let mut out: Vec<AxisRotation> = Vec::new();
        if let Some(a) = r_rot {
            out.push(a);
        }
        if let Some(b) = u_rot {
            out.push(b);
        }
        proof {
            assert(out@ =~= self.rotations_of());
        }
        out
    }
}

impl Rotatable for Orientation {
    /// The R and U faces both rotate.
    closed spec fn rotated_by(self, rotation: AxisRotation) -> Orientation {
        let r = self.r().rotated_by(rotation);
        let u = self.u().rotated_by(rotation);
        Orientation {
            r_face: r,
            handedness: if u.axis == r.axis.succ() {
                Direction::Positive
            } else {
                Direction::Negative
            },
            side_direction: u.direction,
        }
    }

    fn rotate(&mut self, rotation: &AxisRotation) {
        let u_face = self.u_face().rotated(rotation);
        self.r_face.rotate(rotation);
        let handedness = match self.r_face.axis.get_handedness(&u_face.axis) {
            Ok(h) => h,
            Err(_) => {
                assert(false);
                Direction::Positive
            },
        };
        self.handedness = handedness;
        self.side_direction = u_face.direction;
    }
}

/// Rotating an orientation rotates its R and U faces.
pub proof fn lemma_orientation_rotated(o: Orientation, rot: AxisRotation)
    ensures
        o.rotated_by(rot).r() == o.r().rotated_by(rot),
        o.rotated_by(rot).u() == o.u().rotated_by(rot),
{
}

/// The rotation that takes `from` to `to` does so, and there is none exactly when they are the
/// same face.
pub proof fn lemma_connecting(from: Face, to: Face)
    ensures
        connecting(from, to) is None <==> from == to,
        connecting(from, to) matches Some(rot) ==> from.rotated_by(rot) == to,
{
}

/// The rotation around the axis of `face` that takes `from` to `to` does so, when both are off
/// that axis.
pub proof fn lemma_connecting_with_face(from: Face, to: Face, face: Face)
    requires
        from.axis != face.axis,
        to.axis != face.axis,
    ensures
        connecting_with_face(from, to, face) is None <==> from == to,
        connecting_with_face(from, to, face) matches Some(rot) ==> rot.axis == face.axis
            && from.rotated_by(rot) == to,
{
}

/// A rotation keeps perpendicular faces perpendicular.
pub proof fn lemma_rotation_keeps_perpendicular(a: Face, b: Face, rot: AxisRotation)
    requires
        a.axis != b.axis,
    ensures
        a.rotated_by(rot).axis != b.rotated_by(rot).axis,
{
}

/// An orientation rotated by each of a sequence of rotations, in order.
pub open spec fn rotated_by_all(o: Orientation, rotations: Seq<AxisRotation>) -> Orientation
    decreases rotations.len(),
{
    if rotations.len() == 0 {
        o
    } else {
        rotated_by_all(o, rotations.drop_last()).rotated_by(rotations.last())
    }
}

/// The rotations of an orientation take the default orientation to it.
pub proof fn lemma_rotations_reach(o: Orientation)
    ensures
        rotated_by_all(Orientation::initial(), o.rotations_of()) == o,
{
    let init = Orientation::initial();
    let r_rot = connecting(Face::R(), o.r());
    lemma_connecting(Face::R(), o.r());
    Orientation::lemma_faces_determine(o, o);
    let new_u = match r_rot {
        Some(rot) => Face::U().rotated_by(rot),
        None => Face::U(),
    };
    let mid = match r_rot {
        Some(rot) => init.rotated_by(rot),
        None => init,
    };
    if let Some(rot) = r_rot {
        lemma_orientation_rotated(init, rot);
        lemma_rotation_keeps_perpendicular(Face::R(), Face::U(), rot);
    }
    assert(mid.r() == o.r() && mid.u() == new_u);
    let u_rot = connecting_with_face(new_u, o.u(), o.r());
    lemma_connecting_with_face(new_u, o.u(), o.r());
    let end = match u_rot {
        Some(b) => mid.rotated_by(b),
        None => mid,
    };
    if let Some(b) = u_rot {
        lemma_orientation_rotated(mid, b);
    }
    assert(end.r() == o.r() && end.u() == o.u());
    Orientation::lemma_faces_determine(end, o);
    reveal_with_fuel(rotated_by_all, 3);
    match (r_rot, u_rot) {
        (None, None) => {},
        (Some(a), None) => {
            assert(seq![a].drop_last() =~= Seq::<AxisRotation>::empty());
        },
        (None, Some(b)) => {
            assert(seq![b].drop_last() =~= Seq::<AxisRotation>::empty());
        },
        (Some(a), Some(b)) => {
            assert(seq![a, b].drop_last() =~= seq![a]);
            assert(seq![a].drop_last() =~= Seq::<AxisRotation>::empty());
        },
    }
}

} // verus!
