//! Rotations and orientations.
//!
//! A `Rotation` is relative (turn by so many degrees), an
//! `AbsoluteOrientation` is where the screen's "up" points. Keeping them
//! apart in the type system makes it harder to confuse the two.

use crate::error::{Error, Result};
use vstd::prelude::*;

verus! {

#[derive(Copy, Clone, Debug, PartialEq, Eq, Structural)]
pub enum Rotation {
    Clockwise0,
    Clockwise90,
    Clockwise180,
    Clockwise270,
}

#[derive(Copy, Clone, Debug, PartialEq, Eq, Structural)]
pub enum AbsoluteOrientation {
    /// Zero degree rotation.
    Normal,
    /// 90 degree clockwise rotation; screen "up" is on the right.
    RightUp,
    /// 180 degree rotation.
    Flipped,
    /// 270 degree clockwise rotation; screen "up" is on the left.
    LeftUp,
}

/// The remainder of `d` by 360 that has the sign of `d`.
pub open spec fn signed_rem_360(d: int) -> int {
    if d >= 0 {
        d % 360
    } else {
        -((-d) % 360)
    }
}

impl Rotation {
    /// Number of clockwise quarter turns, 0 to 3.
    pub open spec fn quarters(self) -> int {
        match self {
            Rotation::Clockwise0 => 0,
            Rotation::Clockwise90 => 1,
            Rotation::Clockwise180 => 2,
            Rotation::Clockwise270 => 3,
        }
    }

    /// The rotation of `q` quarter turns, taken modulo 4.
    pub open spec fn from_quarters(q: int) -> Rotation {
        let m = q % 4;
        if m == 0 {
            Rotation::Clockwise0
        } else if m == 1 {
            Rotation::Clockwise90
        } else if m == 2 {
            Rotation::Clockwise180
        } else {
            Rotation::Clockwise270
        }
    }

    /// Clockwise degrees, as a mathematical integer.
    pub open spec fn degrees(self) -> int {
        90 * self.quarters()
    }

    /// Composition of two rotations.
    pub open spec fn plus(self, rhs: Rotation) -> Rotation {
        Rotation::from_quarters(self.quarters() + rhs.quarters())
    }

    /// Convert to clockwise degrees.
    pub fn to_degrees(&self) -> (d: isize)
        ensures
            d == self.degrees(),
    {
        match *self {
            Self::Clockwise0 => 0,
            Self::Clockwise90 => 90,
            Self::Clockwise180 => 180,
            Self::Clockwise270 => 270,
        }
    }

    /// Attempt conversion from degrees to rotation.
    /// Positive value is clockwise, negative is counter clockwise.
    pub fn from_degrees(cw_degrees: isize) -> (r: Result<Self>)
        ensures
            cw_degrees % 90 == 0 ==> r == Ok::<Rotation, Error>(
                Rotation::from_quarters(cw_degrees / 90),
            ),
            cw_degrees % 90 != 0 ==> r == Err::<Rotation, Error>(
                Error::InvalidDegrees(signed_rem_360(cw_degrees as int) as isize),
            ),
    {
        let m: isize = cw_degrees % 360;
        if m == 0 {
            Ok(Self::Clockwise0)
        } else if m == 90 || m == -270 {
            Ok(Self::Clockwise90)
        } else if m == 180 || m == -180 {
            Ok(Self::Clockwise180)
        } else if m == 270 || m == -90 {
            Ok(Self::Clockwise270)
        } else {
            Err(Error::InvalidDegrees(m))
        }
    }
}

impl std::ops::Add<Rotation> for Rotation {
    type Output = Rotation;

    fn add(self, rhs: Rotation) -> (sum: Rotation) {
        match Rotation::from_degrees(self.to_degrees() + rhs.to_degrees()) {
            Ok(r) => r,
            Err(_) => Rotation::Clockwise0,
        }
    }
}

impl vstd::std_specs::ops::AddSpecImpl<Rotation> for Rotation {
    open spec fn obeys_add_spec() -> bool {
        true
    }

    open spec fn add_req(self, rhs: Rotation) -> bool {
        true
    }

    open spec fn add_spec(self, rhs: Rotation) -> Rotation {
        self.plus(rhs)
    }
}

impl AbsoluteOrientation {
    /// The rotation that takes `Normal` to this orientation.
    pub open spec fn rotation(self) -> Rotation {
        match self {
            AbsoluteOrientation::Normal => Rotation::Clockwise0,
            AbsoluteOrientation::RightUp => Rotation::Clockwise90,
            AbsoluteOrientation::Flipped => Rotation::Clockwise180,
            AbsoluteOrientation::LeftUp => Rotation::Clockwise270,
        }
    }

    /// The orientation reached from `Normal` by `rel`.
    pub open spec fn of_rotation(rel: Rotation) -> AbsoluteOrientation {
        match rel {
            Rotation::Clockwise0 => AbsoluteOrientation::Normal,
            Rotation::Clockwise90 => AbsoluteOrientation::RightUp,
            Rotation::Clockwise180 => AbsoluteOrientation::Flipped,
            Rotation::Clockwise270 => AbsoluteOrientation::LeftUp,
        }
    }

    /// This orientation turned further by `rhs`.
    pub open spec fn turned(self, rhs: Rotation) -> AbsoluteOrientation {
        AbsoluteOrientation::of_rotation(self.rotation().plus(rhs))
    }
}

impl From<AbsoluteOrientation> for Rotation {
    fn from(abs: AbsoluteOrientation) -> (rel: Rotation) {
        match abs {
            AbsoluteOrientation::Normal => Rotation::Clockwise0,
            AbsoluteOrientation::RightUp => Rotation::Clockwise90,
            AbsoluteOrientation::Flipped => Rotation::Clockwise180,
            AbsoluteOrientation::LeftUp => Rotation::Clockwise270,
        }
    }
}

impl vstd::std_specs::convert::FromSpecImpl<AbsoluteOrientation> for Rotation {
    open spec fn obeys_from_spec() -> bool {
        true
    }

    open spec fn from_spec(abs: AbsoluteOrientation) -> Rotation {
        abs.rotation()
    }
}

impl From<Rotation> for AbsoluteOrientation {
    fn from(rel: Rotation) -> (abs: AbsoluteOrientation) {
        match rel {
            Rotation::Clockwise0 => AbsoluteOrientation::Normal,
            Rotation::Clockwise90 => AbsoluteOrientation::RightUp,
            Rotation::Clockwise180 => AbsoluteOrientation::Flipped,
            Rotation::Clockwise270 => AbsoluteOrientation::LeftUp,
        }
    }
}

impl vstd::std_specs::convert::FromSpecImpl<Rotation> for AbsoluteOrientation {
    open spec fn obeys_from_spec() -> bool {
        true
    }

    open spec fn from_spec(rel: Rotation) -> AbsoluteOrientation {
        AbsoluteOrientation::of_rotation(rel)
    }
}

impl std::ops::Add<Rotation> for AbsoluteOrientation {
    type Output = AbsoluteOrientation;

    fn add(self, rhs: Rotation) -> (sum: AbsoluteOrientation) {
        AbsoluteOrientation::from(Rotation::from(self) + rhs)
    }
}

impl vstd::std_specs::ops::AddSpecImpl<Rotation> for AbsoluteOrientation {
    open spec fn obeys_add_spec() -> bool {
        true
    }

    open spec fn add_req(self, rhs: Rotation) -> bool {
        true
    }

    open spec fn add_spec(self, rhs: Rotation) -> AbsoluteOrientation {
        self.turned(rhs)
    }
}

/// `Clockwise0` is the identity of rotation addition, on both sides.
pub proof fn lemma_rotation_identity(r: Rotation)
    ensures
        r.plus(Rotation::Clockwise0) == r,
        Rotation::Clockwise0.plus(r) == r,
{
}

/// Rotation addition is associative and commutative.
pub proof fn lemma_rotation_associative(a: Rotation, b: Rotation, c: Rotation)
    ensures
        a.plus(b).plus(c) == a.plus(b.plus(c)),
        a.plus(b) == b.plus(a),
{
}

/// Every rotation has an inverse: the rotation that completes the full turn.
pub proof fn lemma_rotation_inverse(r: Rotation)
    ensures
        r.plus(Rotation::from_quarters(4 - r.quarters())) == Rotation::Clockwise0,
{
}

/// The quarter turn generates the group and has order four: `r` is reached
/// from the identity by `r.quarters()` quarter turns, no two of the first four
/// multiples of the quarter turn coincide, and the fourth is the identity again.
pub proof fn lemma_rotation_cyclic_of_order_four(r: Rotation)
    ensures
        Rotation::from_quarters(r.quarters()) == r,
        0 <= r.quarters() < 4,
        forall|i: int, j: int|
            0 <= i < j < 4 ==> Rotation::from_quarters(i) != Rotation::from_quarters(j),
        forall|n: int|
            Rotation::from_quarters(n).plus(Rotation::Clockwise90) == Rotation::from_quarters(
                n + 1,
            ),
        Rotation::from_quarters(4) == Rotation::Clockwise0,
{
}

/// Four successive quarter turns bring any orientation back to itself, and
/// so do two half turns.
pub proof fn lemma_orientation_full_turn(o: AbsoluteOrientation)
    ensures
        o.turned(Rotation::Clockwise90).turned(Rotation::Clockwise90).turned(
            Rotation::Clockwise90,
        ).turned(Rotation::Clockwise90) == o,
        o.turned(Rotation::Clockwise180).turned(Rotation::Clockwise180) == o,
        o.turned(Rotation::Clockwise0) == o,
{
}

/// Turning an orientation twice is turning it once by the sum, and the two
/// conversions between rotations and orientations undo each other.
pub proof fn lemma_orientation_action(o: AbsoluteOrientation, a: Rotation, b: Rotation)
    ensures
        o.turned(a).turned(b) == o.turned(a.plus(b)),
        AbsoluteOrientation::of_rotation(o.rotation()) == o,
        AbsoluteOrientation::of_rotation(a).rotation() == a,
{
}

} // verus!
