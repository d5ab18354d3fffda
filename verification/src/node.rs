//! Camera poses: a position and an orientation.

use vstd::prelude::*;
use crate::scalar::Scalar;
use crate::scalar::ONE_BITS;
use crate::scalar::ZERO_BITS;

verus! {

/// Three scalars: a point or a direction in space.
#[derive(Clone, Copy, Debug, PartialEq, Eq, Structural)]
pub struct Vector3 {
    pub x: Scalar,
    pub y: Scalar,
    pub z: Scalar,
}

/// An orientation quaternion, in the order x, y, z, w.
#[derive(Clone, Copy, Debug, PartialEq, Eq, Structural)]
pub struct Quaternion {
    pub x: Scalar,
    pub y: Scalar,
    pub z: Scalar,
    pub w: Scalar,
}

/// One recorded camera pose: where the camera is and how it is turned.
#[derive(Clone, Copy, Debug, PartialEq, Eq, Structural)]
pub struct FreecamNode {
    pub trans: Vector3,
    pub rot: Quaternion,
}

impl Vector3 {
    /// The origin.
    pub open spec fn origin() -> Vector3 {
        Vector3 {
            x: Scalar { bits: ZERO_BITS },
            y: Scalar { bits: ZERO_BITS },
            z: Scalar { bits: ZERO_BITS },
        }
    }

    /// The unit vector along the vertical axis.
    pub open spec fn vertical() -> Vector3 {
        Vector3 {
            x: Scalar { bits: ZERO_BITS },
            y: Scalar { bits: ONE_BITS },
            z: Scalar { bits: ZERO_BITS },
        }
    }

    /// A vector from its three components.
    pub fn new(x: Scalar, y: Scalar, z: Scalar) -> (r: Vector3)
        ensures
            r == (Vector3 { x, y, z }),
    {
        Vector3 { x, y, z }
    }

    /// The origin.
    pub fn zero() -> (r: Vector3)
        ensures
            r == Vector3::origin(),
    {
        Vector3 { x: Scalar::zero(), y: Scalar::zero(), z: Scalar::zero() }
    }

    /// The unit vector along the vertical axis.
    pub fn unit_y() -> (r: Vector3)
        ensures
            r == Vector3::vertical(),
    {
        Vector3 { x: Scalar::zero(), y: Scalar::one(), z: Scalar::zero() }
    }
}

impl Quaternion {
    /// The rotation that turns nothing.
    pub open spec fn no_turn() -> Quaternion {
        Quaternion {
            x: Scalar { bits: ZERO_BITS },
            y: Scalar { bits: ZERO_BITS },
            z: Scalar { bits: ZERO_BITS },
            w: Scalar { bits: ONE_BITS },
        }
    }

    /// The same rotation written with the opposite sign in every component.
    pub open spec fn opposite(self) -> Quaternion {
        Quaternion {
            x: self.x.opposite(),
            y: self.y.opposite(),
            z: self.z.opposite(),
            w: self.w.opposite(),
        }
    }

    /// A quaternion from its four components.
    pub fn new(x: Scalar, y: Scalar, z: Scalar, w: Scalar) -> (r: Quaternion)
        ensures
            r == (Quaternion { x, y, z, w }),
    {
        Quaternion { x, y, z, w }
    }

    /// The rotation that turns nothing.
    pub fn identity() -> (r: Quaternion)
        ensures
            r == Quaternion::no_turn(),
    {
        Quaternion { x: Scalar::zero(), y: Scalar::zero(), z: Scalar::zero(), w: Scalar::one() }
    }

    /// The same rotation with every component's sign flipped.
    pub fn negated(self) -> (r: Quaternion)
        ensures
            r == self.opposite(),
    {
        Quaternion {
            x: self.x.negated(),
            y: self.y.negated(),
            z: self.z.negated(),
            w: self.w.negated(),
        }
    }
}

impl FreecamNode {
    /// The pose a fresh node holds: at the origin, turned nowhere.
    pub open spec fn rest() -> FreecamNode {
        FreecamNode { trans: Vector3::origin(), rot: Quaternion::no_turn() }
    }

    /// The pose with its orientation written with the opposite sign.
    pub open spec fn flipped(self) -> FreecamNode {
        FreecamNode { trans: self.trans, rot: self.rot.opposite() }
    }

    /// A pose from a position and an orientation.
    pub fn new(trans: Vector3, rot: Quaternion) -> (r: FreecamNode)
        ensures
            r.trans == trans,
            r.rot == rot,
    {
        FreecamNode { trans, rot }
    }

    /// The pose with its orientation's sign flipped; the position stays.
    pub fn with_rot_negated(self) -> (r: FreecamNode)
        ensures
            r == self.flipped(),
    {
        FreecamNode { trans: self.trans, rot: self.rot.negated() }
    }
}

impl Default for FreecamNode {
    fn default() -> (r: FreecamNode)
        ensures
            r == FreecamNode::rest(),
    {
        FreecamNode { trans: Vector3::zero(), rot: Quaternion::identity() }
    }
}

} // verus!
