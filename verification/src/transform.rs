//! Where a model stands: position, rotation, scale and pivot.

use crate::fixed::square;
use crate::fixed::MICRO;
use crate::fixed::MICRO_SQUARED;
use crate::vector::lemma_plus_composes;
use crate::vector::Vec3;
use vstd::prelude::*;

verus! {

/// How far the squared length of a rotation may lie from one, in millionths
/// of millionths: what rounding four components to millionths can cost.
pub const UNIT_SLACK: i64 = 4_000_000;

/// The squared length of a quaternion.
pub open spec fn quat_norm_squared(x: int, y: int, z: int, w: int) -> int {
    x * x + y * y + z * z + w * w
}

/// The quaternion has length one, as nearly as millionths can tell.
pub open spec fn nearly_unit(x: int, y: int, z: int, w: int) -> bool {
    MICRO_SQUARED - UNIT_SLACK <= quat_norm_squared(x, y, z, w) <= MICRO_SQUARED + UNIT_SLACK
}

/// The four components of a rotation, in parts per million.
pub struct Quaternion {
    pub x: int,
    pub y: int,
    pub z: int,
    pub w: int,
}

/// A rotation: a quaternion of length one.
#[derive(Clone, Copy, Debug, PartialEq, Eq)]
pub struct Rotation {
    x: i32,
    y: i32,
    z: i32,
    w: i32,
}

impl View for Rotation {
    type V = Quaternion;

    closed spec fn view(&self) -> Quaternion {
        Quaternion { x: self.x as int, y: self.y as int, z: self.z as int, w: self.w as int }
    }
}

impl Rotation {
    #[verifier::type_invariant]
    spec fn inv(self) -> bool {
        nearly_unit(self.x as int, self.y as int, self.z as int, self.w as int)
    }

    /// The rotation that turns nothing.
    pub closed spec fn spec_identity() -> Rotation {
        Rotation { x: 0, y: 0, z: 0, w: 1_000_000 }
    }

    /// A rotation from four components, or nothing where they are not the
    /// components of a quaternion of length one.
    pub fn new(x: i32, y: i32, z: i32, w: i32) -> (r: Option<Rotation>)
        ensures
            r is Some <==> nearly_unit(x as int, y as int, z as int, w as int),
            r matches Some(q) ==> q@ == (Quaternion {
                x: x as int,
                y: y as int,
                z: z as int,
                w: w as int,
            }),
    {
        let n: i128 = square(x) + square(y) + square(z) + square(w);
        let one: i128 = MICRO_SQUARED as i128;
        if one - (UNIT_SLACK as i128) <= n && n <= one + (UNIT_SLACK as i128) {
            Some(Rotation { x, y, z, w })
        } else {
            None
        }
    }

    #[verifier::when_used_as_spec(spec_identity)]
    pub fn identity() -> (r: Rotation)
        ensures
            r == Rotation::spec_identity(),
            r@ == (Quaternion { x: 0, y: 0, z: 0, w: MICRO as int }),
    {
        Rotation { x: 0, y: 0, z: 0, w: 1_000_000 }
    }

    pub fn x(&self) -> (r: i32)
        ensures
            r == self@.x,
    {
        self.x
    }

    pub fn y(&self) -> (r: i32)
        ensures
            r == self@.y,
    {
        self.y
    }

    pub fn z(&self) -> (r: i32)
        ensures
            r == self@.z,
    {
        self.z
    }

    pub fn w(&self) -> (r: i32)
        ensures
            r == self@.w,
            nearly_unit(self@.x, self@.y, self@.z, self@.w),
    {
        proof {
            use_type_invariant(self);
        }
        self.w
    }
}

/// Position, rotation and scale of a placed model. A scale component may be
/// negative, which mirrors the model. Where a pivot is set, rotation and
/// scale act about that point of the model's own space and not about its
/// origin.
#[derive(Clone, Copy, Debug, PartialEq, Eq)]
pub struct Transform {
    pub position: Vec3,
    pub rotation: Rotation,
    pub scale: Vec3,
    pub pivot: Option<Vec3>,
}

impl Transform {
    /// The transform moved by `delta` in world space.
    pub open spec fn spec_translate(self, delta: Vec3) -> Transform {
        Transform {
            position: self.position.plus(delta),
            rotation: self.rotation,
            scale: self.scale,
            pivot: self.pivot,
        }
    }

    /// The transform with its pivot at `pivot`.
    pub open spec fn spec_with_pivot(self, pivot: Vec3) -> Transform {
        Transform {
            position: self.position,
            rotation: self.rotation,
            scale: self.scale,
            pivot: Some(pivot),
        }
    }

    /// A transform without a pivot.
    pub fn new(position: Vec3, rotation: Rotation, scale: Vec3) -> (r: Transform)
        ensures
            r == (Transform { position, rotation, scale, pivot: None }),
    {
        Transform { position, rotation, scale, pivot: None }
    }

    /// Moves the position by `delta`; whichever way the model is turned,
    /// `delta` is a displacement of the world. Rotation, scale and pivot stay.
    #[verifier::when_used_as_spec(spec_translate)]
    pub fn translate(self, delta: Vec3) -> (r: Transform)
        ensures
            r == self.spec_translate(delta),
    {
        Transform {
            position: self.position.plus(delta),
            rotation: self.rotation,
            scale: self.scale,
            pivot: self.pivot,
        }
    }

    #[verifier::when_used_as_spec(spec_with_pivot)]
    pub fn with_pivot(self, pivot: Vec3) -> (r: Transform)
        ensures
            r == self.spec_with_pivot(pivot),
    {
        Transform {
            position: self.position,
            rotation: self.rotation,
            scale: self.scale,
            pivot: Some(pivot),
        }
    }
}

/// Two translations in a row are one translation by the sum: the position
/// ends at the first position plus both displacements, and rotation, scale
/// and pivot are what they were. This holds as long as no sum leaves the
/// range of a coordinate.
pub proof fn lemma_translate_composes(t: Transform, d1: Vec3, d2: Vec3)
    requires
        t.position.sum_in_range(d1),
        d1.sum_in_range(d2),
        t.position.plus(d1).sum_in_range(d2),
    ensures
        t.translate(d1).translate(d2) == t.translate(d1.plus(d2)),
        t.translate(d1).translate(d2).position.x == t.position.x + d1.x + d2.x,
        t.translate(d1).translate(d2).position.y == t.position.y + d1.y + d2.y,
        t.translate(d1).translate(d2).position.z == t.position.z + d1.z + d2.z,
        t.translate(d1).translate(d2).rotation == t.rotation,
        t.translate(d1).translate(d2).scale == t.scale,
        t.translate(d1).translate(d2).pivot == t.pivot,
{
    lemma_plus_composes(t.position, d1, d2);
}

} // verus!
