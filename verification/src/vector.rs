//! Points and displacements in three dimensions.

use crate::fixed::clamp_i64;
use crate::fixed::micro_product;
use crate::fixed::saturating_neg;
use crate::fixed::saturating_sum;
use crate::fixed::scale_micro;
use vstd::prelude::*;

verus! {

/// A point or a displacement, each component in millionths.
#[derive(Clone, Copy, Debug, PartialEq, Eq, Structural)]
pub struct Vec3 {
    pub x: i64,
    pub y: i64,
    pub z: i64,
}

impl Vec3 {
    /// The origin, and the displacement that moves nothing.
    pub open spec fn spec_zero() -> Vec3 {
        Vec3 { x: 0, y: 0, z: 0 }
    }

    /// The componentwise sum, each component saturating.
    pub open spec fn spec_plus(self, other: Vec3) -> Vec3 {
        Vec3 {
            x: clamp_i64(self.x + other.x) as i64,
            y: clamp_i64(self.y + other.y) as i64,
            z: clamp_i64(self.z + other.z) as i64,
        }
    }

    /// The opposite displacement, each component saturating.
    pub open spec fn spec_negated(self) -> Vec3 {
        Vec3 {
            x: clamp_i64(-self.x) as i64,
            y: clamp_i64(-self.y) as i64,
            z: clamp_i64(-self.z) as i64,
        }
    }

    /// The displacement stretched by a fixed-point factor.
    pub open spec fn spec_scaled(self, factor: i64) -> Vec3 {
        Vec3 {
            x: micro_product(self.x as int, factor as int) as i64,
            y: micro_product(self.y as int, factor as int) as i64,
            z: micro_product(self.z as int, factor as int) as i64,
        }
    }

    /// The scalar product, in millionths of millionths.
    pub open spec fn dot(self, other: Vec3) -> int {
        self.x * other.x + self.y * other.y + self.z * other.z
    }

    /// The squared length, in millionths of millionths.
    pub open spec fn norm_squared(self) -> int {
        self.dot(self)
    }

    /// Whether a sum with `other` stays clear of saturation.
    pub open spec fn sum_in_range(self, other: Vec3) -> bool {
        &&& i64::MIN <= self.x + other.x <= i64::MAX
        &&& i64::MIN <= self.y + other.y <= i64::MAX
        &&& i64::MIN <= self.z + other.z <= i64::MAX
    }

    pub fn new(x: i64, y: i64, z: i64) -> (r: Vec3)
        ensures
            r == (Vec3 { x, y, z }),
    {
        Vec3 { x, y, z }
    }

    #[verifier::when_used_as_spec(spec_zero)]
    pub fn zero() -> (r: Vec3)
        ensures
            r == Vec3::spec_zero(),
    {
        Vec3 { x: 0, y: 0, z: 0 }
    }

    /// A vector with the same value on every axis.
    pub fn splat(v: i64) -> (r: Vec3)
        ensures
            r == (Vec3 { x: v, y: v, z: v }),
    {
        Vec3 { x: v, y: v, z: v }
    }

    #[verifier::when_used_as_spec(spec_plus)]
    pub fn plus(self, other: Vec3) -> (r: Vec3)
        ensures
            r == self.spec_plus(other),
    {
        Vec3 {
            x: saturating_sum(self.x, other.x),
            y: saturating_sum(self.y, other.y),
            z: saturating_sum(self.z, other.z),
        }
    }

    #[verifier::when_used_as_spec(spec_negated)]
    pub fn negated(self) -> (r: Vec3)
        ensures
            r == self.spec_negated(),
    {
        Vec3 {
            x: saturating_neg(self.x),
            y: saturating_neg(self.y),
            z: saturating_neg(self.z),
        }
    }

    #[verifier::when_used_as_spec(spec_scaled)]
    pub fn scaled(self, factor: i64) -> (r: Vec3)
        ensures
            r == self.spec_scaled(factor),
    {
        Vec3 {
            x: scale_micro(self.x, factor),
            y: scale_micro(self.y, factor),
            z: scale_micro(self.z, factor),
        }
    }
}

/// Sums that stay in range add up as the integers do: two steps in a row
/// land where the one step of their sum lands.
pub proof fn lemma_plus_composes(p: Vec3, d1: Vec3, d2: Vec3)
    requires
        p.sum_in_range(d1),
        d1.sum_in_range(d2),
        p.plus(d1).sum_in_range(d2),
    ensures
        p.plus(d1).plus(d2) == p.plus(d1.plus(d2)),
        p.plus(d1).plus(d2).x == p.x + d1.x + d2.x,
        p.plus(d1).plus(d2).y == p.y + d1.y + d2.y,
        p.plus(d1).plus(d2).z == p.z + d1.z + d2.z,
{
}

} // verus!
