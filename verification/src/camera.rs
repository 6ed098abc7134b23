//! The camera: where the viewer stands, where it looks, and its projection.

use crate::fixed::clamp_i64;
use crate::fixed::saturating_sum;
use crate::fixed::square;
use crate::fixed::MICRO;
use crate::fixed::MICRO_SQUARED;
use crate::vector::lemma_plus_composes;
use crate::vector::Vec3;
use vstd::prelude::*;

verus! {

/// The vertical field of view a camera starts with: 70 degrees, in microradians.
pub const DEFAULT_FOVY: i64 = 1_221_730;

/// The near plane a camera starts with: a tenth of a unit.
pub const DEFAULT_ZNEAR: i64 = 100_000;

/// The far plane a camera starts with: a thousand units.
pub const DEFAULT_ZFAR: i64 = 1_000_000_000;

/// The width of the drawable a camera starts with, in pixels.
pub const DEFAULT_WIDTH: u32 = 1920;

/// The height of the drawable a camera starts with, in pixels.
pub const DEFAULT_HEIGHT: u32 = 1080;

/// What a projection holds. The aspect ratio is `width : height`, kept as
/// the two counts it is the ratio of.
pub struct ProjectionView {
    pub width: nat,
    pub height: nat,
    /// The vertical field of view, in microradians.
    pub fovy: int,
    /// The distance of the near plane, in millionths.
    pub znear: int,
    /// The distance of the far plane, in millionths.
    pub zfar: int,
}

/// The near plane lies before the viewer and the far plane beyond it.
pub open spec fn planes_in_order(znear: int, zfar: int) -> bool {
    0 < znear < zfar
}

/// A perspective projection.
#[derive(Clone, Copy, Debug, PartialEq, Eq)]
pub struct Projection {
    width: u32,
    height: u32,
    fovy: i64,
    znear: i64,
    zfar: i64,
}

impl View for Projection {
    type V = ProjectionView;

    closed spec fn view(&self) -> ProjectionView {
        ProjectionView {
            width: self.width as nat,
            height: self.height as nat,
            fovy: self.fovy as int,
            znear: self.znear as int,
            zfar: self.zfar as int,
        }
    }
}

impl Projection {
    #[verifier::type_invariant]
    spec fn inv(self) -> bool {
        planes_in_order(self.znear as int, self.zfar as int)
    }

    /// The view of the projection a camera starts with.
    pub open spec fn default_view() -> ProjectionView {
        ProjectionView {
            width: DEFAULT_WIDTH as nat,
            height: DEFAULT_HEIGHT as nat,
            fovy: DEFAULT_FOVY as int,
            znear: DEFAULT_ZNEAR as int,
            zfar: DEFAULT_ZFAR as int,
        }
    }

    /// A projection for a drawable of `width` by `height` pixels, or nothing
    /// where the planes are out of order.
    pub fn new(width: u32, height: u32, fovy: i64, znear: i64, zfar: i64) -> (r: Option<
        Projection,
    >)
        ensures
            r is Some <==> planes_in_order(znear as int, zfar as int),
            r matches Some(p) ==> p@ == (ProjectionView {
                width: width as nat,
                height: height as nat,
                fovy: fovy as int,
                znear: znear as int,
                zfar: zfar as int,
            }),
    {
        if 0 < znear && znear < zfar {
            Some(Projection { width, height, fovy, znear, zfar })
        } else {
            None
        }
    }

    /// The projection with the aspect ratio of a drawable of `width` by
    /// `height` pixels, its field of view and planes as they are.
    pub closed spec fn spec_resized(self, width: u32, height: u32) -> Projection {
        Projection { width, height, fovy: self.fovy, znear: self.znear, zfar: self.zfar }
    }

    /// What a resized projection holds.
    pub broadcast proof fn lemma_resized_view(self, width: u32, height: u32)
        ensures
            (#[trigger] self.spec_resized(width, height))@ == (ProjectionView {
                width: width as nat,
                height: height as nat,
                fovy: self@.fovy,
                znear: self@.znear,
                zfar: self@.zfar,
            }),
    {
    }

    /// Takes the aspect ratio of a drawable of `width` by `height` pixels.
    /// Field of view and planes stay.
    pub fn resize(&mut self, width: u32, height: u32)
        ensures
            *final(self) == old(self).spec_resized(width, height),
            final(self)@ == (ProjectionView {
                width: width as nat,
                height: height as nat,
                fovy: old(self)@.fovy,
                znear: old(self)@.znear,
                zfar: old(self)@.zfar,
            }),
    {
        proof {
            use_type_invariant(&*self);
        }
        self.width = width;
        self.height = height;
    }

    #[verifier::when_used_as_spec(spec_resized)]
    pub fn resized(self, width: u32, height: u32) -> (r: Projection)
        ensures
            r == self.spec_resized(width, height),
            r@ == (ProjectionView {
                width: width as nat,
                height: height as nat,
                fovy: self@.fovy,
                znear: self@.znear,
                zfar: self@.zfar,
            }),
    {
        proof {
            use_type_invariant(&self);
        }
        Projection { width, height, fovy: self.fovy, znear: self.znear, zfar: self.zfar }
    }

    pub fn width(&self) -> (r: u32)
        ensures
            r == self@.width,
    {
        self.width
    }

    pub fn height(&self) -> (r: u32)
        ensures
            r == self@.height,
    {
        self.height
    }

    pub fn fovy(&self) -> (r: i64)
        ensures
            r == self@.fovy,
    {
        self.fovy
    }

    pub fn znear(&self) -> (r: i64)
        ensures
            r == self@.znear,
            planes_in_order(self@.znear, self@.zfar),
    {
        proof {
            use_type_invariant(self);
        }
        self.znear
    }

    pub fn zfar(&self) -> (r: i64)
        ensures
            r == self@.zfar,
            planes_in_order(self@.znear, self@.zfar),
    {
        proof {
            use_type_invariant(self);
        }
        self.zfar
    }
}

impl Default for Projection {
    fn default() -> (r: Projection)
        ensures
            r@ == Projection::default_view(),
    {
        Projection {
            width: DEFAULT_WIDTH,
            height: DEFAULT_HEIGHT,
            fovy: DEFAULT_FOVY,
            znear: DEFAULT_ZNEAR,
            zfar: DEFAULT_ZFAR,
        }
    }
}

/// A camera without roll. Yaw turns about the vertical axis, pitch about
/// the camera's own right axis; both are in microradians and neither is
/// wrapped or clamped.
#[derive(Clone, Copy, Debug, PartialEq, Eq)]
pub struct Camera {
    pub position: Vec3,
    pub yaw: i64,
    pub pitch: i64,
    pub projection: Projection,
}

impl Camera {
    /// The camera moved by `delta`, looking as before.
    pub open spec fn spec_translate(self, delta: Vec3) -> Camera {
        Camera {
            position: self.position.plus(delta),
            yaw: self.yaw,
            pitch: self.pitch,
            projection: self.projection,
        }
    }

    /// The camera at the origin of the world, looking as before.
    pub open spec fn spec_at_origin(self) -> Camera {
        Camera {
            position: Vec3::zero(),
            yaw: self.yaw,
            pitch: self.pitch,
            projection: self.projection,
        }
    }

    /// The camera turned by the given angles, standing where it stood.
    pub open spec fn spec_turned(self, yaw: i64, pitch: i64) -> Camera {
        Camera {
            position: self.position,
            yaw: clamp_i64(self.yaw + yaw) as i64,
            pitch: clamp_i64(self.pitch + pitch) as i64,
            projection: self.projection,
        }
    }

    /// A camera at the origin that looks along the first axis.
    pub fn new(projection: Projection) -> (r: Camera)
        ensures
            r == (Camera { position: Vec3::zero(), yaw: 0, pitch: 0, projection }),
    {
        Camera { position: Vec3::zero(), yaw: 0, pitch: 0, projection }
    }

    #[verifier::when_used_as_spec(spec_translate)]
    pub fn translate(self, delta: Vec3) -> (r: Camera)
        ensures
            r == self.spec_translate(delta),
    {
        Camera {
            position: self.position.plus(delta),
            yaw: self.yaw,
            pitch: self.pitch,
            projection: self.projection,
        }
    }

    #[verifier::when_used_as_spec(spec_at_origin)]
    pub fn at_origin(self) -> (r: Camera)
        ensures
            r == self.spec_at_origin(),
    {
        Camera {
            position: Vec3::zero(),
            yaw: self.yaw,
            pitch: self.pitch,
            projection: self.projection,
        }
    }

    #[verifier::when_used_as_spec(spec_turned)]
    pub fn turned(self, yaw: i64, pitch: i64) -> (r: Camera)
        ensures
            r == self.spec_turned(yaw, pitch),
    {
        Camera {
            position: self.position,
            yaw: saturating_sum(self.yaw, yaw),
            pitch: saturating_sum(self.pitch, pitch),
            projection: self.projection,
        }
    }
}

/// How far the squared length of a heading may lie from one, in millionths
/// of millionths: what rounding a cosine and a sine to parts per million
/// can cost.
pub const HEADING_SLACK: i64 = 2_000_000;

/// The squared length is one, as nearly as a heading can tell.
pub open spec fn nearly_one(length_squared: int) -> bool {
    MICRO_SQUARED - HEADING_SLACK <= length_squared <= MICRO_SQUARED + HEADING_SLACK
}

/// What a heading holds: the cosine and the sine of a yaw angle, in parts
/// per million.
pub struct HeadingView {
    pub cos: int,
    pub sin: int,
}

impl HeadingView {
    /// The squared length of the direction, in millionths of millionths.
    pub open spec fn norm_squared(self) -> int {
        self.cos * self.cos + self.sin * self.sin
    }

    /// The two numbers are the cosine and the sine of one angle: the
    /// direction they give has length one.
    pub open spec fn is_direction(self) -> bool {
        &&& -2 * MICRO <= self.cos <= 2 * MICRO
        &&& -2 * MICRO <= self.sin <= 2 * MICRO
        &&& nearly_one(self.norm_squared())
    }

    /// The way the camera walks forward: along the heading, level.
    pub open spec fn forward(self) -> Vec3 {
        Vec3 { x: self.cos as i64, y: 0, z: self.sin as i64 }
    }

    /// The way the camera steps to its right: a quarter turn from forward,
    /// level.
    pub open spec fn right(self) -> Vec3 {
        Vec3 { x: (-self.sin) as i64, y: 0, z: self.cos as i64 }
    }
}

/// The direction of a yaw angle in the horizontal plane. Pitch has no part
/// in it.
#[derive(Clone, Copy, Debug, PartialEq, Eq)]
pub struct Heading {
    cos: i32,
    sin: i32,
}

impl View for Heading {
    type V = HeadingView;

    closed spec fn view(&self) -> HeadingView {
        HeadingView { cos: self.cos as int, sin: self.sin as int }
    }
}

impl Heading {
    #[verifier::type_invariant]
    spec fn inv(self) -> bool {
        self@.is_direction()
    }

    /// The heading of the given cosine and sine, or nothing where the two
    /// are not the cosine and the sine of one angle.
    pub fn new(cos: i32, sin: i32) -> (r: Option<Heading>)
        ensures
            r is Some <==> (HeadingView { cos: cos as int, sin: sin as int }).is_direction(),
            r matches Some(h) ==> h@ == (HeadingView { cos: cos as int, sin: sin as int }),
    {
        let n: i128 = square(cos) + square(sin);
        let one: i128 = MICRO_SQUARED as i128;
        let slack: i128 = HEADING_SLACK as i128;
        if -2_000_000 <= cos && cos <= 2_000_000 && -2_000_000 <= sin && sin <= 2_000_000 && one
            - slack <= n && n <= one + slack {
            Some(Heading { cos, sin })
        } else {
            None
        }
    }

    /// The heading of yaw zero: along the first axis.
    pub fn ahead() -> (r: Heading)
        ensures
            r@ == (HeadingView { cos: MICRO as int, sin: 0 }),
    {
        Heading { cos: 1_000_000, sin: 0 }
    }

    pub fn cos(&self) -> (r: i32)
        ensures
            r == self@.cos,
            self@.is_direction(),
    {
        proof {
            use_type_invariant(self);
        }
        self.cos
    }

    pub fn sin(&self) -> (r: i32)
        ensures
            r == self@.sin,
            self@.is_direction(),
    {
        proof {
            use_type_invariant(self);
        }
        self.sin
    }

    /// The way the camera walks forward.
    pub fn forward(&self) -> (r: Vec3)
        ensures
            r == self@.forward(),
            self@.is_direction(),
    {
        proof {
            use_type_invariant(self);
        }
        Vec3 { x: self.cos as i64, y: 0, z: self.sin as i64 }
    }

    /// The way the camera steps to its right.
    pub fn right(&self) -> (r: Vec3)
        ensures
            r == self@.right(),
            self@.is_direction(),
    {
        proof {
            use_type_invariant(self);
        }
        Vec3 { x: -(self.sin as i64), y: 0, z: self.cos as i64 }
    }
}

/// Forward and right lie in the horizontal plane, are perpendicular, and
/// are each as long as the heading they come from, which is of length one:
/// exactly where the heading's cosine and sine are exact, and else as
/// nearly as parts per million can tell.
pub proof fn lemma_basis_orthonormal(h: HeadingView)
    requires
        h.is_direction(),
    ensures
        h.forward().y == 0,
        h.right().y == 0,
        h.forward().dot(h.right()) == 0,
        h.forward().norm_squared() == h.norm_squared(),
        h.right().norm_squared() == h.norm_squared(),
        nearly_one(h.forward().norm_squared()),
        nearly_one(h.right().norm_squared()),
        h.norm_squared() == MICRO_SQUARED ==> h.forward().norm_squared() == MICRO_SQUARED
            && h.right().norm_squared() == MICRO_SQUARED,
{
    let c = h.cos;
    let s = h.sin;
    assert(c * (-s) + s * c == 0) by (nonlinear_arith);
    assert((-s) * (-s) == s * s) by (nonlinear_arith);
    assert(h.forward().dot(h.right()) == c * (-s) + 0 * 0 + s * c);
    assert(h.forward().norm_squared() == c * c + 0 * 0 + s * s);
    assert(h.right().norm_squared() == (-s) * (-s) + 0 * 0 + c * c);
}

/// Two camera translations in a row are one translation by the sum, as
/// long as no sum leaves the range of a coordinate; where the camera looks
/// and its projection are what they were.
pub proof fn lemma_camera_translate_composes(c: Camera, d1: Vec3, d2: Vec3)
    requires
        c.position.sum_in_range(d1),
        d1.sum_in_range(d2),
        c.position.plus(d1).sum_in_range(d2),
    ensures
        c.translate(d1).translate(d2) == c.translate(d1.plus(d2)),
        c.translate(d1).translate(d2).yaw == c.yaw,
        c.translate(d1).translate(d2).pitch == c.pitch,
        c.translate(d1).translate(d2).projection == c.projection,
{
    lemma_plus_composes(c.position, d1, d2);
}

} // verus!
