//! From input to motion: how a frame's controls move and turn the camera,
//! and how they switch the render mode.

use crate::camera::Camera;
use crate::camera::Heading;
use crate::fixed::clamp_i64;
use crate::fixed::clamp_wide;
use crate::fixed::ratio_product;
use crate::fixed::scale_ratio;
use crate::fixed::MICRO;
use crate::keys::Controls;
use crate::keys::Key;
use crate::vector::Vec3;
use vstd::prelude::*;

verus! {

/// Walking speed: fifteen units a second.
pub const WALK_SPEED: i64 = 15_000_000;

/// Speed of rising and sinking: ten units a second.
pub const CLIMB_SPEED: i64 = 10_000_000;

/// Turning rate of the look keys: fifty degrees a second, in microradians.
pub const LOOK_RATE: i64 = 872_665;

/// Pointer sensitivity, as a divisor: a count of pointer motion turns the
/// camera at half a radian a second.
pub const POINTER_DIVISOR: i64 = 2_000_000;

/// Raw pointer motion since the last frame, in millionths of a count.
#[derive(Clone, Copy, Debug, PartialEq, Eq, Structural)]
pub struct Pointer {
    pub dx: i64,
    pub dy: i64,
}

/// The way made at `speed` (millionths a second) in `dt_us` microseconds.
pub open spec fn travel(speed: i64, dt_us: u32) -> i64 {
    ratio_product(speed as int, dt_us as int, MICRO as int) as i64
}

/// The angle that `delta` millionths of a count of pointer motion turn the
/// camera by in `dt_us` microseconds.
pub open spec fn pointer_turn(delta: i64, dt_us: u32) -> i64 {
    ratio_product(delta as int, dt_us as int, POINTER_DIVISOR as int) as i64
}

/// What a pair of opposite keys asks for: `amount` where the first alone is
/// held, its opposite where the second alone is held, and nothing where
/// both are held or neither.
pub open spec fn along(plus: bool, minus: bool, amount: int) -> int {
    if plus && !minus {
        amount
    } else if minus && !plus {
        -amount
    } else {
        0
    }
}

/// The displacement of one frame of walking forward.
pub open spec fn forward_step(heading: Heading, dt_us: u32) -> Vec3 {
    heading@.forward().scaled(travel(WALK_SPEED, dt_us))
}

/// The displacement of one frame of stepping to the right.
pub open spec fn right_step(heading: Heading, dt_us: u32) -> Vec3 {
    heading@.right().scaled(travel(WALK_SPEED, dt_us))
}

/// A displacement whose components may lie outside the range of a
/// coordinate.
pub struct Displacement {
    pub x: int,
    pub y: int,
    pub z: int,
}

/// The displacement that the movement keys of one frame ask for: forward
/// and back along the heading, right and left across it, up and down along
/// the vertical axis. Yaw enters through `heading` alone and pitch not at
/// all, so walking stays level wherever the camera looks.
pub open spec fn displacement(controls: Controls, heading: Heading, dt_us: u32) -> Displacement {
    let forward = forward_step(heading, dt_us);
    let right = right_step(heading, dt_us);
    Displacement {
        x: along(controls.forward, controls.back, forward.x as int) + along(
            controls.right,
            controls.left,
            right.x as int,
        ),
        y: along(controls.up, controls.down, travel(CLIMB_SPEED, dt_us) as int),
        z: along(controls.forward, controls.back, forward.z as int) + along(
            controls.right,
            controls.left,
            right.z as int,
        ),
    }
}

/// The camera after the movement keys of one frame: moved by what they ask
/// for, each coordinate saturating, and looking as before.
pub open spec fn spec_moved(camera: Camera, controls: Controls, heading: Heading, dt_us: u32) -> Camera {
    let d = displacement(controls, heading, dt_us);
    Camera {
        position: Vec3 {
            x: clamp_i64(camera.position.x + d.x) as i64,
            y: clamp_i64(camera.position.y + d.y) as i64,
            z: clamp_i64(camera.position.z + d.z) as i64,
        },
        yaw: camera.yaw,
        pitch: camera.pitch,
        projection: camera.projection,
    }
}

/// The yaw that one frame adds: the look keys at their rate, and the
/// pointer's motion to the right.
pub open spec fn yaw_turn(controls: Controls, dt_us: u32, pointer: Option<Pointer>) -> int {
    along(controls.look_right, controls.look_left, travel(LOOK_RATE, dt_us) as int) + match pointer {
        Some(p) => pointer_turn(p.dx, dt_us) as int,
        None => 0,
    }
}

/// The pitch that one frame adds: the look keys at their rate, and the
/// pointer's motion upward, which is its motion downward inverted.
pub open spec fn pitch_turn(controls: Controls, dt_us: u32, pointer: Option<Pointer>) -> int {
    along(controls.look_up, controls.look_down, travel(LOOK_RATE, dt_us) as int) - match pointer {
        Some(p) => pointer_turn(p.dy, dt_us) as int,
        None => 0,
    }
}

/// The camera after the look keys and the pointer of one frame: turned by
/// what they ask for, standing where it stood. Yaw and pitch are neither
/// wrapped nor clamped to a range of angles; they saturate at the ends of
/// the `i64` range.
pub open spec fn spec_looked(
    camera: Camera,
    controls: Controls,
    dt_us: u32,
    pointer: Option<Pointer>,
) -> Camera {
    Camera {
        position: camera.position,
        yaw: clamp_i64(camera.yaw + yaw_turn(controls, dt_us, pointer)) as i64,
        pitch: clamp_i64(camera.pitch + pitch_turn(controls, dt_us, pointer)) as i64,
        projection: camera.projection,
    }
}

/// The camera after one frame of input.
pub open spec fn spec_advanced(
    camera: Camera,
    controls: Controls,
    heading: Heading,
    dt_us: u32,
    pointer: Option<Pointer>,
) -> Camera {
    spec_looked(spec_moved(camera, controls, heading, dt_us), controls, dt_us, pointer)
}

/// `amount` along the axis of a pair of opposite keys.
fn along_axis(plus: bool, minus: bool, amount: i64) -> (r: i128)
    ensures
        r == along(plus, minus, amount as int),
{
    if plus && !minus {
        amount as i128
    } else if minus && !plus {
        -(amount as i128)
    } else {
        0
    }
}

/// Moves the camera as the held movement keys ask.
#[verifier::when_used_as_spec(spec_moved)]
pub fn moved(camera: Camera, controls: Controls, heading: Heading, dt_us: u32) -> (r: Camera)
    ensures
        r == spec_moved(camera, controls, heading, dt_us),
{
    let walk = scale_ratio(WALK_SPEED, dt_us, MICRO);
    let climb = scale_ratio(CLIMB_SPEED, dt_us, MICRO);
    let forward = heading.forward().scaled(walk);
    let right = heading.right().scaled(walk);
    let x: i128 = along_axis(controls.forward, controls.back, forward.x) + along_axis(
        controls.right,
        controls.left,
        right.x,
    );
    let y: i128 = along_axis(controls.up, controls.down, climb);
    let z: i128 = along_axis(controls.forward, controls.back, forward.z) + along_axis(
        controls.right,
        controls.left,
        right.z,
    );
    Camera {
        position: Vec3 {
            x: clamp_wide(camera.position.x as i128 + x),
            y: clamp_wide(camera.position.y as i128 + y),
            z: clamp_wide(camera.position.z as i128 + z),
        },
        yaw: camera.yaw,
        pitch: camera.pitch,
        projection: camera.projection,
    }
}

/// Turns the camera as the held look keys and the pointer ask.
#[verifier::when_used_as_spec(spec_looked)]
pub fn looked(camera: Camera, controls: Controls, dt_us: u32, pointer: Option<Pointer>) -> (r:
    Camera)
    ensures
        r == spec_looked(camera, controls, dt_us, pointer),
{
    let angle = scale_ratio(LOOK_RATE, dt_us, MICRO);
    let (right, down): (i128, i128) = match pointer {
        Some(p) => (
            scale_ratio(p.dx, dt_us, POINTER_DIVISOR) as i128,
            scale_ratio(p.dy, dt_us, POINTER_DIVISOR) as i128,
        ),
        None => (0, 0),
    };
    let yaw: i128 = along_axis(controls.look_right, controls.look_left, angle) + right;
    let pitch: i128 = along_axis(controls.look_up, controls.look_down, angle) - down;
    Camera {
        position: camera.position,
        yaw: clamp_wide(camera.yaw as i128 + yaw),
        pitch: clamp_wide(camera.pitch as i128 + pitch),
        projection: camera.projection,
    }
}

/// Moves and turns the camera by one frame of input.
#[verifier::when_used_as_spec(spec_advanced)]
pub fn advanced(
    camera: Camera,
    controls: Controls,
    heading: Heading,
    dt_us: u32,
    pointer: Option<Pointer>,
) -> (r: Camera)
    ensures
        r == spec_advanced(camera, controls, heading, dt_us, pointer),
{
    looked(moved(camera, controls, heading, dt_us), controls, dt_us, pointer)
}

/// The look of the three-dimensional passes.
#[derive(Clone, Copy, Debug, PartialEq, Eq, Structural)]
pub enum Style {
    /// The look of an early console: low colour depth.
    Retro,
    /// The plain look.
    Default,
}

impl Style {
    pub open spec fn spec_flipped(self) -> Style {
        match self {
            Style::Retro => Style::Default,
            Style::Default => Style::Retro,
        }
    }

    /// The other style.
    #[verifier::when_used_as_spec(spec_flipped)]
    pub fn flipped(self) -> (r: Style)
        ensures
            r == self.spec_flipped(),
    {
        match self {
            Style::Retro => Style::Default,
            Style::Default => Style::Retro,
        }
    }
}

/// How a frame is rendered: the style of the three-dimensional passes, and
/// whether the finished frame goes through the screen filter.
#[derive(Clone, Copy, Debug, PartialEq, Eq, Structural)]
pub struct RenderMode {
    pub style: Style,
    pub post_filter: bool,
}

impl RenderMode {
    /// The mode after a frame: each flag flipped where its key went down in
    /// that frame.
    pub open spec fn spec_toggled(self, controls: Controls) -> RenderMode {
        RenderMode {
            style: if controls.toggle_style {
                self.style.flipped()
            } else {
                self.style
            },
            post_filter: if controls.toggle_filter {
                !self.post_filter
            } else {
                self.post_filter
            },
        }
    }

    #[verifier::when_used_as_spec(spec_toggled)]
    pub fn toggled(self, controls: Controls) -> (r: RenderMode)
        ensures
            r == self.spec_toggled(controls),
    {
        RenderMode {
            style: if controls.toggle_style {
                self.style.flipped()
            } else {
                self.style
            },
            post_filter: if controls.toggle_filter {
                !self.post_filter
            } else {
                self.post_filter
            },
        }
    }

    /// The mode after a run of frames, the first frame first.
    pub open spec fn after(self, frames: Seq<Controls>) -> RenderMode
        decreases frames.len(),
    {
        if frames.len() == 0 {
            self
        } else {
            self.after(frames.drop_last()).toggled(frames.last())
        }
    }
}

/// The controls of a run of frames: `down[i]` are the keys held in frame
/// `i`, and `before` the keys held in the frame before the first.
pub open spec fn controls_of(before: Set<Key>, down: Seq<Set<Key>>) -> Seq<Controls> {
    Seq::new(
        down.len(),
        |i: int|
            Controls::bound(
                down[i],
                if i == 0 {
                    before
                } else {
                    down[i - 1]
                },
            ),
    )
}

/// An edge-triggered key flips its flag once for a press, however long the
/// key is held: where the style key was up before the first frame of a run
/// and is down in every frame of it, the style after the run is the other
/// style, whether the run has one frame or many. The same holds of the
/// filter key and the filter flag.
pub proof fn lemma_held_key_toggles_once(mode: RenderMode, before: Set<Key>, down: Seq<Set<Key>>)
    requires
        down.len() >= 1,
    ensures
        !before.contains(Key::K) && (forall|i: int|
            0 <= i < down.len() ==> (#[trigger] down[i]).contains(Key::K)) ==> mode.after(
            controls_of(before, down),
        ).style == mode.style.flipped(),
        !before.contains(Key::L) && (forall|i: int|
            0 <= i < down.len() ==> (#[trigger] down[i]).contains(Key::L)) ==> mode.after(
            controls_of(before, down),
        ).post_filter == !mode.post_filter,
    decreases down.len(),
{
    let frames = controls_of(before, down);
    let n = down.len() as int;
    assert(frames.drop_last() =~= controls_of(before, down.drop_last()));
    if n == 1 {
        assert(frames.drop_last().len() == 0);
        assert(mode.after(frames.drop_last()) == mode);
        assert(frames.last() == Controls::bound(down[0], before));
    } else {
        lemma_held_key_toggles_once(mode, before, down.drop_last());
        assert(frames.last() == Controls::bound(down[n - 1], down[n - 2]));
        assert forall|i: int| 0 <= i < down.drop_last().len() implies (#[trigger] down.drop_last()[i])
            == down[i] by {}
    }
}

/// A frame in which neither toggle key goes down leaves the mode as it is.
pub proof fn lemma_no_edge_keeps_mode(mode: RenderMode, controls: Controls)
    requires
        !controls.toggle_style,
        !controls.toggle_filter,
    ensures
        mode.toggled(controls) == mode,
{
}

/// Walking covers fifteen units a second along the heading: with the
/// forward key alone the camera moves by the forward step, which for a
/// heading along the first axis is `15 * dt_us` millionths along that axis.
pub proof fn lemma_walk_forward(camera: Camera, controls: Controls, heading: Heading, dt_us: u32)
    requires
        controls.forward,
        !controls.back,
        !controls.left,
        !controls.right,
        !controls.up,
        !controls.down,
    ensures
        travel(WALK_SPEED, dt_us) == 15 * dt_us,
        spec_moved(camera, controls, heading, dt_us) == camera.translate(
            forward_step(heading, dt_us),
        ),
        heading@.cos == MICRO && heading@.sin == 0 ==> forward_step(heading, dt_us) == (Vec3 {
            x: (15 * dt_us) as i64,
            y: 0,
            z: 0,
        }),
{
    assert(travel(WALK_SPEED, dt_us) == 15 * dt_us);
}

/// Opposite keys cancel: a frame in which each movement key and each look
/// key is held together with its opposite, and the pointer rests, leaves
/// the camera as it is.
pub proof fn lemma_opposite_keys_cancel(
    camera: Camera,
    controls: Controls,
    heading: Heading,
    dt_us: u32,
)
    requires
        controls.forward == controls.back,
        controls.left == controls.right,
        controls.up == controls.down,
        controls.look_left == controls.look_right,
        controls.look_up == controls.look_down,
    ensures
        spec_advanced(camera, controls, heading, dt_us, None) == camera,
{
}

/// Walking is level: unless the up key or the down key is held alone, a
/// frame leaves the camera's height as it is, wherever the camera looks.
pub proof fn lemma_walking_is_level(
    camera: Camera,
    controls: Controls,
    heading: Heading,
    dt_us: u32,
)
    requires
        controls.up == controls.down,
    ensures
        spec_moved(camera, controls, heading, dt_us).position.y == camera.position.y,
{
}

/// Pitch only affects looking: two cameras that differ in pitch alone are
/// moved to the same place.
pub proof fn lemma_movement_ignores_pitch(
    camera: Camera,
    pitch: i64,
    controls: Controls,
    heading: Heading,
    dt_us: u32,
)
    ensures
        spec_moved(
            Camera {
                position: camera.position,
                yaw: camera.yaw,
                pitch,
                projection: camera.projection,
            },
            controls,
            heading,
            dt_us,
        ).position == spec_moved(camera, controls, heading, dt_us).position,
{
}

} // verus!
