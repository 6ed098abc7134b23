use cinicide::camera::Camera;
use cinicide::camera::Heading;
use cinicide::camera::Projection;
use cinicide::controller::advanced;
use cinicide::controller::looked;
use cinicide::controller::moved;
use cinicide::controller::Pointer;
use cinicide::controller::RenderMode;
use cinicide::controller::Style;
use cinicide::controller::CLIMB_SPEED;
use cinicide::controller::LOOK_RATE;
use cinicide::controller::WALK_SPEED;
use cinicide::keys::Controls;
use cinicide::vector::Vec3;
use ggez::input::keyboard::KeyCode;
use ggez::input::keyboard::KeyboardContext;
use ggez::winit::keyboard::PhysicalKey;

fn ahead() -> Heading {
    Heading::ahead()
}

fn heading(cos: i32, sin: i32) -> Heading {
    Heading::new(cos, sin).unwrap()
}
const TENTH_OF_A_SECOND: u32 = 100_000;

fn camera() -> Camera {
    Camera::new(Projection::default())
}

fn press(keyboard: &mut KeyboardContext, code: KeyCode) {
    keyboard.pressed_physical_keys.insert(PhysicalKey::Code(code));
}

fn release(keyboard: &mut KeyboardContext, code: KeyCode) {
    keyboard.pressed_physical_keys.remove(&PhysicalKey::Code(code));
}

fn holding(codes: &[KeyCode]) -> Controls {
    let mut keyboard = KeyboardContext::new();
    for code in codes {
        press(&mut keyboard, *code);
    }
    keyboard.save_keyboard_state();
    Controls::read(&keyboard)
}

#[test]
fn speeds_and_rates() {
    assert_eq!(WALK_SPEED, 15_000_000);
    assert_eq!(CLIMB_SPEED, 10_000_000);
    assert_eq!(LOOK_RATE, (50.0f64.to_radians() * 1e6).round() as i64);
}

#[test]
fn idle_keyboard_asks_nothing() {
    assert_eq!(Controls::read(&KeyboardContext::new()), Controls::idle());
}

#[test]
fn each_key_asks_its_own_thing() {
    let idle = Controls::idle();
    assert_eq!(holding(&[KeyCode::KeyW]), Controls { forward: true, ..idle });
    assert_eq!(holding(&[KeyCode::KeyS]), Controls { back: true, ..idle });
    assert_eq!(holding(&[KeyCode::KeyA]), Controls { left: true, ..idle });
    assert_eq!(holding(&[KeyCode::KeyD]), Controls { right: true, ..idle });
    assert_eq!(holding(&[KeyCode::Space]), Controls { up: true, ..idle });
    assert_eq!(holding(&[KeyCode::KeyC]), Controls { down: true, ..idle });
    assert_eq!(holding(&[KeyCode::ArrowLeft]), Controls { look_left: true, ..idle });
    assert_eq!(holding(&[KeyCode::ArrowRight]), Controls { look_right: true, ..idle });
    assert_eq!(holding(&[KeyCode::ArrowUp]), Controls { look_up: true, ..idle });
    assert_eq!(holding(&[KeyCode::ArrowDown]), Controls { look_down: true, ..idle });
    assert_eq!(holding(&[KeyCode::KeyQ, KeyCode::Enter]), idle);
}

#[test]
fn held_toggle_keys_ask_nothing() {
    assert_eq!(holding(&[KeyCode::KeyK, KeyCode::KeyL]), Controls::idle());
}

#[test]
fn toggle_keys_ask_once_when_they_go_down() {
    let mut keyboard = KeyboardContext::new();
    press(&mut keyboard, KeyCode::KeyK);
    assert_eq!(Controls::read(&keyboard), Controls { toggle_style: true, ..Controls::idle() });
    press(&mut keyboard, KeyCode::KeyL);
    assert_eq!(
        Controls::read(&keyboard),
        Controls { toggle_style: true, toggle_filter: true, ..Controls::idle() }
    );
    keyboard.save_keyboard_state();
    assert_eq!(Controls::read(&keyboard), Controls::idle());
}

#[test]
fn movement_keys_ask_as_long_as_they_are_held() {
    let mut keyboard = KeyboardContext::new();
    press(&mut keyboard, KeyCode::KeyW);
    press(&mut keyboard, KeyCode::Space);
    let asked = Controls { forward: true, up: true, ..Controls::idle() };
    for _ in 0..4 {
        assert_eq!(Controls::read(&keyboard), asked);
        keyboard.save_keyboard_state();
    }
    release(&mut keyboard, KeyCode::KeyW);
    assert_eq!(Controls::read(&keyboard), Controls { up: true, ..Controls::idle() });
}

#[test]
fn key_held_for_many_frames_flips_the_style_once() {
    let start = RenderMode { style: Style::Retro, post_filter: true };
    for frames in 1..8 {
        let mut keyboard = KeyboardContext::new();
        let mut mode = start;
        press(&mut keyboard, KeyCode::KeyK);
        for _ in 0..frames {
            mode = mode.toggled(Controls::read(&keyboard));
            keyboard.save_keyboard_state();
        }
        assert_eq!(mode, RenderMode { style: Style::Default, post_filter: true });
    }
}

#[test]
fn key_pressed_again_flips_the_filter_back() {
    let mut keyboard = KeyboardContext::new();
    let mut mode = RenderMode { style: Style::Retro, post_filter: true };
    let mut seen = vec![];
    for frame in 0..9 {
        if frame == 1 || frame == 6 {
            press(&mut keyboard, KeyCode::KeyL);
        }
        if frame == 4 {
            release(&mut keyboard, KeyCode::KeyL);
        }
        mode = mode.toggled(Controls::read(&keyboard));
        keyboard.save_keyboard_state();
        seen.push(mode.post_filter);
    }
    assert_eq!(seen, vec![true, false, false, false, false, false, true, true, true]);
    assert_eq!(mode.style, Style::Retro);
}

#[test]
fn styles_flip_to_each_other() {
    assert_eq!(Style::Retro.flipped(), Style::Default);
    assert_eq!(Style::Default.flipped(), Style::Retro);
    let mode = RenderMode { style: Style::Default, post_filter: false };
    assert_eq!(mode.toggled(Controls::idle()), mode);
    assert_eq!(
        mode.toggled(Controls { toggle_style: true, ..Controls::idle() }),
        RenderMode { style: Style::Retro, post_filter: false }
    );
    assert_eq!(
        mode.toggled(Controls { toggle_filter: true, ..Controls::idle() }),
        RenderMode { style: Style::Default, post_filter: true }
    );
}

#[test]
fn forward_key_walks_one_and_a_half_units_in_a_tenth_of_a_second() {
    let after = moved(camera(), holding(&[KeyCode::KeyW]), ahead(), TENTH_OF_A_SECOND);
    assert_eq!(after.position, Vec3 { x: 1_500_000, y: 0, z: 0 });
    assert_eq!((after.yaw, after.pitch), (0, 0));
}

#[test]
fn walking_follows_the_heading() {
    let heading = heading(600_000, -800_000);
    let start = camera().translate(Vec3 { x: 1, y: 2, z: 3 });
    let forward = moved(start, holding(&[KeyCode::KeyW]), heading, TENTH_OF_A_SECOND);
    assert_eq!(forward.position, Vec3 { x: 900_001, y: 2, z: -1_199_997 });
    let back = moved(start, holding(&[KeyCode::KeyS]), heading, TENTH_OF_A_SECOND);
    assert_eq!(back.position, Vec3 { x: -899_999, y: 2, z: 1_200_003 });
    let right = moved(start, holding(&[KeyCode::KeyD]), heading, TENTH_OF_A_SECOND);
    assert_eq!(right.position, Vec3 { x: 1_200_001, y: 2, z: 900_003 });
    let left = moved(start, holding(&[KeyCode::KeyA]), heading, TENTH_OF_A_SECOND);
    assert_eq!(left.position, Vec3 { x: -1_199_999, y: 2, z: -899_997 });
}

#[test]
fn climbing_is_straight_up_and_down() {
    let up = moved(camera(), holding(&[KeyCode::Space]), ahead(), TENTH_OF_A_SECOND);
    assert_eq!(up.position, Vec3 { x: 0, y: 1_000_000, z: 0 });
    let down = moved(camera(), holding(&[KeyCode::KeyC]), ahead(), TENTH_OF_A_SECOND);
    assert_eq!(down.position, Vec3 { x: 0, y: -1_000_000, z: 0 });
}

#[test]
fn opposite_keys_cancel() {
    let keys = [
        KeyCode::KeyW,
        KeyCode::KeyS,
        KeyCode::KeyA,
        KeyCode::KeyD,
        KeyCode::Space,
        KeyCode::KeyC,
        KeyCode::ArrowLeft,
        KeyCode::ArrowRight,
        KeyCode::ArrowUp,
        KeyCode::ArrowDown,
    ];
    let heading = heading(707_107, 707_107);
    let start = camera().translate(Vec3 { x: -40, y: 50, z: 60 }).turned(7, -9);
    assert_eq!(advanced(start, holding(&keys), heading, 16_667, None), start);
}

#[test]
fn pitch_does_not_change_where_the_camera_walks() {
    let level = camera();
    let looking_up = camera().turned(0, 1_400_000);
    let keys = holding(&[KeyCode::KeyW, KeyCode::KeyD]);
    let heading = heading(0, 1_000_000);
    assert_eq!(
        moved(level, keys, heading, 250_000).position,
        moved(looking_up, keys, heading, 250_000).position
    );
    assert_eq!(moved(looking_up, keys, heading, 250_000).position.y, 0);
    assert_eq!(moved(looking_up, keys, heading, 250_000).pitch, 1_400_000);
}

#[test]
fn look_keys_turn_at_fifty_degrees_a_second() {
    let second = 1_000_000;
    let right = looked(camera(), holding(&[KeyCode::ArrowRight]), second, None);
    assert_eq!((right.yaw, right.pitch), (872_665, 0));
    let left = looked(camera(), holding(&[KeyCode::ArrowLeft]), second, None);
    assert_eq!((left.yaw, left.pitch), (-872_665, 0));
    let up = looked(camera(), holding(&[KeyCode::ArrowUp]), second, None);
    assert_eq!((up.yaw, up.pitch), (0, 872_665));
    let down = looked(camera(), holding(&[KeyCode::ArrowDown]), second, None);
    assert_eq!((down.yaw, down.pitch), (0, -872_665));
    let frame = looked(camera(), holding(&[KeyCode::ArrowRight]), 16_667, None);
    assert_eq!(frame.yaw, 14_544);
    assert_eq!(right.position, camera().position);
}

#[test]
fn pointer_turns_at_half_a_radian_a_count_and_second() {
    let pointer = Pointer { dx: 10_000_000, dy: 4_000_000 };
    let after = looked(camera(), Controls::idle(), 16_000, Some(pointer));
    assert_eq!(after.yaw, 80_000);
    assert_eq!(after.pitch, -32_000);
    let back = looked(after, Controls::idle(), 16_000, Some(Pointer { dx: -10_000_000, dy: -4_000_000 }));
    assert_eq!((back.yaw, back.pitch), (0, 0));
    let small = looked(camera(), Controls::idle(), 1, Some(Pointer { dx: 3_999_999, dy: -3_999_999 }));
    assert_eq!((small.yaw, small.pitch), (1, 1));
}

#[test]
fn no_pointer_turns_nothing() {
    let start = camera().turned(5, 6);
    assert_eq!(looked(start, Controls::idle(), 16_000, None), start);
    assert_eq!(
        looked(start, Controls::idle(), 16_000, Some(Pointer { dx: 0, dy: 0 })),
        start
    );
}

#[test]
fn pitch_is_not_clamped() {
    // Looking up for long enough carries the pitch past a quarter turn and
    // the view over the top: the angle is kept as it is.
    let quarter_turn = (std::f64::consts::FRAC_PI_2 * 1e6) as i64;
    let mut cam = camera();
    for _ in 0..3 {
        cam = looked(cam, holding(&[KeyCode::ArrowUp]), 1_000_000, None);
    }
    assert_eq!(cam.pitch, 3 * 872_665);
    assert!(cam.pitch > quarter_turn);
}

#[test]
fn yaw_is_not_wrapped() {
    let mut cam = camera();
    for _ in 0..10 {
        cam = looked(cam, holding(&[KeyCode::ArrowLeft]), 1_000_000, None);
    }
    assert_eq!(cam.yaw, -8_726_650);
    assert!(cam.yaw < -(std::f64::consts::TAU * 1e6) as i64);
}

#[test]
fn a_frame_of_no_time_moves_nothing() {
    let all = holding(&[KeyCode::KeyW, KeyCode::KeyD, KeyCode::Space, KeyCode::ArrowUp]);
    let pointer = Some(Pointer { dx: 1_000_000_000, dy: 1_000_000_000 });
    assert_eq!(advanced(camera(), all, ahead(), 0, pointer), camera());
}

#[test]
fn motion_saturates_at_the_edge_of_the_range() {
    let far = camera().translate(Vec3 { x: i64::MAX - 5, y: i64::MIN + 5, z: 0 });
    let after = moved(far, holding(&[KeyCode::KeyW, KeyCode::KeyC]), ahead(), u32::MAX);
    assert_eq!(after.position, Vec3 { x: i64::MAX, y: i64::MIN, z: 0 });
    let spun = looked(camera().turned(i64::MAX, 0), holding(&[KeyCode::ArrowRight]), 1_000_000, None);
    assert_eq!(spun.yaw, i64::MAX);
}

#[test]
fn camera_steps() {
    let cam = camera().translate(Vec3 { x: 1, y: 2, z: 3 }).turned(4, 5);
    assert_eq!(cam.position, Vec3 { x: 1, y: 2, z: 3 });
    assert_eq!((cam.yaw, cam.pitch), (4, 5));
    let home = cam.at_origin();
    assert_eq!(home.position, Vec3 { x: 0, y: 0, z: 0 });
    assert_eq!((home.yaw, home.pitch), (4, 5));
    assert_eq!(home.projection, cam.projection);
}
