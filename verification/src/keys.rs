//! The keyboard, read key by key, and what the keys ask of a frame.
//!
//! The keyboard state is ggez's `KeyboardContext`. It is opaque here: the
//! two functions that read it are trusted to do what their contracts say,
//! and everything built on them is proved from those contracts.

use ggez::input::keyboard::KeyCode;
use ggez::input::keyboard::KeyboardContext;
use ggez::winit::keyboard::PhysicalKey;
use vstd::prelude::*;

verus! {

/// The physical keys the viewer listens to.
#[derive(Clone, Copy, Debug, PartialEq, Eq, Structural)]
pub enum Key {
    W,
    A,
    S,
    D,
    Space,
    C,
    K,
    L,
    ArrowLeft,
    ArrowRight,
    ArrowUp,
    ArrowDown,
}

/// Makes `ggez::input::keyboard::KeyboardContext` known to the verifier,
/// without its fields.
#[verifier::external_type_specification]
#[verifier::external_body]
pub struct ExKeyboardContext(KeyboardContext);

/// The keys that are down: those whose key code is among the physical keys
/// that the keyboard state holds as pressed.
pub uninterp spec fn keys_down(kb: KeyboardContext) -> Set<Key>;

/// The keys that were down a frame ago: those whose key code is among the
/// physical keys that the keyboard state holds as pressed before. The
/// keyboard state takes the pressed keys over as the keys pressed before
/// whenever it is saved, which ggez's event loop does at the end of every
/// frame.
pub uninterp spec fn keys_down_before(kb: KeyboardContext) -> Set<Key>;

/// Calls `KeyboardContext::is_physical_key_pressed` with the key code of
/// the same name. Not proved: that the call tells whether that key code is
/// among the pressed physical keys, which is what its source does.
#[verifier::external_body]
fn is_key_pressed(kb: &KeyboardContext, key: Key) -> (r: bool)
    ensures
        r == keys_down(*kb).contains(key),
{
    let code = match key {
        Key::W => KeyCode::KeyW,
        Key::A => KeyCode::KeyA,
        Key::S => KeyCode::KeyS,
        Key::D => KeyCode::KeyD,
        Key::Space => KeyCode::Space,
        Key::C => KeyCode::KeyC,
        Key::K => KeyCode::KeyK,
        Key::L => KeyCode::KeyL,
        Key::ArrowLeft => KeyCode::ArrowLeft,
        Key::ArrowRight => KeyCode::ArrowRight,
        Key::ArrowUp => KeyCode::ArrowUp,
        Key::ArrowDown => KeyCode::ArrowDown,
    };
    kb.is_physical_key_pressed(&PhysicalKey::Code(code))
}

/// Calls `KeyboardContext::is_physical_key_just_pressed` with the key code
/// of the same name. Not proved: that the call tells whether that key code
/// is among the pressed physical keys and not among those pressed before,
/// which is what its source does.
#[verifier::external_body]
fn is_key_just_pressed(kb: &KeyboardContext, key: Key) -> (r: bool)
    ensures
        r == (keys_down(*kb).contains(key) && !keys_down_before(*kb).contains(key)),
{
    let code = match key {
        Key::W => KeyCode::KeyW,
        Key::A => KeyCode::KeyA,
        Key::S => KeyCode::KeyS,
        Key::D => KeyCode::KeyD,
        Key::Space => KeyCode::Space,
        Key::C => KeyCode::KeyC,
        Key::K => KeyCode::KeyK,
        Key::L => KeyCode::KeyL,
        Key::ArrowLeft => KeyCode::ArrowLeft,
        Key::ArrowRight => KeyCode::ArrowRight,
        Key::ArrowUp => KeyCode::ArrowUp,
        Key::ArrowDown => KeyCode::ArrowDown,
    };
    kb.is_physical_key_just_pressed(&PhysicalKey::Code(code))
}

/// A press edge: the key is down and was not down the frame before.
pub open spec fn rising(key: Key, down: Set<Key>, before: Set<Key>) -> bool {
    down.contains(key) && !before.contains(key)
}

/// What the keyboard asks of one frame. The movement and look fields say
/// that a key is held; the two toggle fields say that a key went down in
/// this very frame.
#[derive(Clone, Copy, Debug, PartialEq, Eq, Structural)]
pub struct Controls {
    pub forward: bool,
    pub back: bool,
    pub left: bool,
    pub right: bool,
    pub up: bool,
    pub down: bool,
    pub look_left: bool,
    pub look_right: bool,
    pub look_up: bool,
    pub look_down: bool,
    pub toggle_style: bool,
    pub toggle_filter: bool,
}

impl Controls {
    /// The key bindings: what is asked when the keys `down` are held and
    /// the keys `before` were held the frame before.
    pub open spec fn bound(down: Set<Key>, before: Set<Key>) -> Controls {
        Controls {
            forward: down.contains(Key::W),
            back: down.contains(Key::S),
            left: down.contains(Key::A),
            right: down.contains(Key::D),
            up: down.contains(Key::Space),
            down: down.contains(Key::C),
            look_left: down.contains(Key::ArrowLeft),
            look_right: down.contains(Key::ArrowRight),
            look_up: down.contains(Key::ArrowUp),
            look_down: down.contains(Key::ArrowDown),
            toggle_style: rising(Key::K, down, before),
            toggle_filter: rising(Key::L, down, before),
        }
    }

    /// Nothing is asked.
    pub open spec fn spec_idle() -> Controls {
        Controls {
            forward: false,
            back: false,
            left: false,
            right: false,
            up: false,
            down: false,
            look_left: false,
            look_right: false,
            look_up: false,
            look_down: false,
            toggle_style: false,
            toggle_filter: false,
        }
    }

    #[verifier::when_used_as_spec(spec_idle)]
    pub fn idle() -> (r: Controls)
        ensures
            r == Controls::spec_idle(),
    {
        Controls {
            forward: false,
            back: false,
            left: false,
            right: false,
            up: false,
            down: false,
            look_left: false,
            look_right: false,
            look_up: false,
            look_down: false,
            toggle_style: false,
            toggle_filter: false,
        }
    }

    /// Reads from the keyboard what this frame is asked to do.
    pub fn read(kb: &KeyboardContext) -> (r: Controls)
        ensures
            r == Controls::bound(keys_down(*kb), keys_down_before(*kb)),
    {
        Controls {
            forward: is_key_pressed(kb, Key::W),
            back: is_key_pressed(kb, Key::S),
            left: is_key_pressed(kb, Key::A),
            right: is_key_pressed(kb, Key::D),
            up: is_key_pressed(kb, Key::Space),
            down: is_key_pressed(kb, Key::C),
            look_left: is_key_pressed(kb, Key::ArrowLeft),
            look_right: is_key_pressed(kb, Key::ArrowRight),
            look_up: is_key_pressed(kb, Key::ArrowUp),
            look_down: is_key_pressed(kb, Key::ArrowDown),
            toggle_style: is_key_just_pressed(kb, Key::K),
            toggle_filter: is_key_just_pressed(kb, Key::L),
        }
    }
}

} // verus!
