//! Verified core of a small real-time 3D scene viewer with a retro look.
//!
//! The viewer renders a sky dome, the models of a world and the model the
//! viewer holds into three layers of low, fixed resolution, each through a
//! camera of its own, and composites the layers back to front into the
//! frame that goes to the screen. This crate holds what is decided and
//! computed on that way; windows, files, shaders and the GPU are the
//! business of whoever calls it.
//!
//! Every number in here is a whole number. Lengths are counted in
//! millionths of a world unit, angles in microradians, directions in parts
//! per million, time in microseconds and colours in eight-bit channels
//! (see [`fixed`]), so that what the contracts say holds exactly and not up
//! to rounding.
//!
//! * [`mesh`], [`model`], [`bounds`]: mesh assets, the loading of a decoded
//!   scene, bounding volumes and the pivot of a placed model;
//! * [`transform`], [`camera`]: placement, camera, projection and the
//!   horizontal basis of a yaw angle;
//! * [`keys`], [`controller`]: reading the keyboard, moving and turning the
//!   camera, switching render modes on key presses;
//! * [`compositor`], [`raster`], [`target`], [`color`]: the plan of a
//!   frame, pixel buffers, render targets and the composite of the layers;
//! * [`viewer`]: the state of the viewer from frame to frame;
//! * [`error`]: what can fail and what the viewer does then.

pub mod bounds;
pub mod camera;
pub mod color;
pub mod compositor;
pub mod controller;
pub mod error;
pub mod fixed;
pub mod keys;
pub mod mesh;
pub mod model;
pub mod raster;
pub mod target;
pub mod transform;
pub mod vector;
pub mod viewer;
