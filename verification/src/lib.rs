//! Deterministic real-time motion for an interactive 3D scene.
//!
//! Every scalar in this crate is a fixed-point number: an `i64` holding
//! millionths of a unit (so `1_000_000` is `1.0`).  Positions, rotations,
//! speeds, angles (micro-radians) and delta times (micro-seconds) are all
//! carried this way, which keeps the whole motion subsystem inside integer
//! arithmetic and lets every update rule be stated and proved exactly.

pub mod animator;
pub mod camera;
pub mod camera_controller;
pub mod error;
pub mod fixed;
pub mod handle;
pub mod ids;
pub mod key_bindings;
pub mod mouse;
pub mod quat;
pub mod trajectory;
pub mod transform;
pub mod trig;
pub mod types;
pub mod util;
pub mod vec3;
