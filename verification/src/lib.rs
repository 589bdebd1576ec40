//! A verified model of an interactive shader-editing harness: two hot-reloadable
//! shader slots, a first-person camera driven by held keys, a fixed instance
//! batch, and a render sequencer that flushes all 3D work before the 2D overlay.
//!
//! All world-space and colour quantities are carried in thousandths (fixed
//! point), so every rule of the system is stated and proved over plain integers.
//! The GPU, window and GUI widgets are outside collaborators: a driver performs
//! their work and feeds the outcomes (key state, editor focus, compile results,
//! yaw trigonometry) into the verified state machine.

pub mod camera;
pub mod geom;
pub mod input;
pub mod instances;
pub mod render;
pub mod state;
pub mod shader;
