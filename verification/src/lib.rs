//! Viewport engine for an on-screen magnifier.
//!
//! The engine turns one frame's worth of raw input into a camera transform
//! (pan target and zoom factor) and the parameters of a spotlight overlay.
//! All quantities are fixed-point numbers, see [`fixed`].
//!
//! - [`fixed`]: fixed-point arithmetic and the decay integrator.
//! - [`camera`]: camera state and the screen/world transform.
//! - [`interaction`]: what input handling carries across frames.
//! - [`input`]: one frame's raw input.
//! - [`zoom`], [`pan`], [`spotlight`]: the three controllers.
//! - [`frame`]: one step of the frame loop.
//! - [`cli`]: the command line and the choice of the output.
pub mod fixed;
pub mod camera;
pub mod interaction;
pub mod input;
pub mod zoom;
pub mod pan;
pub mod spotlight;
pub mod frame;
pub mod cli;
