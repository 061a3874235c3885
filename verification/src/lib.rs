//! An interactive Mandelbrot-set explorer, split into a verified core and a
//! thin GPU/window host.
//!
//! The core keeps every view-state quantity (plane coordinates, zoom, aspect
//! ratio, input deltas) as a signed 64-bit fixed-point number with twelve
//! decimal places, so all camera arithmetic is exact integer arithmetic with
//! fully specified truncation, and every transition carries a contract.
//! The host uploads the state to the GPU, narrowing to the floating-point
//! layouts the shaders expect, and feeds window input back in.

pub mod camera;
pub mod escape;
pub mod events;
pub mod fixed;
pub mod host;
pub mod icon;
pub mod laws;
pub mod simple;
