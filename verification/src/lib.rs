//! Interactive visualizer core for a generalized complex exponential curve:
//! the locus of `base ^ (direction * t)` for `t` swept across a fixed
//! interval. All coordinates are fixed-point values with six decimal places
//! (micro-units), so every computation here is exact integer arithmetic.
//!
//! The transcendental evaluation of the complex power itself, and all window,
//! input and drawing plumbing, live outside this library; the library computes
//! the exponents to evaluate, maintains the interactive parameters, maps
//! complex values to screen coordinates, and lays out one frame as a list of
//! drawing commands.
pub mod complex;
pub mod fixed;
pub mod input;
pub mod params;
pub mod sampler;
pub mod scene;
pub mod screen;
pub mod status;
