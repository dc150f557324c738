//! Procedural planet shading: fixed-point colour arithmetic, the noise presets
//! that drive the surface materials, the material colour formulas, and the
//! input decisions of the interactive viewer.
//!
//! Real-valued quantities (noise samples, factors, intensities) are carried in
//! fixed point with `fixed::FX_ONE` standing for 1.0; the caller samples the
//! noise generators and converts their results before shading.

pub mod fixed;
pub mod color;
pub mod noise_preset;
pub mod material;
pub mod controls;
pub mod frame;
