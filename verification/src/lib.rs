//! A small path-tracing toolkit: pixel colors, tone mapping, PPM image
//! encoding, and the bounce-depth bookkeeping of a recursive integrator.
//!
//! The floating-point geometry (vectors, rays, camera, sphere intersection,
//! material scattering) lives in the rendering front end that drives this
//! library; the exact integer logic is here, with verified contracts.

pub mod color;
pub mod decimal;
pub mod ppm;
pub mod tone;
pub mod trace;
