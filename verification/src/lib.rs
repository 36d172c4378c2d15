//! Verified core of an offline Monte Carlo path tracer.
//!
//! The floating-point geometry (vector algebra, intersection tests, the
//! recursive radiance estimate itself) lives outside this crate; what is
//! verified here is the discrete skeleton those computations hang on: how
//! the image is partitioned into row ranges and reassembled, how textures
//! are sampled from a decoded raster with wraparound, how mesh face indices
//! are checked and resolved, and which branch the radiance estimator takes
//! at each bounce.

pub mod frame;
pub mod integrator;
pub mod mesh;
pub mod texture;
