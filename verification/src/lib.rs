//! The verified core of a pinhole-camera ray generator.
//!
//! A pinhole camera is parameterized by its position, an aiming direction, a
//! field of view and a roll angle; from these it derives an orthonormal screen
//! basis and casts one ray per raster pixel. The executable camera works in
//! floating point and therefore lives with the unverified driver; this crate
//! holds the exact parts of that pipeline: the integer core of the raster
//! coordinate normalizer, the per-shot state shared across pixels, and an
//! exact algebraic model of the screen-basis construction together with proofs
//! of the identities the camera relies on.

pub mod geometry;
pub mod raster;
pub mod scene;
pub mod shot;
