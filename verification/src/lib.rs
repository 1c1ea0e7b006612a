//! A Monte Carlo path tracer over saturating fixed-point arithmetic.
//!
//! Every quantity the tracer computes with — coordinates, directions,
//! colors, ray parameters — is a binary fixed-point number: an `i64` raw
//! value standing for `raw / 65536`. All arithmetic is exact integer
//! arithmetic with truncating rescaling and symmetric saturation, so every
//! function of the library is a mathematical function of its inputs and the
//! whole pipeline, from camera ray to pixel byte, is deterministic given a
//! seed.

pub mod camera;
pub mod fixed;
pub mod material;
pub mod primitive;
pub mod ray;
pub mod render;
pub mod rng;
pub mod scene;
pub mod tracer;
pub mod vec3;
