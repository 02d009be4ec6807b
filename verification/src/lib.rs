//! The rounding-free core of a ray tracer's geometric kernel.
//!
//! Every number here is an IEEE 754 binary64 value carried as its 64-bit
//! pattern. The crate holds the parts of the kernel that are exact on such
//! patterns: classification, comparison, sign change, component access, the
//! choice of the intersection root and the encoding of a pixel. A caller that
//! owns the rounding arithmetic converts with `to_bits` and `from_bits`.

pub mod scalar;
pub mod vec3;
pub mod ray;
pub mod hittable;
pub mod sphere;
pub mod color;
