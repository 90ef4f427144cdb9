//! A three-component single-precision vector with verified contracts.
//!
//! Components are carried as raw IEEE-754 binary32 bit patterns (`u32`), so
//! the contracts can state the numeric behaviour exactly: which operations
//! yield NaN, how signs move, and how the geometric operations are composed
//! from the scalar ones.  The scalar arithmetic itself is performed by the
//! `rustc_apfloat` and `ieee-apsqrt` crates, deterministic software
//! implementations of the binary32 format that round to nearest, ties to
//! even.

pub mod arith;
pub mod bits;
pub mod vec3;

pub use vec3::Vec3;
