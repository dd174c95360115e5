//! Complex numbers in Cartesian and polar form, angles with their unit, and
//! the rules by which each of them is rendered as text.
//!
//! Numbers are held as binary64 bit patterns. What is exact on the pattern
//! (signs, classes of values, the shape of a rendering) is decided here.

pub mod angle;
pub mod complex;
pub mod extent;
pub mod polar;
pub mod scalar;
pub mod text;
