//! Decimal rounding of 64-bit floating-point values under a selectable
//! tie-breaking policy, as decisions over plain integers.
//!
//! A caller reads three things off a value at a scale (whether it is finite,
//! whether it is below zero, and its magnified integer) and hands them over as
//! a [`round::Reading`]. The library answers with a [`round::Step`]: keep the
//! value, or move it to the next multiple of `10^-scale` towards positive or
//! negative infinity.

pub mod chance;
pub mod digits;
pub mod laws;
pub mod round;
