//! Orientation handling for a convertible laptop with a single 3-axis
//! accelerometer.
//!
//! The crate decides, from a calibrated accelerometer reading, which of five
//! physical postures the laptop is in, which screen rotation to apply, which
//! input devices to enable or disable, and which coordinate transform to set
//! on touch-capable devices.  All decisions are pure functions with verified
//! contracts; issuing the actual display and input commands, and reading the
//! sensor files, is left to the surrounding program.
//!
//! Sensor values are handled in fixed point: the raw reading, the scale and
//! the offset are given in thousandths of a unit, and the normalized value
//! `(raw + offset) * scale` is then in millionths of a unit.

pub mod coordinator;
pub mod matching;
pub mod orientation;
pub mod policy;
