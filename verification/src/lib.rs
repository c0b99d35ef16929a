//! Fixed-point arithmetic for carrying a guest's time-stamp counter between
//! hosts that run at different frequencies.

pub mod error;
pub mod format;
pub mod laws;
pub mod math;
pub mod simulate;
