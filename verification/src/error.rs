use vstd::prelude::*;

verus! {

/// The ways a counter calculation can fail. Every failure is final for the
/// operation that reports it: nothing is clamped, saturated or retried.
#[derive(Clone, Copy, Debug, PartialEq, Eq, Structural)]
pub enum TscError {
    /// The requested split of integer and fractional bits does not describe a
    /// fixed-point number of at most 64 bits.
    InvalidFormat,
    /// The ratio of guest to host frequency needs more integer bits than the
    /// format has.
    RatioOverflow,
    /// A counter multiplied by the ratio no longer fits in 64 bits.
    ScaleOverflow,
    /// The offset between guest and scaled host counter has a magnitude of
    /// 2^63 or more.
    OffsetOverflow,
    /// The scaled counter plus the offset is negative or exceeds 64 bits.
    AdditionOverflow,
}

} // verus!
