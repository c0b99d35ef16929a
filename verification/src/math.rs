//! The fixed-point engine: frequency ratio, counter scaling, offset and guest
//! counter reconstruction, each with the exact point at which it overflows.

use vstd::prelude::*;
use vstd::arithmetic::power2::pow2;
use vstd::arithmetic::power2::lemma_pow2_pos;
use vstd::arithmetic::power2::lemma_pow2_strictly_increases;
use vstd::arithmetic::power2::lemma2_to64;
use vstd::arithmetic::power2::lemma2_to64_rest;
use vstd::arithmetic::mul::lemma_mul_is_commutative;
use vstd::bits::lemma_u128_shr_is_div;
use vstd::bits::lemma_u64_pow2_no_overflow;
use vstd::bits::lemma_u64_shl_is_mul;
use crate::error::TscError;

verus! {

/// Integer bits of the 16.48 multiplier format.
pub const INT_SIZE_INTEL: u32 = 16;

/// Fractional bits of the 16.48 multiplier format.
pub const FRAC_SIZE_INTEL: u32 = 48;

/// Integer bits of the 8.32 multiplier format.
pub const INT_SIZE_AMD: u32 = 8;

/// Fractional bits of the 8.32 multiplier format.
pub const FRAC_SIZE_AMD: u32 = 32;

/// Nanoseconds in one second.
pub const NS_PER_SEC: u32 = 1000000000;

/// A split of a 64-bit fixed-point number into integer and fractional bits:
/// at least one bit of each, at most 64 together.
pub open spec fn valid_format(int_size: u32, frac_size: u32) -> bool {
    &&& 1 <= frac_size < 64
    &&& 1 <= int_size
    &&& int_size + frac_size <= 64
}

/// The ratio of guest to host frequency as a fixed-point number with
/// `frac_size` fractional bits, rounded toward zero.
pub open spec fn freq_ratio(guest_hz: u64, host_hz: u64, frac_size: u32) -> int {
    (guest_hz * pow2(frac_size as nat)) / (host_hz as int)
}

/// The multiplier for a pair of frequencies: their ratio, unless it needs
/// more than `int_size + frac_size` bits.
pub open spec fn freq_multiplier_spec(
    guest_hz: u64,
    host_hz: u64,
    frac_size: u32,
    int_size: u32,
) -> Result<u64, TscError> {
    let ratio = freq_ratio(guest_hz, host_hz, frac_size);
    if ratio >= pow2((int_size + frac_size) as nat) {
        Err(TscError::RatioOverflow)
    } else {
        Ok(ratio as u64)
    }
}

/// A counter multiplied by a fixed-point multiplier, the fractional bits of
/// the product dropped.
pub open spec fn scaled_tsc(tsc: u64, multiplier: u64, frac_size: u32) -> int {
    (tsc * multiplier) / (pow2(frac_size as nat) as int)
}

/// The scaled counter, unless it needs more than 64 bits.
pub open spec fn scale_tsc_spec(tsc: u64, multiplier: u64, frac_size: u32) -> Result<
    u64,
    TscError,
> {
    let scaled = scaled_tsc(tsc, multiplier, frac_size);
    if scaled > u64::MAX {
        Err(TscError::ScaleOverflow)
    } else {
        Ok(scaled as u64)
    }
}

/// The offset that carries the scaled host counter to the guest counter at
/// the anchor: guest minus scaled host, if its magnitude is below 2^63.
pub open spec fn calc_tsc_offset_spec(
    initial_host_tsc: u64,
    initial_guest_tsc: u64,
    multiplier: u64,
    frac_size: u32,
) -> Result<i64, TscError> {
    match scale_tsc_spec(initial_host_tsc, multiplier, frac_size) {
        Err(e) => Err(e),
        Ok(host_tsc_scaled) => {
            let offset = initial_guest_tsc - host_tsc_scaled;
            if -0x8000_0000_0000_0000 < offset < 0x8000_0000_0000_0000 {
                Ok(offset as i64)
            } else {
                Err(TscError::OffsetOverflow)
            }
        },
    }
}

/// The offset for a pair of frequencies: the multiplier first, then the
/// offset under that multiplier.
pub open spec fn tsc_offset_spec(
    initial_host_tsc: u64,
    initial_guest_tsc: u64,
    guest_hz: u64,
    host_hz: u64,
    frac_size: u32,
    int_size: u32,
) -> Result<i64, TscError> {
    match freq_multiplier_spec(guest_hz, host_hz, frac_size, int_size) {
        Err(e) => Err(e),
        Ok(multiplier) => calc_tsc_offset_spec(
            initial_host_tsc,
            initial_guest_tsc,
            multiplier,
            frac_size,
        ),
    }
}

/// The guest counter at host counter `cur_host_tsc`: the scaled host counter
/// plus the offset fixed at the anchor. The first step that fails decides the
/// error: multiplier, offset, scaling, then the final addition.
pub open spec fn guest_tsc_spec(
    initial_host_tsc: u64,
    initial_guest_tsc: u64,
    host_hz: u64,
    guest_hz: u64,
    cur_host_tsc: u64,
    frac_size: u32,
    int_size: u32,
) -> Result<u64, TscError> {
    match freq_multiplier_spec(guest_hz, host_hz, frac_size, int_size) {
        Err(e) => Err(e),
        Ok(multiplier) => match calc_tsc_offset_spec(
            initial_host_tsc,
            initial_guest_tsc,
            multiplier,
            frac_size,
        ) {
            Err(e) => Err(e),
            Ok(offset) => match scale_tsc_spec(cur_host_tsc, multiplier, frac_size) {
                Err(e) => Err(e),
                Ok(host_tsc_scaled) => {
                    let guest = host_tsc_scaled + offset;
                    if 0 <= guest <= u64::MAX {
                        Ok(guest as u64)
                    } else {
                        Err(TscError::AdditionOverflow)
                    }
                },
            },
        },
    }
}

/// The nanoseconds in the whole seconds that a counter at `freq_hz` has
/// counted.
pub open spec fn hrtime_spec(tsc: u64, freq_hz: u64) -> int {
    (tsc as int / freq_hz as int) * 1_000_000_000
}

/// The ticks of a counter at `freq_hz` in the whole seconds of `hrtime`
/// nanoseconds.
pub open spec fn tsc_spec(hrtime: u64, freq_hz: u64) -> int {
    (hrtime as int / 1_000_000_000) * freq_hz
}

/// Returns true if `val` does not fit in `int_size + frac_size` bits.
pub fn fixed_point_overflow(val: u128, int_size: u32, frac_size: u32) -> (overflow: bool)
    requires
        0 < int_size + frac_size <= 64,
    ensures
        overflow == (val >= pow2((int_size + frac_size) as nat)),
{
    let n_unused_bits: u32 = 64 + (64 - int_size - frac_size);
    let mask: u128 = !(u128::MAX >> n_unused_bits);
    proof {
        let width: u32 = (int_size + frac_size) as u32;
        assert(((val & !(u128::MAX >> n_unused_bits)) != 0) == ((val >> width) != 0))
            by (bit_vector)
            requires
                0 < width <= 64,
                n_unused_bits == 128 - width,
        ;
        lemma_shr_nonzero(val, width);
    }
    (val & mask) != 0
}

/// Returns true if `val` does not fit in 64 bits.
pub fn overflow_64(val: u128) -> (overflow: bool)
    ensures
        overflow == (val > u64::MAX),
{
    let mask: u128 = u128::MAX << 64;
    assert(((val & (u128::MAX << 64)) != 0) == (val > 0xffff_ffff_ffff_ffffu128)) by (bit_vector);
    (val & mask) != 0
}

/// Given guest and host frequencies, computes the fixed-point number that
/// represents the ratio guest/host, with the binary point above the last
/// `frac_size` bits. Fails when the ratio does not fit the format.
pub fn freq_multiplier(guest_hz: u64, host_hz: u64, frac_size: u32, int_size: u32) -> (res: Result<
    u64,
    TscError,
>)
    requires
        guest_hz != 0,
        host_hz != 0,
        valid_format(int_size, frac_size),
    ensures
        res == freq_multiplier_spec(guest_hz, host_hz, frac_size, int_size),
{
    let scaling_factor: u64 = 1 << frac_size;
    proof {
        lemma_u64_pow2_no_overflow(frac_size as nat);
        lemma_u64_shl_is_mul(1, frac_size as u64);
        lemma_mul_is_commutative(guest_hz as int, pow2(frac_size as nat) as int);
        lemma_product_fits(scaling_factor, guest_hz);
    }
    let multiplier: u128 = (scaling_factor as u128 * guest_hz as u128) / host_hz as u128;

    if fixed_point_overflow(multiplier, int_size, frac_size) {
        return Err(TscError::RatioOverflow);
    }
    proof {
        lemma_pow2_at_most_64((int_size + frac_size) as nat);
    }
    Ok(multiplier as u64)
}

/// Applies a fixed-point multiplier with `frac_size` fractional bits to a
/// counter. Fails when the result does not fit in 64 bits.
pub fn scale_tsc(tsc: u64, multiplier: u64, frac_size: u32) -> (res: Result<u64, TscError>)
    requires
        frac_size < 128,
    ensures
        res == scale_tsc_spec(tsc, multiplier, frac_size),
{
    proof {
        lemma_product_fits(tsc, multiplier);
        lemma_u128_shr_is_div((tsc * multiplier) as u128, frac_size as u128);
    }
    let scaled: u128 = (tsc as u128 * multiplier as u128) >> frac_size;

    if overflow_64(scaled) {
        return Err(TscError::ScaleOverflow);
    }
    Ok(scaled as u64)
}

/// Computes the offset of a guest under a multiplier that `freq_multiplier`
/// produced: the guest counter at the anchor minus the scaled host counter at
/// the anchor.
pub fn calc_tsc_offset(
    initial_host_tsc: u64,
    initial_guest_tsc: u64,
    multiplier: u64,
    frac_size: u32,
) -> (res: Result<i64, TscError>)
    requires
        frac_size < 128,
    ensures
        res == calc_tsc_offset_spec(initial_host_tsc, initial_guest_tsc, multiplier, frac_size),
{
    let host_tsc_scaled: u64 = match scale_tsc(initial_host_tsc, multiplier, frac_size) {
        Ok(scaled) => scaled,
        Err(e) => {
            return Err(e);
        },
    };

    let negate: bool = host_tsc_scaled >= initial_guest_tsc;
    let diff: u64 = if negate {
        host_tsc_scaled - initial_guest_tsc
    } else {
        initial_guest_tsc - host_tsc_scaled
    };

    assert(((diff & 1u64 << 63) != 0) == (diff >= 0x8000_0000_0000_0000u64)) by (bit_vector);
    if (diff & 1u64 << 63) != 0 {
        return Err(TscError::OffsetOverflow);
    }
    let res: i64 = if negate {
        -(diff as i64)
    } else {
        diff as i64
    };

    Ok(res)
}

/// Computes the offset for a guest from:
/// - `initial_host_tsc`: the host counter when the guest started running on
///   this host (at boot, or following a migration)
/// - `initial_guest_tsc`: the guest counter at that moment (0 for boot)
/// - the frequencies of guest and host
/// - the fixed-point format in which the ratio is held
pub fn tsc_offset(
    initial_host_tsc: u64,
    initial_guest_tsc: u64,
    guest_hz: u64,
    host_hz: u64,
    frac_size: u32,
    int_size: u32,
) -> (res: Result<i64, TscError>)
    requires
        guest_hz != 0,
        host_hz != 0,
        valid_format(int_size, frac_size),
    ensures
        res == tsc_offset_spec(
            initial_host_tsc,
            initial_guest_tsc,
            guest_hz,
            host_hz,
            frac_size,
            int_size,
        ),
{
    let multiplier: u64 = match freq_multiplier(guest_hz, host_hz, frac_size, int_size) {
        Ok(multiplier) => multiplier,
        Err(e) => {
            return Err(e);
        },
    };
    calc_tsc_offset(initial_host_tsc, initial_guest_tsc, multiplier, frac_size)
}

/// Computes the guest counter at a point in time from:
/// - `initial_host_tsc`: the host counter when the guest started running on
///   this host (at boot, or following a migration)
/// - `initial_guest_tsc`: the guest counter at that moment (0 for boot)
/// - the frequencies of host and guest
/// - `cur_host_tsc`: the host counter now, which fixes the point in time
/// - the fixed-point format in which the ratio is held
pub fn guest_tsc(
    initial_host_tsc: u64,
    initial_guest_tsc: u64,
    host_hz: u64,
    guest_hz: u64,
    cur_host_tsc: u64,
    frac_size: u32,
    int_size: u32,
) -> (res: Result<u64, TscError>)
    requires
        guest_hz != 0,
        host_hz != 0,
        valid_format(int_size, frac_size),
    ensures
        res == guest_tsc_spec(
            initial_host_tsc,
            initial_guest_tsc,
            host_hz,
            guest_hz,
            cur_host_tsc,
            frac_size,
            int_size,
        ),
        cur_host_tsc == initial_host_tsc ==> (res matches Ok(guest) ==> guest
            == initial_guest_tsc),
{
    let multiplier: u64 = match freq_multiplier(guest_hz, host_hz, frac_size, int_size) {
        Ok(multiplier) => multiplier,
        Err(e) => {
            return Err(e);
        },
    };
    let offset: i64 = match calc_tsc_offset(
        initial_host_tsc,
        initial_guest_tsc,
        multiplier,
        frac_size,
    ) {
        Ok(offset) => offset,
        Err(e) => {
            return Err(e);
        },
    };
    let host_tsc_scaled: u64 = match scale_tsc(cur_host_tsc, multiplier, frac_size) {
        Ok(scaled) => scaled,
        Err(e) => {
            return Err(e);
        },
    };

    let guest: i128 = host_tsc_scaled as i128 + offset as i128;
    if guest < 0 || guest > u64::MAX as i128 {
        return Err(TscError::AdditionOverflow);
    }
    Ok(guest as u64)
}

/// The counter one second later, for a counter that ticks at `freq_hz`.
pub fn tsc_incr(tsc: u64, freq_hz: u64) -> (next: u64)
    requires
        tsc + freq_hz <= u64::MAX,
    ensures
        next == tsc + freq_hz,
{
    tsc + freq_hz
}

/// Converts a counter that ticks at `freq_hz` to nanoseconds. Only whole
/// seconds are counted: the ticks of a started second are dropped.
pub fn hrtime(tsc: u64, freq_hz: u64) -> (res: Result<u64, TscError>)
    requires
        freq_hz != 0,
        hrtime_spec(tsc, freq_hz) <= u64::MAX,
    ensures
        res == Ok::<u64, TscError>(hrtime_spec(tsc, freq_hz) as u64),
{
    Ok((tsc / freq_hz) * NS_PER_SEC as u64)
}

/// Converts nanoseconds to the value of a counter that ticks at `freq_hz`.
/// Only whole seconds are counted: the nanoseconds of a started second are
/// dropped.
pub fn tsc(hrtime: u64, freq_hz: u64) -> (res: Result<u64, TscError>)
    requires
        tsc_spec(hrtime, freq_hz) <= u64::MAX,
    ensures
        res == Ok::<u64, TscError>(tsc_spec(hrtime, freq_hz) as u64),
{
    Ok((hrtime / NS_PER_SEC as u64) * freq_hz)
}

/// The product of two 64-bit values fits in 128 bits.
proof fn lemma_product_fits(a: u64, b: u64)
    ensures
        0 <= a * b <= u128::MAX,
{
    assert(0 <= a * b <= 0xffff_ffff_ffff_ffff * 0xffff_ffff_ffff_ffff) by (nonlinear_arith)
        requires
            0 <= a <= 0xffff_ffff_ffff_ffff,
            0 <= b <= 0xffff_ffff_ffff_ffff,
    ;
}

/// A power of two with an exponent of at most 64 is at most 2^64.
pub proof fn lemma_pow2_at_most_64(e: nat)
    requires
        e <= 64,
    ensures
        pow2(e) <= 0x1_0000_0000_0000_0000,
{
    lemma2_to64();
    lemma2_to64_rest();
    if e < 64 {
        lemma_pow2_strictly_increases(e, 64);
    }
}

/// Shifting right by `width` leaves something exactly when the value reaches
/// `2^width`.
proof fn lemma_shr_nonzero(val: u128, width: u32)
    requires
        width < 128,
    ensures
        ((val >> width) != 0) == (val >= pow2(width as nat)),
{
    lemma_u128_shr_is_div(val, width as u128);
    lemma_pow2_pos(width as nat);
    let p: int = pow2(width as nat) as int;
    assert((val as int / p != 0) == (val as int >= p)) by (nonlinear_arith)
        requires
            p > 0,
            val >= 0,
    ;
}

} // verus!
