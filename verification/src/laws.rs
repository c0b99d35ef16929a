//! What holds of the engine on every input: the guest counter is continuous
//! at its anchor and across a migration, on two hosts taken by themselves as
//! well as in a simulated schedule, and a ratio of exactly one changes
//! nothing.

use vstd::prelude::*;
use vstd::arithmetic::div_mod::lemma_div_by_multiple;
use vstd::arithmetic::div_mod::lemma_div_is_ordered;
use vstd::arithmetic::div_mod::lemma_div_pos_is_pos;
use vstd::arithmetic::div_mod::lemma_div_multiples_vanish;
use vstd::arithmetic::div_mod::lemma_fundamental_div_mod;
use vstd::arithmetic::div_mod::lemma_multiply_divide_lt;
use vstd::arithmetic::div_mod::lemma_mod_pos_bound;
use vstd::arithmetic::mul::lemma_mul_inequality;
use vstd::arithmetic::mul::lemma_mul_is_associative;
use vstd::arithmetic::mul::lemma_mul_strict_inequality;
use vstd::arithmetic::power2::lemma_pow2_adds;
use vstd::arithmetic::mul::lemma_mul_is_commutative;
use vstd::arithmetic::power2::pow2;
use vstd::arithmetic::power2::lemma_pow2_pos;
use vstd::arithmetic::power2::lemma_pow2_strictly_increases;
use vstd::bits::lemma_u64_pow2_no_overflow;
use vstd::bits::lemma_u64_shl_is_mul;
use crate::error::TscError;
use crate::math::calc_tsc_offset_spec;
use crate::math::freq_multiplier_spec;
use crate::math::guest_tsc_spec;
use crate::math::lemma_pow2_at_most_64;
use crate::math::scale_tsc_spec;
use crate::math::scaled_tsc;
use crate::math::tsc_offset_spec;
use crate::math::valid_format;
use crate::simulate::anchor_at;
use crate::simulate::guest_tsc_at;
use crate::simulate::host_tsc_at;
use crate::simulate::valid_schedule;
use crate::simulate::GuestTscAnchor;
use crate::simulate::HostSegment;

verus! {

/// The fixed-point number one, `1 << frac_size`, is two to the power
/// `frac_size`.
pub proof fn lemma_one_is_pow2(frac_size: u32)
    requires
        frac_size < 64,
    ensures
        (1u64 << frac_size) == pow2(frac_size as nat),
{
    lemma_u64_pow2_no_overflow(frac_size as nat);
    lemma_u64_shl_is_mul(1, frac_size as u64);
}

/// Scaling by a multiplier of exactly one is lossless: every counter comes
/// back unchanged, whatever the number of fractional bits.
pub proof fn lemma_scale_identity(tsc: u64, frac_size: u32)
    requires
        frac_size < 64,
    ensures
        scale_tsc_spec(tsc, 1u64 << frac_size, frac_size) == Ok::<u64, TscError>(tsc),
{
    lemma_one_is_pow2(frac_size);
    lemma_pow2_pos(frac_size as nat);
    lemma_div_by_multiple(tsc as int, pow2(frac_size as nat) as int);
}

/// Equal frequencies give a multiplier of exactly one in every valid format.
pub proof fn lemma_equal_frequencies(hz: u64, frac_size: u32, int_size: u32)
    requires
        hz != 0,
        valid_format(int_size, frac_size),
    ensures
        freq_multiplier_spec(hz, hz, frac_size, int_size) == Ok::<u64, TscError>(
            1u64 << frac_size,
        ),
{
    lemma_one_is_pow2(frac_size);
    lemma_pow2_pos(frac_size as nat);
    lemma_pow2_strictly_increases(frac_size as nat, (int_size + frac_size) as nat);
    lemma_mul_is_commutative(hz as int, pow2(frac_size as nat) as int);
    lemma_div_by_multiple(pow2(frac_size as nat) as int, hz as int);
}

/// The multiplier is the ratio rounded toward zero, never to the nearest:
/// it is the largest fixed-point number that, multiplied by the host
/// frequency, does not exceed the guest frequency.
pub proof fn lemma_multiplier_rounds_down(
    guest_hz: u64,
    host_hz: u64,
    frac_size: u32,
    int_size: u32,
)
    requires
        guest_hz != 0,
        host_hz != 0,
        valid_format(int_size, frac_size),
    ensures
        freq_multiplier_spec(guest_hz, host_hz, frac_size, int_size) matches Ok(multiplier) ==> {
            &&& multiplier * host_hz <= guest_hz * pow2(frac_size as nat)
            &&& guest_hz * pow2(frac_size as nat) < (multiplier + 1) * host_hz
        },
{
    let scaled_guest_hz: int = guest_hz * pow2(frac_size as nat);
    let divisor: int = host_hz as int;
    let quotient: int = scaled_guest_hz / divisor;
    lemma_pow2_pos(frac_size as nat);
    lemma_mul_inequality(0, guest_hz as int, pow2(frac_size as nat) as int);
    lemma_mul_is_commutative(guest_hz as int, pow2(frac_size as nat) as int);
    lemma_fundamental_div_mod(scaled_guest_hz, divisor);
    lemma_mod_pos_bound(scaled_guest_hz, divisor);
    lemma_mul_is_commutative(divisor, quotient);
    assert((quotient + 1) * divisor == quotient * divisor + divisor) by (nonlinear_arith);
    assert(0 <= quotient) by (nonlinear_arith)
        requires
            0 <= scaled_guest_hz,
            0 < divisor,
            quotient == scaled_guest_hz / divisor,
    ;
    if quotient < pow2((int_size + frac_size) as nat) {
        lemma_pow2_at_most_64((int_size + frac_size) as nat);
    }
}

/// A format with `int_size` integer bits holds the ratios below two to the
/// power `int_size`, and no others: the multiplier fails exactly when the
/// guest frequency is that many times the host frequency or more.
pub proof fn lemma_ratio_overflow_boundary(
    guest_hz: u64,
    host_hz: u64,
    frac_size: u32,
    int_size: u32,
)
    requires
        guest_hz != 0,
        host_hz != 0,
        valid_format(int_size, frac_size),
    ensures
        freq_multiplier_spec(guest_hz, host_hz, frac_size, int_size) is Err <==> guest_hz >= host_hz
            * pow2(int_size as nat),
{
    let one: int = pow2(frac_size as nat) as int;
    let limit: int = pow2(int_size as nat) as int;
    let scaled_guest_hz: int = guest_hz * one;
    let scaled_limit: int = pow2((int_size + frac_size) as nat) as int;
    lemma_pow2_pos(frac_size as nat);
    lemma_pow2_adds(int_size as nat, frac_size as nat);
    lemma_mul_is_associative(host_hz as int, limit, one);
    assert(host_hz * scaled_limit == (host_hz * limit) * one);
    if guest_hz >= host_hz * limit {
        lemma_mul_inequality(host_hz * limit, guest_hz as int, one);
        lemma_div_is_ordered(host_hz * scaled_limit, scaled_guest_hz, host_hz as int);
        lemma_div_multiples_vanish(scaled_limit, host_hz as int);
    } else {
        lemma_mul_strict_inequality(guest_hz as int, host_hz * limit, one);
        lemma_multiply_divide_lt(scaled_guest_hz, host_hz as int, scaled_limit);
    }
}

/// Each operation fails only in the ways that belong to it: the multiplier
/// by its ratio, scaling by its result, the offset by scaling or by its own
/// magnitude, and the guest counter by one of these or by the final addition.
/// None of them reports an invalid format.
pub proof fn lemma_declared_errors(
    initial_host_tsc: u64,
    initial_guest_tsc: u64,
    host_hz: u64,
    guest_hz: u64,
    cur_host_tsc: u64,
    multiplier: u64,
    frac_size: u32,
    int_size: u32,
)
    ensures
        freq_multiplier_spec(guest_hz, host_hz, frac_size, int_size) matches Err(e) ==> e
            == TscError::RatioOverflow,
        scale_tsc_spec(cur_host_tsc, multiplier, frac_size) matches Err(e) ==> e
            == TscError::ScaleOverflow,
        calc_tsc_offset_spec(initial_host_tsc, initial_guest_tsc, multiplier, frac_size) matches Err(
            e,
        ) ==> e == TscError::ScaleOverflow || e == TscError::OffsetOverflow,
        tsc_offset_spec(
            initial_host_tsc,
            initial_guest_tsc,
            guest_hz,
            host_hz,
            frac_size,
            int_size,
        ) matches Err(e) ==> e == TscError::RatioOverflow || e == TscError::ScaleOverflow || e
            == TscError::OffsetOverflow,
        guest_tsc_spec(
            initial_host_tsc,
            initial_guest_tsc,
            host_hz,
            guest_hz,
            cur_host_tsc,
            frac_size,
            int_size,
        ) matches Err(e) ==> e == TscError::RatioOverflow || e == TscError::ScaleOverflow || e
            == TscError::OffsetOverflow || e == TscError::AdditionOverflow,
{
}

/// Within one segment the guest counter never runs backwards: a later host
/// counter gives a guest counter that is at least as large.
pub proof fn lemma_guest_tsc_monotonic(
    initial_host_tsc: u64,
    initial_guest_tsc: u64,
    host_hz: u64,
    guest_hz: u64,
    earlier_host_tsc: u64,
    later_host_tsc: u64,
    frac_size: u32,
    int_size: u32,
)
    requires
        guest_hz != 0,
        host_hz != 0,
        valid_format(int_size, frac_size),
        earlier_host_tsc <= later_host_tsc,
    ensures
        guest_tsc_spec(
            initial_host_tsc,
            initial_guest_tsc,
            host_hz,
            guest_hz,
            earlier_host_tsc,
            frac_size,
            int_size,
        ) matches Ok(earlier) ==> (guest_tsc_spec(
            initial_host_tsc,
            initial_guest_tsc,
            host_hz,
            guest_hz,
            later_host_tsc,
            frac_size,
            int_size,
        ) matches Ok(later) ==> earlier <= later),
{
    match freq_multiplier_spec(guest_hz, host_hz, frac_size, int_size) {
        Ok(multiplier) => {
            lemma_pow2_pos(frac_size as nat);
            lemma_mul_inequality(
                earlier_host_tsc as int,
                later_host_tsc as int,
                multiplier as int,
            );
            lemma_div_is_ordered(
                earlier_host_tsc * multiplier,
                later_host_tsc * multiplier,
                pow2(frac_size as nat) as int,
            );
            lemma_scaled_tsc_is_not_negative(earlier_host_tsc, multiplier, frac_size);
            lemma_scaled_tsc_is_not_negative(later_host_tsc, multiplier, frac_size);
        },
        Err(_) => {},
    }
}

/// Where a guest counter exists, it is the scaled host counter plus the
/// offset, and so the guest counter of the anchor moved by the difference
/// between the scaled host counter now and at the anchor.
pub proof fn lemma_guest_tsc_value(
    initial_host_tsc: u64,
    initial_guest_tsc: u64,
    host_hz: u64,
    guest_hz: u64,
    cur_host_tsc: u64,
    frac_size: u32,
    int_size: u32,
)
    requires
        guest_hz != 0,
        host_hz != 0,
        valid_format(int_size, frac_size),
    ensures
        guest_tsc_spec(
            initial_host_tsc,
            initial_guest_tsc,
            host_hz,
            guest_hz,
            cur_host_tsc,
            frac_size,
            int_size,
        ) matches Ok(guest) ==> {
            &&& freq_multiplier_spec(guest_hz, host_hz, frac_size, int_size) matches Ok(
                multiplier,
            )
            &&& tsc_offset_spec(
                initial_host_tsc,
                initial_guest_tsc,
                guest_hz,
                host_hz,
                frac_size,
                int_size,
            ) matches Ok(offset)
            &&& guest == scaled_tsc(cur_host_tsc, multiplier, frac_size) + offset
            &&& guest == initial_guest_tsc + scaled_tsc(cur_host_tsc, multiplier, frac_size)
                - scaled_tsc(initial_host_tsc, multiplier, frac_size)
        },
{
    match freq_multiplier_spec(guest_hz, host_hz, frac_size, int_size) {
        Ok(multiplier) => {
            lemma_scaled_tsc_is_not_negative(initial_host_tsc, multiplier, frac_size);
            lemma_scaled_tsc_is_not_negative(cur_host_tsc, multiplier, frac_size);
        },
        Err(_) => {},
    }
}

/// A scaled counter is not negative.
proof fn lemma_scaled_tsc_is_not_negative(tsc: u64, multiplier: u64, frac_size: u32)
    ensures
        0 <= scaled_tsc(tsc, multiplier, frac_size),
{
    lemma_pow2_pos(frac_size as nat);
    lemma_mul_inequality(0, tsc as int, multiplier as int);
    lemma_div_pos_is_pos(tsc * multiplier, pow2(frac_size as nat) as int);
}

/// Continuity at the anchor: asked for the guest counter at the very host
/// counter of the anchor, the engine answers with the guest counter of the
/// anchor. It does so exactly when the offset exists, and otherwise fails as
/// the offset does.
pub proof fn lemma_continuity_at_anchor(
    initial_host_tsc: u64,
    initial_guest_tsc: u64,
    host_hz: u64,
    guest_hz: u64,
    frac_size: u32,
    int_size: u32,
)
    requires
        guest_hz != 0,
        host_hz != 0,
        valid_format(int_size, frac_size),
    ensures
        guest_tsc_spec(
            initial_host_tsc,
            initial_guest_tsc,
            host_hz,
            guest_hz,
            initial_host_tsc,
            frac_size,
            int_size,
        ) matches Ok(guest) ==> guest == initial_guest_tsc,
        guest_tsc_spec(
            initial_host_tsc,
            initial_guest_tsc,
            host_hz,
            guest_hz,
            initial_host_tsc,
            frac_size,
            int_size,
        ) == match tsc_offset_spec(
            initial_host_tsc,
            initial_guest_tsc,
            guest_hz,
            host_hz,
            frac_size,
            int_size,
        ) {
            Ok(_) => Ok::<u64, TscError>(initial_guest_tsc),
            Err(e) => Err(e),
        },
{
}

/// A migration is invisible to the guest: the guest counter read on the
/// source host at the moment of migration, taken as the anchor on the
/// destination host, is the guest counter read on the destination host at
/// that same moment, whatever counter and frequency the destination has.
pub proof fn lemma_migration_invariance(
    source_host_tsc: u64,
    source_guest_tsc: u64,
    source_host_hz: u64,
    guest_hz: u64,
    source_host_tsc_at_migration: u64,
    dest_host_tsc: u64,
    dest_host_hz: u64,
    frac_size: u32,
    int_size: u32,
)
    requires
        guest_hz != 0,
        source_host_hz != 0,
        dest_host_hz != 0,
        valid_format(int_size, frac_size),
    ensures
        guest_tsc_spec(
            source_host_tsc,
            source_guest_tsc,
            source_host_hz,
            guest_hz,
            source_host_tsc_at_migration,
            frac_size,
            int_size,
        ) matches Ok(before) ==> (guest_tsc_spec(
            dest_host_tsc,
            before,
            dest_host_hz,
            guest_hz,
            dest_host_tsc,
            frac_size,
            int_size,
        ) matches Ok(after) ==> after == before),
{
    match guest_tsc_spec(
        source_host_tsc,
        source_guest_tsc,
        source_host_hz,
        guest_hz,
        source_host_tsc_at_migration,
        frac_size,
        int_size,
    ) {
        Ok(before) => {
            lemma_continuity_at_anchor(
                dest_host_tsc,
                before,
                dest_host_hz,
                guest_hz,
                frac_size,
                int_size,
            );
        },
        Err(_) => {},
    }
}

/// With equal frequencies the guest counter moves in step with the host
/// counter: it is the anchor's guest counter plus the host ticks since the
/// anchor. The offset fails when the two anchor counters lie 2^63 or more
/// apart, the addition when the sum leaves the 64-bit range.
pub proof fn lemma_equal_frequencies_keep_step(
    initial_host_tsc: u64,
    initial_guest_tsc: u64,
    hz: u64,
    cur_host_tsc: u64,
    frac_size: u32,
    int_size: u32,
)
    requires
        hz != 0,
        valid_format(int_size, frac_size),
    ensures
        guest_tsc_spec(
            initial_host_tsc,
            initial_guest_tsc,
            hz,
            hz,
            cur_host_tsc,
            frac_size,
            int_size,
        ) == ({
            let offset = initial_guest_tsc - initial_host_tsc;
            let guest = cur_host_tsc + offset;
            if !(-0x8000_0000_0000_0000 < offset < 0x8000_0000_0000_0000) {
                Err::<u64, TscError>(TscError::OffsetOverflow)
            } else if !(0 <= guest <= u64::MAX) {
                Err::<u64, TscError>(TscError::AdditionOverflow)
            } else {
                Ok::<u64, TscError>(guest as u64)
            }
        }),
{
    lemma_equal_frequencies(hz, frac_size, int_size);
    lemma_scale_identity(initial_host_tsc, frac_size);
    lemma_scale_identity(cur_host_tsc, frac_size);
}

/// In a simulation every segment starts at its anchor: the guest counter at
/// the first second of a segment, where there is one, is the guest counter of
/// the segment's anchor.
pub proof fn lemma_segment_starts_at_its_anchor(
    hosts: Seq<HostSegment>,
    duration: u64,
    guest_hz: u64,
    frac_size: u32,
    int_size: u32,
    h: int,
)
    requires
        guest_hz != 0,
        valid_format(int_size, frac_size),
        valid_schedule(hosts, duration),
        0 <= h < hosts.len(),
    ensures
        guest_tsc_at(hosts, guest_hz, frac_size, int_size, h, hosts[h].start_time as int) matches Ok(
            guest,
        ) ==> anchor_at(hosts, guest_hz, frac_size, int_size, h) == Ok::<GuestTscAnchor, TscError>(
            GuestTscAnchor { initial_host_tsc: hosts[h].host_tsc, initial_guest_tsc: guest },
        ),
{
    let segment = hosts[h];
    assert(host_tsc_at(segment, segment.start_time as int) == segment.host_tsc) by {
        assert((segment.start_time - segment.start_time) * segment.host_frequency == 0)
            by (nonlinear_arith);
    }
    match anchor_at(hosts, guest_hz, frac_size, int_size, h) {
        Ok(anchor) => {
            lemma_continuity_at_anchor(
                anchor.initial_host_tsc,
                anchor.initial_guest_tsc,
                segment.host_frequency,
                guest_hz,
                frac_size,
                int_size,
            );
        },
        Err(_) => {},
    }
}

/// In a simulation the guest boots with a counter of zero.
pub proof fn lemma_guest_boots_at_zero(
    hosts: Seq<HostSegment>,
    duration: u64,
    guest_hz: u64,
    frac_size: u32,
    int_size: u32,
)
    requires
        guest_hz != 0,
        valid_format(int_size, frac_size),
        valid_schedule(hosts, duration),
    ensures
        guest_tsc_at(hosts, guest_hz, frac_size, int_size, 0, 0) matches Ok(guest) ==> guest == 0,
{
    lemma_segment_starts_at_its_anchor(hosts, duration, guest_hz, frac_size, int_size, 0);
}

/// In a simulation a migration is invisible to the guest: at the moment of
/// migration the guest counter on the host that the guest arrives at is the
/// guest counter on the host that it leaves.
pub proof fn lemma_migration_is_continuous(
    hosts: Seq<HostSegment>,
    duration: u64,
    guest_hz: u64,
    frac_size: u32,
    int_size: u32,
    h: int,
)
    requires
        guest_hz != 0,
        valid_format(int_size, frac_size),
        valid_schedule(hosts, duration),
        0 < h < hosts.len(),
    ensures
        guest_tsc_at(hosts, guest_hz, frac_size, int_size, h, hosts[h].start_time as int) matches Ok(
            after,
        ) ==> guest_tsc_at(hosts, guest_hz, frac_size, int_size, h - 1, hosts[h].start_time as int)
            == Ok::<u64, TscError>(after),
{
    lemma_segment_starts_at_its_anchor(hosts, duration, guest_hz, frac_size, int_size, h);
}

} // verus!
