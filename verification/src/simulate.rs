//! The migration simulator: a guest runs on a sequence of hosts, one second
//! per step, and its counter is carried over each migration unchanged.

use vstd::prelude::*;
use vstd::arithmetic::mul::lemma_mul_inequality;
use crate::error::TscError;
use crate::format::FixedPointFormat;
use crate::math::guest_tsc;
use crate::math::guest_tsc_spec;
use crate::math::tsc_incr;
use crate::math::valid_format;

verus! {

/// The stay of the guest on one host: from `start_time` (in seconds) until
/// the next segment starts or the simulation ends. `host_tsc` is the host's
/// counter at `start_time`, `host_frequency` its ticks per second.
#[derive(Clone, Copy, Debug, PartialEq, Eq, Structural)]
pub struct HostSegment {
    pub start_time: u64,
    pub host_tsc: u64,
    pub host_frequency: u64,
}

/// The pair of counters that coincide when a segment starts.
#[derive(Clone, Copy, Debug, PartialEq, Eq, Structural)]
pub struct GuestTscAnchor {
    pub initial_host_tsc: u64,
    pub initial_guest_tsc: u64,
}

/// What the guest and its host show at one second of the simulation.
#[derive(Clone, Copy, Debug, PartialEq, Eq, Structural)]
pub struct Sample {
    pub time: u64,
    pub guest_tsc: u64,
    pub host_tsc: u64,
}

/// A simulation that stopped: the step that failed, why, and the samples
/// taken before it.
#[derive(Debug, PartialEq, Eq)]
pub struct SimulationFailure {
    pub segment: usize,
    pub time: u64,
    pub error: TscError,
    pub completed: Vec<Sample>,
}

/// The time at which segment `h` ends: the start of the next segment, or
/// `duration` for the last one.
pub open spec fn segment_end(hosts: Seq<HostSegment>, duration: u64, h: int) -> int {
    if h + 1 < hosts.len() {
        hosts[h + 1].start_time as int
    } else {
        duration as int
    }
}

/// The counter of a segment's host at `time`.
pub open spec fn host_tsc_at(segment: HostSegment, time: int) -> int {
    segment.host_tsc + (time - segment.start_time) * segment.host_frequency
}

/// The steps at which the guest counter is computed. In segment `h` these are
/// the seconds from its start up to, but not including, its end; and, unless
/// it is the last segment, the moment of migration at its end.
pub open spec fn is_step(hosts: Seq<HostSegment>, duration: u64, h: int, time: int) -> bool {
    &&& 0 <= h < hosts.len()
    &&& hosts[h].start_time <= time
    &&& time < segment_end(hosts, duration, h) || (time == segment_end(hosts, duration, h) && h
        + 1 < hosts.len())
}

/// The order in which steps are taken: segment by segment, second by second.
pub open spec fn step_precedes(h1: int, time1: int, h2: int, time2: int) -> bool {
    h1 < h2 || (h1 == h2 && time1 < time2)
}

/// What a list of segments must satisfy to be simulated for `duration`
/// seconds: there is a first segment and it starts at boot; each segment
/// starts later than the one before; every host counter ticks; and no host
/// counter leaves the 64-bit range at a step.
pub open spec fn valid_schedule(hosts: Seq<HostSegment>, duration: u64) -> bool {
    &&& hosts.len() > 0
    &&& hosts[0].start_time == 0
    &&& forall|h: int| 0 <= h < hosts.len() ==> (#[trigger] hosts[h]).host_frequency != 0
    &&& forall|h: int|
        0 <= h < hosts.len() - 1 ==> (#[trigger] hosts[h]).start_time < hosts[h + 1].start_time
    &&& forall|h: int, time: int| #[trigger]
        is_step(hosts, duration, h, time) ==> host_tsc_at(hosts[h], time) <= u64::MAX
}

/// The anchor of segment `h`. At boot the guest counter is zero. After a
/// migration it is what the guest counter was on the previous host at the
/// moment of migration.
pub open spec fn anchor_at(
    hosts: Seq<HostSegment>,
    guest_hz: u64,
    frac_size: u32,
    int_size: u32,
    h: int,
) -> Result<GuestTscAnchor, TscError>
    decreases h, 0int,
{
    if h <= 0 {
        Ok(GuestTscAnchor { initial_host_tsc: hosts[0].host_tsc, initial_guest_tsc: 0 })
    } else {
        match guest_tsc_at(
            hosts,
            guest_hz,
            frac_size,
            int_size,
            h - 1,
            hosts[h].start_time as int,
        ) {
            Ok(guest) => Ok(
                GuestTscAnchor { initial_host_tsc: hosts[h].host_tsc, initial_guest_tsc: guest },
            ),
            Err(e) => Err(e),
        }
    }
}

/// The guest counter at `time` while the guest runs on the host of segment
/// `h`, or the reason why there is none.
pub open spec fn guest_tsc_at(
    hosts: Seq<HostSegment>,
    guest_hz: u64,
    frac_size: u32,
    int_size: u32,
    h: int,
    time: int,
) -> Result<u64, TscError>
    decreases h, 1int,
{
    match anchor_at(hosts, guest_hz, frac_size, int_size, h) {
        Ok(anchor) => guest_tsc_spec(
            anchor.initial_host_tsc,
            anchor.initial_guest_tsc,
            hosts[h].host_frequency,
            guest_hz,
            host_tsc_at(hosts[h], time) as u64,
            frac_size,
            int_size,
        ),
        Err(e) => Err(e),
    }
}

/// The sample of `time` in segment `h`, where the guest counter exists.
pub open spec fn sample_at(
    hosts: Seq<HostSegment>,
    guest_hz: u64,
    frac_size: u32,
    int_size: u32,
    h: int,
    time: int,
) -> Sample
    recommends
        guest_tsc_at(hosts, guest_hz, frac_size, int_size, h, time) is Ok,
{
    Sample {
        time: time as u64,
        guest_tsc: guest_tsc_at(hosts, guest_hz, frac_size, int_size, h, time).unwrap(),
        host_tsc: host_tsc_at(hosts[h], time) as u64,
    }
}

/// The samples of segment `h` for the seconds from its start up to, but not
/// including, `until`.
pub open spec fn segment_samples(
    hosts: Seq<HostSegment>,
    guest_hz: u64,
    frac_size: u32,
    int_size: u32,
    h: int,
    until: int,
) -> Seq<Sample> {
    let start = hosts[h].start_time as int;
    Seq::new(
        if until > start {
            (until - start) as nat
        } else {
            0
        },
        |i: int| sample_at(hosts, guest_hz, frac_size, int_size, h, start + i),
    )
}

/// The samples of all segments before `h` in order, followed by the samples
/// of segment `h` for the seconds before `until`.
pub open spec fn samples_until(
    hosts: Seq<HostSegment>,
    duration: u64,
    guest_hz: u64,
    frac_size: u32,
    int_size: u32,
    h: int,
    until: int,
) -> Seq<Sample>
    decreases h,
{
    if h <= 0 {
        segment_samples(hosts, guest_hz, frac_size, int_size, 0, until)
    } else {
        samples_until(
            hosts,
            duration,
            guest_hz,
            frac_size,
            int_size,
            h - 1,
            segment_end(hosts, duration, h - 1),
        ) + segment_samples(hosts, guest_hz, frac_size, int_size, h, until)
    }
}

/// Every step before step `(h, time)` yields a guest counter.
pub open spec fn steps_succeed_before(
    hosts: Seq<HostSegment>,
    duration: u64,
    guest_hz: u64,
    frac_size: u32,
    int_size: u32,
    h: int,
    time: int,
) -> bool {
    forall|i: int, t: int|
        #[trigger] is_step(hosts, duration, i, t) && step_precedes(i, t, h, time) ==> guest_tsc_at(
            hosts,
            guest_hz,
            frac_size,
            int_size,
            i,
            t,
        ) is Ok
}

/// One second later the host counter has advanced by the host frequency.
proof fn lemma_host_tsc_step(segment: HostSegment, time: int)
    ensures
        host_tsc_at(segment, time + 1) == host_tsc_at(segment, time) + segment.host_frequency,
{
    let elapsed = time - segment.start_time;
    let frequency = segment.host_frequency as int;
    assert((elapsed + 1) * frequency == elapsed * frequency + frequency) by (nonlinear_arith);
}

/// The host counter never runs backwards.
proof fn lemma_host_tsc_monotonic(segment: HostSegment, earlier: int, later: int)
    requires
        earlier <= later,
    ensures
        host_tsc_at(segment, earlier) <= host_tsc_at(segment, later),
{
    lemma_mul_inequality(
        earlier - segment.start_time,
        later - segment.start_time,
        segment.host_frequency as int,
    );
}

/// Decides whether a list of segments can be simulated for `duration`
/// seconds.
pub fn check_schedule(hosts: &Vec<HostSegment>, duration: u64) -> (ok: bool)
    ensures
        ok == valid_schedule(hosts@, duration),
{
    let num_hosts: usize = hosts.len();
    if num_hosts == 0 || hosts[0].start_time != 0 {
        return false;
    }
    let mut h: usize = 0;
    while h < num_hosts
        invariant
            h <= num_hosts,
            num_hosts == hosts.len(),
            forall|i: int| 0 <= i < h ==> (#[trigger] hosts[i]).host_frequency != 0,
            forall|i: int|
                0 <= i < h && i < hosts.len() - 1 ==> (#[trigger] hosts[i]).start_time < hosts[i
                    + 1].start_time,
            forall|i: int, time: int| #[trigger]
                is_step(hosts@, duration, i, time) && i < h ==> host_tsc_at(hosts[i], time)
                    <= u64::MAX,
        decreases num_hosts - h,
    {
        let segment: HostSegment = hosts[h];
        if segment.host_frequency == 0 {
            return false;
        }
        let is_last: bool = h + 1 == num_hosts;
        if !is_last && segment.start_time >= hosts[h + 1].start_time {
            return false;
        }
        // The host counter is largest at the last step of the segment.
        let last_step: Option<u64> = if !is_last {
            Some(hosts[h + 1].start_time)
        } else if duration > segment.start_time {
            Some(duration - 1)
        } else {
            None
        };
        match last_step {
            Some(time) => {
                assert(is_step(hosts@, duration, h as int, time as int));
                let elapsed: u64 = time - segment.start_time;
                assert(elapsed * segment.host_frequency <= 0xffff_ffff_ffff_ffff
                    * 0xffff_ffff_ffff_ffff) by (nonlinear_arith)
                    requires
                        0 <= elapsed <= 0xffff_ffff_ffff_ffff,
                        0 <= segment.host_frequency <= 0xffff_ffff_ffff_ffff,
                ;
                let ticks: u128 = elapsed as u128 * segment.host_frequency as u128;
                if segment.host_tsc as u128 + ticks > u64::MAX as u128 {
                    return false;
                }
                assert forall|i: int, t: int| #[trigger]
                    is_step(hosts@, duration, i, t) && i < h + 1 implies host_tsc_at(hosts[i], t)
                    <= u64::MAX by {
                    if i == h {
                        lemma_host_tsc_monotonic(segment, t, time as int);
                    }
                }
            },
            None => {},
        }
        h += 1;
    }
    true
}

/// Simulates the guest for `duration` seconds on the hosts of `hosts`.
///
/// In each segment, from its start up to but not including its end, every
/// second yields one sample: the time, the guest counter and the host
/// counter, which then advances by the host frequency. At the end of a
/// segment that another one follows, the guest counter is computed once more,
/// at the moment of migration, and becomes the guest counter of the next
/// segment's anchor. The first step at which the guest counter cannot be
/// computed ends the simulation: the failure names the step and the error and
/// holds the samples taken before it.
pub fn simulate(
    duration: u64,
    guest_hz: u64,
    hosts: &Vec<HostSegment>,
    format: FixedPointFormat,
) -> (res: Result<Vec<Sample>, SimulationFailure>)
    requires
        guest_hz != 0,
        valid_schedule(hosts@, duration),
    ensures
        match res {
            // every step succeeded, and the samples are those of all segments
            Ok(samples) => {
                &&& steps_succeed_before(
                    hosts@,
                    duration,
                    guest_hz,
                    format.bits().1 as u32,
                    format.bits().0 as u32,
                    hosts.len() as int,
                    0,
                )
                &&& samples@ == samples_until(
                    hosts@,
                    duration,
                    guest_hz,
                    format.bits().1 as u32,
                    format.bits().0 as u32,
                    hosts.len() - 1,
                    duration as int,
                )
            },
            // the failure is the first step without a guest counter
            Err(failure) => {
                &&& is_step(hosts@, duration, failure.segment as int, failure.time as int)
                &&& guest_tsc_at(
                    hosts@,
                    guest_hz,
                    format.bits().1 as u32,
                    format.bits().0 as u32,
                    failure.segment as int,
                    failure.time as int,
                ) == Err::<u64, TscError>(failure.error)
                &&& steps_succeed_before(
                    hosts@,
                    duration,
                    guest_hz,
                    format.bits().1 as u32,
                    format.bits().0 as u32,
                    failure.segment as int,
                    failure.time as int,
                )
                &&& failure.completed@ == samples_until(
                    hosts@,
                    duration,
                    guest_hz,
                    format.bits().1 as u32,
                    format.bits().0 as u32,
                    failure.segment as int,
                    failure.time as int,
                )
            },
        },
{
    let frac_size: u32 = format.frac_bits() as u32;
    let int_size: u32 = format.int_bits() as u32;
    let num_hosts: usize = hosts.len();
    let mut samples: Vec<Sample> = Vec::new();
    let mut anchor: GuestTscAnchor = GuestTscAnchor {
        initial_host_tsc: hosts[0].host_tsc,
        initial_guest_tsc: 0,
    };

    let mut h: usize = 0;
    while h < num_hosts
        invariant
            h <= num_hosts,
            num_hosts == hosts.len(),
            guest_hz != 0,
            valid_schedule(hosts@, duration),
            valid_format(int_size, frac_size),
            frac_size == format.bits().1,
            int_size == format.bits().0,
            h < num_hosts ==> anchor_at(hosts@, guest_hz, frac_size, int_size, h as int) == Ok::<
                GuestTscAnchor,
                TscError,
            >(anchor),
            steps_succeed_before(hosts@, duration, guest_hz, frac_size, int_size, h as int, 0),
            h == 0 ==> samples@ == Seq::<Sample>::empty(),
            h > 0 ==> samples@ == samples_until(
                hosts@,
                duration,
                guest_hz,
                frac_size,
                int_size,
                h - 1,
                segment_end(hosts@, duration, h - 1),
            ),
        decreases num_hosts - h,
    {
        let segment: HostSegment = hosts[h];
        let is_last: bool = h + 1 == num_hosts;
        // The segment ends when the next one starts, or with the simulation.
        let end: u64 = if is_last {
            duration
        } else {
            hosts[h + 1].start_time
        };
        let ghost earlier: Seq<Sample> = samples@;

        let mut cur_host_tsc: u64 = segment.host_tsc;
        let mut time: u64 = segment.start_time;
        proof {
            assert(segment_samples(
                hosts@,
                guest_hz,
                frac_size,
                int_size,
                h as int,
                time as int,
            ) =~= Seq::<Sample>::empty());
            assert(earlier + Seq::<Sample>::empty() =~= earlier);
        }
        while time < end
            invariant
                h < num_hosts,
                num_hosts == hosts.len(),
                guest_hz != 0,
                valid_schedule(hosts@, duration),
                valid_format(int_size, frac_size),
                frac_size == format.bits().1,
                int_size == format.bits().0,
                segment == hosts[h as int],
                is_last == (h + 1 == num_hosts),
                end == segment_end(hosts@, duration, h as int),
                anchor_at(hosts@, guest_hz, frac_size, int_size, h as int) == Ok::<
                    GuestTscAnchor,
                    TscError,
                >(anchor),
                segment.start_time <= time,
                time <= end || time == segment.start_time,
                time < end || !is_last ==> cur_host_tsc == host_tsc_at(segment, time as int),
                steps_succeed_before(
                    hosts@,
                    duration,
                    guest_hz,
                    frac_size,
                    int_size,
                    h as int,
                    time as int,
                ),
                h == 0 ==> earlier == Seq::<Sample>::empty(),
                h > 0 ==> earlier == samples_until(
                    hosts@,
                    duration,
                    guest_hz,
                    frac_size,
                    int_size,
                    h - 1,
                    segment_end(hosts@, duration, h - 1),
                ),
                samples@ == earlier + segment_samples(
                    hosts@,
                    guest_hz,
                    frac_size,
                    int_size,
                    h as int,
                    time as int,
                ),
            decreases end - time,
        {
            assert(is_step(hosts@, duration, h as int, time as int));
            // The guest counter for this point in time.
            match guest_tsc(
                anchor.initial_host_tsc,
                anchor.initial_guest_tsc,
                segment.host_frequency,
                guest_hz,
                cur_host_tsc,
                frac_size,
                int_size,
            ) {
                Ok(guest) => {
                    samples.push(Sample { time, guest_tsc: guest, host_tsc: cur_host_tsc });
                },
                Err(e) => {
                    proof {
                        lemma_samples_until_unfold(
                            hosts@,
                            duration,
                            guest_hz,
                            frac_size,
                            int_size,
                            h as int,
                            time as int,
                        );
                    }
                    return Err(
                        SimulationFailure { segment: h, time, error: e, completed: samples },
                    );
                },
            }
            proof {
                assert(segment_samples(
                    hosts@,
                    guest_hz,
                    frac_size,
                    int_size,
                    h as int,
                    time + 1,
                ) =~= segment_samples(
                    hosts@,
                    guest_hz,
                    frac_size,
                    int_size,
                    h as int,
                    time as int,
                ).push(sample_at(hosts@, guest_hz, frac_size, int_size, h as int, time as int)));
                assert(samples@ =~= earlier + segment_samples(
                    hosts@,
                    guest_hz,
                    frac_size,
                    int_size,
                    h as int,
                    time + 1,
                ));
                lemma_host_tsc_step(segment, time as int);
            }
            time = time + 1;
            if time < end || !is_last {
                assert(is_step(hosts@, duration, h as int, time as int));
                cur_host_tsc = tsc_incr(cur_host_tsc, segment.host_frequency);
            }
        }
        proof {
            assert(segment_samples(hosts@, guest_hz, frac_size, int_size, h as int, time as int)
                =~= segment_samples(hosts@, guest_hz, frac_size, int_size, h as int, end as int));
            lemma_samples_until_unfold(
                hosts@,
                duration,
                guest_hz,
                frac_size,
                int_size,
                h as int,
                end as int,
            );
        }

        if !is_last {
            assert(is_step(hosts@, duration, h as int, end as int));
            // The guest counter at the moment of migration is where the
            // guest starts on the next host.
            match guest_tsc(
                anchor.initial_host_tsc,
                anchor.initial_guest_tsc,
                segment.host_frequency,
                guest_hz,
                cur_host_tsc,
                frac_size,
                int_size,
            ) {
                Ok(guest) => {
                    anchor = GuestTscAnchor {
                        initial_host_tsc: hosts[h + 1].host_tsc,
                        initial_guest_tsc: guest,
                    };
                },
                Err(e) => {
                    return Err(
                        SimulationFailure { segment: h, time: end, error: e, completed: samples },
                    );
                },
            }
        }
        h += 1;
    }
    Ok(samples)
}

/// The samples up to a step are those of the earlier segments followed by
/// those of the step's own segment.
proof fn lemma_samples_until_unfold(
    hosts: Seq<HostSegment>,
    duration: u64,
    guest_hz: u64,
    frac_size: u32,
    int_size: u32,
    h: int,
    until: int,
)
    requires
        0 <= h,
    ensures
        samples_until(hosts, duration, guest_hz, frac_size, int_size, h, until) == (if h == 0 {
            Seq::<Sample>::empty()
        } else {
            samples_until(
                hosts,
                duration,
                guest_hz,
                frac_size,
                int_size,
                h - 1,
                segment_end(hosts, duration, h - 1),
            )
        }) + segment_samples(hosts, guest_hz, frac_size, int_size, h, until),
{
    if h == 0 {
        assert(Seq::<Sample>::empty() + segment_samples(
            hosts,
            guest_hz,
            frac_size,
            int_size,
            h,
            until,
        ) =~= segment_samples(hosts, guest_hz, frac_size, int_size, h, until));
    }
}

} // verus!
