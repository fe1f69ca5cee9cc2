//! Decoder for crank trigger wheels with a missing-tooth gap (60-2, 36-1, ...).
//!
//! The decoder is a single-threaded state machine fed one timestamped rising
//! edge at a time by `on_edge`, with `check_stall` called periodically from a
//! slow loop. Timestamps come from a free-running 32-bit microsecond counter
//! and wrap modulo 2^32; all interval arithmetic is wrapping.

use vstd::prelude::*;

use crate::decoder::DecoderEvent;

verus! {

/// Default fraction of the previous interval, in percent, below which an
/// edge is rejected as noise.
pub const DEFAULT_NOISE_FILTER_PERCENT: u32 = 25;

/// Default silence, in microseconds, after which the next edge is treated as
/// a cold start.
pub const DEFAULT_MAX_TOOTH_TIME_US: u32 = 500_000;

/// Default silence, in microseconds, after which `check_stall` declares the
/// engine stopped.
pub const DEFAULT_STALL_TIMEOUT_US: u32 = 500_000;

/// Default weight of the newest sample, in percent, in the exponential
/// moving average that smooths the RPM.
pub const DEFAULT_FILTER_ALPHA: u32 = 20;

/// State machine that decodes a missing-tooth trigger wheel.
///
/// Configuration fields are set once by `new`; the runtime fields mutate on
/// every accepted edge. All public operations require and preserve `wf`.
pub struct MissingToothDecoder {
    /// Number of tooth positions the wheel would have if it were complete.
    pub teeth_total: u8,
    /// Number of absent teeth forming the gap.
    pub teeth_missing: u8,
    /// Index of the last processed tooth; tooth 0 follows the gap.
    pub current_tooth_idx: u8,
    /// True once a gap has been identified.
    pub synced: bool,
    /// Timestamp of the last accepted edge, in microseconds.
    pub last_timestamp: u32,
    /// Duration of the previous inter-tooth interval, in microseconds.
    pub last_delta: u32,
    /// RPM derived from the most recent non-gap interval.
    pub rpm_instant: u16,
    /// Exponentially smoothed RPM.
    pub rpm_filtered: u16,
    /// True until the very first edge has been observed.
    pub first_edge: bool,
    /// An edge shorter than this percentage of `last_delta` is noise.
    pub noise_filter_percent: u32,
    /// Silence after which the next edge fully resets the decoder.
    pub max_tooth_time_us: u32,
    /// Silence after which `check_stall` forces the RPM to zero.
    pub stall_timeout_us: u32,
    /// Weight of the newest sample in the RPM moving average, in percent.
    pub filter_alpha: u32,
}

impl MissingToothDecoder {
    /// The number of physical teeth actually present on the wheel.
    pub open spec fn real_teeth(self) -> int {
        self.teeth_total - self.teeth_missing
    }

    /// Well-formedness: sane wheel geometry, a tooth index inside the wheel,
    /// and configuration values inside their meaningful ranges.
    pub open spec fn wf(self) -> bool {
        &&& 1 <= self.teeth_missing < self.teeth_total
        &&& 0 <= self.current_tooth_idx < self.real_teeth()
        &&& self.last_delta <= self.max_tooth_time_us
        &&& self.noise_filter_percent <= 100
        &&& self.filter_alpha <= 100
    }

    /// The state `new` builds for a given wheel geometry.
    pub open spec fn spec_new(total: u8, missing: u8) -> MissingToothDecoder {
        MissingToothDecoder {
            teeth_total: total,
            teeth_missing: missing,
            current_tooth_idx: 0,
            synced: false,
            last_timestamp: 0,
            last_delta: 0,
            rpm_instant: 0,
            rpm_filtered: 0,
            first_edge: true,
            noise_filter_percent: DEFAULT_NOISE_FILTER_PERCENT,
            max_tooth_time_us: DEFAULT_MAX_TOOTH_TIME_US,
            stall_timeout_us: DEFAULT_STALL_TIMEOUT_US,
            filter_alpha: DEFAULT_FILTER_ALPHA,
        }
    }

    /// Create a decoder for a wheel with `total` tooth positions of which
    /// `missing` are absent, with the default filter configuration.
    pub fn new(total: u8, missing: u8) -> (d: MissingToothDecoder)
        requires
            1 <= missing < total,
        ensures
            d == Self::spec_new(total, missing),
            d.wf(),
    {
        MissingToothDecoder {
            teeth_total: total,
            teeth_missing: missing,
            current_tooth_idx: 0,
            synced: false,
            last_timestamp: 0,
            last_delta: 0,
            rpm_instant: 0,
            rpm_filtered: 0,
            first_edge: true,
            noise_filter_percent: DEFAULT_NOISE_FILTER_PERCENT,
            max_tooth_time_us: DEFAULT_MAX_TOOTH_TIME_US,
            stall_timeout_us: DEFAULT_STALL_TIMEOUT_US,
            filter_alpha: DEFAULT_FILTER_ALPHA,
        }
    }

    /// The state `reset` leaves behind: back to the cold-start state, with
    /// the configuration and the last timestamp kept.
    pub open spec fn spec_reset(self) -> MissingToothDecoder {
        MissingToothDecoder {
            current_tooth_idx: 0,
            synced: false,
            last_delta: 0,
            rpm_instant: 0,
            rpm_filtered: 0,
            first_edge: true,
            ..self
        }
    }

    /// Discard all runtime state, as after extended silence: the next edge
    /// is treated as the first edge of a cold start.
    pub fn reset(&mut self)
        requires
            old(self).wf(),
        ensures
            *final(self) == old(self).spec_reset(),
            final(self).wf(),
    {
        self.first_edge = true;
        self.synced = false;
        self.current_tooth_idx = 0;
        self.last_delta = 0;
        self.rpm_filtered = 0;
        self.rpm_instant = 0;
    }

    /// Smoothed engine speed in RPM.
    pub fn get_rpm(&self) -> (r: u16)
        ensures
            r == self.rpm_filtered,
    {
        self.rpm_filtered
    }

    /// Engine speed from the most recent non-gap interval, in RPM.
    pub fn get_instant_rpm(&self) -> (r: u16)
        ensures
            r == self.rpm_instant,
    {
        self.rpm_instant
    }

    /// Whether the gap has been identified and the angle is meaningful.
    pub fn is_synced(&self) -> (r: bool)
        ensures
            r == self.synced,
    {
        self.synced
    }

    /// The inter-edge interval on a wrapping 32-bit microsecond clock:
    /// `t - last` computed modulo 2^32, always in `[0, 2^32)`.
    pub open spec fn spec_delta(t: u32, last: u32) -> int {
        if t >= last {
            t - last
        } else {
            t - last + 0x1_0000_0000
        }
    }

    /// Whether an interval `delta` is rejected as noise against the previous
    /// interval: shorter than `noise_filter_percent` percent of it, or
    /// absurdly short in absolute terms.
    pub open spec fn spec_is_noise(self, delta: int) -> bool {
        (self.last_delta > 0 && delta < self.last_delta * self.noise_filter_percent / 100)
            || delta < 5
    }

    /// Whether an interval `delta` is the missing-tooth gap: more than 1.5
    /// times the previous interval, tested in integer arithmetic.
    pub open spec fn spec_is_gap(self, delta: int) -> bool {
        self.last_delta > 0 && 2 * delta > 3 * self.last_delta
    }

    /// Instantaneous RPM for one tooth interval of `delta` microseconds,
    /// truncated to 16 bits.
    pub open spec fn spec_raw_rpm(total: u8, delta: int) -> int {
        ((60_000_000int / total as int) / delta) % 0x10000
    }

    /// One step of the exponential moving average: the new sample weighs
    /// `alpha` percent, the history `100 - alpha` percent.
    pub open spec fn spec_ema(alpha: u32, prev: u16, sample: int) -> int {
        (sample * alpha + prev * (100 - alpha)) / 100
    }

    /// The complete edge transition: from a state and an edge timestamp to
    /// the successor state and the reported event. `on_edge` implements
    /// exactly this function.
    pub open spec fn spec_on_edge(s: MissingToothDecoder, timestamp_us: u32) -> (MissingToothDecoder, DecoderEvent) {
        let since_last = Self::spec_delta(timestamp_us, s.last_timestamp);
        // Silence longer than `max_tooth_time_us` means the engine stopped:
        // start over as if from power-up.
        let s0 = if !s.first_edge && since_last > s.max_tooth_time_us {
            s.spec_reset()
        } else {
            s
        };
        if s0.first_edge {
            (
                (MissingToothDecoder { first_edge: false, last_timestamp: timestamp_us, ..s0 }),
                DecoderEvent::NoEvent,
            )
        } else {
            let delta = since_last;
            if s0.spec_is_noise(delta) {
                (s0, DecoderEvent::Noise)
            } else if s0.spec_is_gap(delta) {
                // The gap: tooth 0 comes next; RPM is not updated because the
                // gap interval would bias the filter downward.
                (
                    (MissingToothDecoder {
                        current_tooth_idx: 0,
                        synced: true,
                        last_timestamp: timestamp_us,
                        last_delta: delta as u32,
                        ..s0
                    }),
                    if !s0.synced {
                        DecoderEvent::SyncGained
                    } else {
                        DecoderEvent::ToothProcessed
                    },
                )
            } else {
                // A normal tooth. The first tooth after the gap is skipped for
                // RPM so the long gap interval never enters the average.
                let idx1 = s0.current_tooth_idx + 1;
                let raw = Self::spec_raw_rpm(s0.teeth_total, delta);
                let ri = if delta > 0 && idx1 > 1 { raw as u16 } else { s0.rpm_instant };
                let rf = if delta > 0 && idx1 > 1 {
                    Self::spec_ema(s0.filter_alpha, s0.rpm_filtered, raw) as u16
                } else {
                    s0.rpm_filtered
                };
                if idx1 >= s0.real_teeth() {
                    // More teeth than the wheel has: the gap was missed.
                    (
                        (MissingToothDecoder {
                            current_tooth_idx: 0,
                            synced: false,
                            rpm_instant: ri,
                            rpm_filtered: rf,
                            last_timestamp: timestamp_us,
                            last_delta: delta as u32,
                            ..s0
                        }),
                        DecoderEvent::SyncLost,
                    )
                } else {
                    (
                        (MissingToothDecoder {
                            current_tooth_idx: idx1 as u8,
                            rpm_instant: ri,
                            rpm_filtered: rf,
                            last_timestamp: timestamp_us,
                            last_delta: delta as u32,
                            ..s0
                        }),
                        DecoderEvent::ToothProcessed,
                    )
                }
            }
        }
    }

    /// Process one rising edge of the crank sensor, stamped in microseconds
    /// by a wrapping 32-bit clock. Returns what the decoder concluded; the
    /// new state and the event are exactly `spec_on_edge` of the old state.
    pub fn on_edge(&mut self, timestamp_us: u32) -> (ev: DecoderEvent)
        requires
            old(self).wf(),
        ensures
            *final(self) == Self::spec_on_edge(*old(self), timestamp_us).0,
            ev == Self::spec_on_edge(*old(self), timestamp_us).1,
            final(self).wf(),
            old(self).first_edge ==> ev == DecoderEvent::NoEvent,
            ev == DecoderEvent::Noise ==> *final(self) == *old(self),
            ev == DecoderEvent::SyncGained ==> final(self).synced
                && final(self).current_tooth_idx == 0,
            ev == DecoderEvent::SyncLost ==> !final(self).synced,
    {
        let ghost pre = *self;
        let since_last = timestamp_us.wrapping_sub(self.last_timestamp);
        proof {
            assert(since_last == Self::spec_delta(timestamp_us, pre.last_timestamp));
        }

        if !self.first_edge && since_last > self.max_tooth_time_us {
            self.reset();
        }

        if self.first_edge {
            self.first_edge = false;
            self.last_timestamp = timestamp_us;
            return DecoderEvent::NoEvent;
        }

        // No reset happened on this path, so the interval is bounded by
        // `max_tooth_time_us` and the reference timestamp is unchanged.
        let delta = since_last;

        if self.last_delta > 0 {
            proof {
                assert((self.last_delta as int) * (self.noise_filter_percent as int)
                    <= 0xFFFF_FFFFint * 100) by (nonlinear_arith)
                    requires
                        self.last_delta <= 0xFFFF_FFFF,
                        self.noise_filter_percent <= 100,
                ;
            }
            let min_valid: u64 = (self.last_delta as u64) * (self.noise_filter_percent as u64) / 100;
            if (delta as u64) < min_valid {
                // Spark noise: pretend the edge never happened, keeping the
                // previous timestamp as the reference.
                return DecoderEvent::Noise;
            }
        }
        if delta < 5 {
            return DecoderEvent::Noise;
        }

        self.last_timestamp = timestamp_us;

        let mut event = DecoderEvent::ToothProcessed;

        if self.last_delta > 0 && 2 * (delta as u64) > 3 * (self.last_delta as u64) {
            self.current_tooth_idx = 0;
            if !self.synced {
                self.synced = true;
                event = DecoderEvent::SyncGained;
            }
        } else {
            self.current_tooth_idx = self.current_tooth_idx + 1;

            if delta > 0 && self.current_tooth_idx > 1 {
                let factor: u32 = 60_000_000 / (self.teeth_total as u32);
                let raw_rpm: u16 = ((factor / delta) % 0x10000) as u16;
                self.rpm_instant = raw_rpm;

                let alpha = self.filter_alpha;
                let inv_alpha = 100 - alpha;
                proof {
                    assert((raw_rpm as int) * (alpha as int) <= 65535 * 100
                        && (self.rpm_filtered as int) * (inv_alpha as int) <= 65535 * 100
                        && (raw_rpm as int) * (alpha as int)
                            + (self.rpm_filtered as int) * (inv_alpha as int) <= 65535 * 100)
                        by (nonlinear_arith)
                        requires
                            raw_rpm <= 65535,
                            self.rpm_filtered <= 65535,
                            0 <= alpha <= 100,
                            inv_alpha == 100 - alpha,
                    ;
                }
                let smooth: u32 = ((raw_rpm as u32) * alpha + (self.rpm_filtered as u32) * inv_alpha)
                    / 100;
                self.rpm_filtered = smooth as u16;
            }

            let real_teeth = self.teeth_total - self.teeth_missing;
            if self.current_tooth_idx >= real_teeth {
                self.synced = false;
                self.current_tooth_idx = 0;
                event = DecoderEvent::SyncLost;
            }
        }

        self.last_delta = delta;
        event
    }

    /// The stall transition: if nothing has been heard for longer than
    /// `stall_timeout_us` and the filtered RPM is still nonzero, force it to
    /// zero and drop synchronization, reporting the transition.
    pub open spec fn spec_check_stall(s: MissingToothDecoder, now_us: u32) -> (MissingToothDecoder, bool) {
        let since = Self::spec_delta(now_us, s.last_timestamp);
        if since > s.stall_timeout_us && s.rpm_filtered > 0 {
            ((MissingToothDecoder { rpm_filtered: 0, synced: false, ..s }), true)
        } else {
            (s, false)
        }
    }

    /// Periodic stall watchdog, to be called from a slow loop with the
    /// current time of the same wrapping microsecond clock. Returns true
    /// exactly on the transition into the stalled state, so repeated calls
    /// after a stall return false.
    pub fn check_stall(&mut self, now_us: u32) -> (stalled: bool)
        requires
            old(self).wf(),
        ensures
            *final(self) == Self::spec_check_stall(*old(self), now_us).0,
            stalled == Self::spec_check_stall(*old(self), now_us).1,
            final(self).wf(),
            stalled ==> final(self).rpm_filtered == 0 && !final(self).synced,
    {
        let since = now_us.wrapping_sub(self.last_timestamp);
        if since > self.stall_timeout_us && self.rpm_filtered > 0 {
            self.rpm_filtered = 0;
            self.synced = false;
            true
        } else {
            false
        }
    }

    /// The crank angle the decoder would report, in millidegrees: the tooth
    /// index times 360000 / teeth, rounded down.
    pub open spec fn spec_angle_millideg(self) -> int {
        self.current_tooth_idx * 360_000 / self.teeth_total as int
    }

    /// Crank angle of the last processed tooth, in millidegrees.
    /// Always in `[0, 360000)`: the angle stays inside one revolution.
    pub fn get_angle_millideg(&self) -> (a: u32)
        requires
            self.wf(),
        ensures
            a == self.spec_angle_millideg(),
            a < 360_000,
    {
        proof {
            lemma_angle_in_range(*self);
        }
        (self.current_tooth_idx as u32) * 360_000 / (self.teeth_total as u32)
    }
}

/// The reported angle always lies in `[0, 360)` degrees: the tooth index is
/// less than the tooth count, so `idx * 360000 / teeth < 360000`.
pub proof fn lemma_angle_in_range(d: MissingToothDecoder)
    requires
        d.wf(),
    ensures
        0 <= d.spec_angle_millideg() < 360_000,
{
    let idx = d.current_tooth_idx as int;
    let teeth = d.teeth_total as int;
    assert(idx * 360_000 <= (teeth - 1) * 360_000) by (nonlinear_arith)
        requires idx <= teeth - 1
    ;
    assert((teeth - 1) * 360_000 / teeth < 360_000) by (nonlinear_arith)
        requires teeth >= 2
    ;
    assert(idx * 360_000 / teeth <= (teeth - 1) * 360_000 / teeth) by (nonlinear_arith)
        requires 0 <= idx * 360_000 <= (teeth - 1) * 360_000 && teeth >= 2
    ;
    assert(idx * 360_000 >= 0) by (nonlinear_arith)
        requires idx >= 0
    ;
    assert(idx * 360_000 / teeth >= 0) by (nonlinear_arith)
        requires idx * 360_000 >= 0 && teeth >= 2
    ;
}

/// The first edge fed to a fresh decoder reports nothing and establishes no
/// synchronization: it only records the timestamp and leaves the cold-start
/// state.
pub proof fn lemma_first_edge(total: u8, missing: u8, t: u32)
    requires
        1 <= missing < total,
    ensures
        ({
            let s = MissingToothDecoder::spec_new(total, missing);
            let (s1, ev) = MissingToothDecoder::spec_on_edge(s, t);
            &&& ev == DecoderEvent::NoEvent
            &&& !s1.synced
            &&& !s1.first_edge
            &&& s1.last_timestamp == t
            &&& s1.rpm_filtered == 0
            &&& s1.current_tooth_idx == 0
        }),
{
}

/// An edge after silence longer than `max_tooth_time_us` behaves exactly as
/// the first edge of a freshly reset decoder: everything but the
/// configuration is forgotten, nothing is reported, and synchronization and
/// RPM are gone.
pub proof fn lemma_stale_edge_is_cold_start(s: MissingToothDecoder, t: u32)
    requires
        s.wf(),
        !s.first_edge,
        MissingToothDecoder::spec_delta(t, s.last_timestamp) > s.max_tooth_time_us,
    ensures
        MissingToothDecoder::spec_on_edge(s, t) == MissingToothDecoder::spec_on_edge(
            s.spec_reset(),
            t,
        ),
        MissingToothDecoder::spec_on_edge(s, t).1 == DecoderEvent::NoEvent,
        !MissingToothDecoder::spec_on_edge(s, t).0.synced,
        MissingToothDecoder::spec_on_edge(s, t).0.rpm_filtered == 0,
{
}

/// The angle is pinned by the events: the edge that reports `SyncGained`
/// (or any recognized gap) puts the decoder at tooth 0, angle 0; and a
/// normal tooth, reported `ToothProcessed` when the interval is not a gap,
/// advances the angle by exactly 360/teeth degrees -- stated in units of
/// 1/teeth of a degree, where it is exact.
pub proof fn lemma_angle_tracks_teeth(s: MissingToothDecoder, t: u32)
    requires
        s.wf(),
    ensures
        ({
            let (s1, ev) = MissingToothDecoder::spec_on_edge(s, t);
            &&& ev == DecoderEvent::SyncGained ==> s1.current_tooth_idx * 360 == 0
                && s1.spec_angle_millideg() == 0
            &&& (ev == DecoderEvent::ToothProcessed && !s.spec_is_gap(
                MissingToothDecoder::spec_delta(t, s.last_timestamp),
            )) ==> s1.current_tooth_idx * 360 == s.current_tooth_idx * 360 + 360
        }),
{
}

/// Wrapping timestamp subtraction computes the same interval as subtraction
/// in infinite precision modulo 2^32.
pub proof fn lemma_delta_is_mod_diff(t: u32, last: u32)
    ensures
        MissingToothDecoder::spec_delta(t, last) == (t - last) % 0x1_0000_0000,
{
    if t >= last {
        assert((t - last) % 0x1_0000_0000 == t - last) by (nonlinear_arith)
            requires 0 <= t - last < 0x1_0000_0000
        ;
    } else {
        assert((t - last) % 0x1_0000_0000 == t - last + 0x1_0000_0000) by (nonlinear_arith)
            requires 0 > t - last >= -0x1_0000_0000
        ;
    }
}

/// An edge `d` microseconds after `last` on the wrapping clock yields the
/// interval `d`, whether or not the counter wrapped in between.
pub proof fn lemma_wrapped_edges_same_delta(last: u32, d: int, t: u32)
    requires
        0 <= d < 0x1_0000_0000,
        t == (last + d) % 0x1_0000_0000,
    ensures
        MissingToothDecoder::spec_delta(t, last) == d,
{
    if last + d < 0x1_0000_0000 {
        assert((last + d) % 0x1_0000_0000 == last + d) by (nonlinear_arith)
            requires 0 <= last + d < 0x1_0000_0000
        ;
    } else {
        assert((last + d) % 0x1_0000_0000 == last + d - 0x1_0000_0000) by (nonlinear_arith)
            requires 0x1_0000_0000 <= last + d < 2 * 0x1_0000_0000
        ;
    }
}

/// A stall is reported exactly once: whatever time a later check uses, the
/// transition into the stalled state cannot be reported again until edges
/// have brought the RPM back up.
pub proof fn lemma_stall_reported_once(s: MissingToothDecoder, now1: u32, now2: u32)
    requires
        s.wf(),
        MissingToothDecoder::spec_check_stall(s, now1).1,
    ensures
        !MissingToothDecoder::spec_check_stall(
            MissingToothDecoder::spec_check_stall(s, now1).0,
            now2,
        ).1,
{
}

/// One step of the RPM filter never overshoots and, for a rising sample,
/// closes exactly `alpha` percent of the gap (rounded down): starting from
/// `prev` with a steady instantaneous RPM `sample`, the filtered value
/// climbs monotonically toward `sample` and stays bracketed between the
/// two, which is why a steady tooth period drives `get_rpm` to the steady
/// RPM.
pub proof fn lemma_ema_step(alpha: u32, prev: u16, sample: int)
    requires
        0 <= alpha <= 100,
        0 <= sample <= 65535,
    ensures
        prev <= sample ==> MissingToothDecoder::spec_ema(alpha, prev, sample) == prev + alpha * (
        sample - prev) / 100,
        prev <= sample ==> prev <= MissingToothDecoder::spec_ema(alpha, prev, sample) <= sample,
        sample <= prev ==> sample <= MissingToothDecoder::spec_ema(alpha, prev, sample) <= prev,
        prev <= sample && alpha * (sample - prev) >= 100
            ==> MissingToothDecoder::spec_ema(alpha, prev, sample) >= prev + 1,
{
    let num = sample * alpha + prev * (100 - alpha);
    if prev <= sample {
        assert(num == prev * 100 + alpha * (sample - prev)) by (nonlinear_arith)
            requires num == sample * alpha + prev * (100 - alpha)
        ;
        assert((prev * 100 + alpha * (sample - prev)) / 100 == prev + alpha * (sample - prev)
            / 100) by (nonlinear_arith)
            requires 0 <= alpha * (sample - prev)
        ;
        assert(0 <= alpha * (sample - prev)) by (nonlinear_arith)
            requires 0 <= alpha && 0 <= sample - prev
        ;
        assert(alpha * (sample - prev) / 100 <= sample - prev) by (nonlinear_arith)
            requires 0 <= alpha <= 100 && 0 <= sample - prev
        ;
        assert(alpha * (sample - prev) / 100 >= 0) by (nonlinear_arith)
            requires 0 <= alpha * (sample - prev)
        ;
    } else {
        assert(prev * 100 >= num >= sample * 100) by (nonlinear_arith)
            requires
                0 <= alpha <= 100 && 0 <= sample <= prev && num == sample * alpha + prev * (100
                    - alpha),
        ;
        assert(num / 100 <= prev) by (nonlinear_arith)
            requires num <= prev * 100
        ;
        assert(num / 100 >= sample) by (nonlinear_arith)
            requires num >= sample * 100
        ;
    }
}

/// Where the rising filter comes to rest: a value the filter no longer
/// moves from lies within 100/alpha of the steady sample, which bounds the
/// tolerance of the filtered RPM under a steady tooth period.
pub proof fn lemma_ema_fixpoint_close(alpha: u32, prev: u16, sample: int)
    requires
        1 <= alpha <= 100,
        0 <= sample <= 65535,
        prev <= sample,
        MissingToothDecoder::spec_ema(alpha, prev, sample) == prev,
    ensures
        alpha * (sample - prev) < 100,
{
    lemma_ema_step(alpha, prev, sample);
    let g = alpha * (sample - prev);
    assert(g >= 0) by (nonlinear_arith)
        requires
            alpha >= 0 && sample - prev >= 0,
            g == alpha * (sample - prev),
    ;
    assert(g / 100 == 0);
    assert(g < 100) by (nonlinear_arith)
        requires g >= 0 && g / 100 == 0
    ;
}

} // verus!
