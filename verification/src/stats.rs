//! Statistics over windows of one second: the durations and byte counts of
//! the units that came in since the last report.

use vstd::prelude::*;
use crate::transport::{LatencySummary, OutboundPacket, OutboundView, StreamerStatsUpdate};
use crate::stream::VideoDecodeUnit;

verus! {

/// The length of a window, in nanoseconds.
pub const WINDOW_NS: u64 = 1_000_000_000;

/// The shortest interval that a bandwidth is computed over, in nanoseconds.
pub const SHORTEST_INTERVAL_NS: u64 = 1_000_000;

/// Smallest, largest, sum and number of the samples of one window.
#[derive(Clone, Copy, Debug, PartialEq, Eq, Structural)]
pub struct Metric {
    pub min: u64,
    pub max: u64,
    pub total: u128,
    pub count: u64,
}

/// The smaller of two durations.
pub open spec fn min_of(a: u64, b: u64) -> u64 {
    if a <= b {
        a
    } else {
        b
    }
}

/// The larger of two durations.
pub open spec fn max_of(a: u64, b: u64) -> u64 {
    if a >= b {
        a
    } else {
        b
    }
}

impl Metric {
    /// The sum lies between the smallest and the largest sample, each taken
    /// as often as there are samples.
    pub open spec fn wf(self) -> bool {
        self.min * self.count <= self.total <= self.max * self.count
    }

    /// The metric of a window without samples.
    pub open spec fn identity() -> Metric {
        Metric { min: u64::MAX, max: 0, total: 0, count: 0 }
    }

    /// The metric with one more sample.
    pub open spec fn fold(self, sample: u64) -> Metric {
        Metric {
            min: min_of(self.min, sample),
            max: max_of(self.max, sample),
            total: (self.total + sample) as u128,
            count: (self.count + 1) as u64,
        }
    }

    /// The mean of the samples, rounded down; zero where there is none.
    pub open spec fn average(self) -> u64 {
        if self.count == 0 {
            0
        } else {
            (self.total / self.count as u128) as u64
        }
    }

    /// Smallest, largest and mean of the window.
    pub open spec fn summary(self) -> LatencySummary {
        LatencySummary { min_ns: self.min, max_ns: self.max, avg_ns: self.average() }
    }

    /// The mean of a window with samples lies between its smallest and its
    /// largest sample.
    pub proof fn lemma_average_between(self)
        requires
            self.wf(),
            self.count > 0,
        ensures
            self.min <= self.total / self.count as u128 <= self.max,
            self.min <= self.average() <= self.max,
    {
        let count = self.count as int;
        let total = self.total as int;
        let low = self.min as int;
        let high = self.max as int;
        assert(low <= total / count <= high) by (nonlinear_arith)
            requires
                count > 0,
                low * count <= total,
                total <= high * count,
        ;
    }

    /// One more sample leaves the sum between the bounds.
    pub proof fn lemma_fold_keeps_bounds(self, sample: u64)
        requires
            self.wf(),
            self.count < u64::MAX,
        ensures
            self.total + sample <= u128::MAX,
            self.fold(sample).wf(),
    {
        let count = self.count as int;
        let total = self.total as int;
        let low = self.min as int;
        let high = self.max as int;
        let lower = min_of(self.min, sample) as int;
        let upper = max_of(self.max, sample) as int;
        let s = sample as int;
        assert(lower * (count + 1) <= total + s && total + s <= upper * (count + 1)) by (nonlinear_arith)
            requires
                count >= 0,
                low * count <= total,
                total <= high * count,
                lower <= low,
                lower <= s,
                upper >= high,
                upper >= s,
                lower >= 0,
        ;
        assert(upper * (count + 1) <= 0xffff_ffff_ffff_ffff * 0xffff_ffff_ffff_ffff) by (nonlinear_arith)
            requires
                0 <= upper <= 0xffff_ffff_ffff_ffff,
                0 <= count + 1 <= 0xffff_ffff_ffff_ffff,
        ;
    }

    /// Whether the sum lies between the bounds.
    pub fn is_valid(&self) -> (valid: bool)
        ensures
            valid == self.wf(),
    {
        let count = self.count as u128;
        assert(self.min * self.count <= u128::MAX && self.max * self.count <= u128::MAX)
            by (nonlinear_arith)
            requires
                self.min <= 0xffff_ffff_ffff_ffff,
                self.max <= 0xffff_ffff_ffff_ffff,
                self.count <= 0xffff_ffff_ffff_ffff,
        ;
        self.min as u128 * count <= self.total && self.total <= self.max as u128 * count
    }

    /// Takes one more sample.
    pub fn record(&mut self, sample: u64)
        requires
            old(self).wf(),
            old(self).count < u64::MAX,
        ensures
            *final(self) == old(self).fold(sample),
            final(self).wf(),
    {
        proof {
            self.lemma_fold_keeps_bounds(sample);
        }
        if sample < self.min {
            self.min = sample;
        }
        if sample > self.max {
            self.max = sample;
        }
        self.total = self.total + sample as u128;
        self.count = self.count + 1;
    }

    /// Smallest, largest and mean of the window.
    pub fn summarize(&self) -> (summary: LatencySummary)
        requires
            self.wf(),
        ensures
            summary == self.summary(),
            self.count > 0 ==> summary.min_ns <= summary.avg_ns <= summary.max_ns,
    {
        let avg_ns: u64 = if self.count == 0 {
            0
        } else {
            proof {
                self.lemma_average_between();
            }
            (self.total / self.count as u128) as u64
        };
        LatencySummary { min_ns: self.min, max_ns: self.max, avg_ns }
    }
}

/// Kilobits per second, rounded down, of `bytes` bytes over `interval_ns`
/// nanoseconds. An interval under a millisecond counts as a millisecond, and
/// the result stops at the largest `u64`.
pub open spec fn kbps_of(bytes: u64, interval_ns: u64) -> u64 {
    let interval = if interval_ns < SHORTEST_INTERVAL_NS {
        SHORTEST_INTERVAL_NS
    } else {
        interval_ns
    };
    let kbps = bytes * 8_000_000 / interval as int;
    if kbps > u64::MAX {
        u64::MAX
    } else {
        kbps as u64
    }
}

/// Kilobits per second, rounded down, of `bytes` bytes over `interval_ns`
/// nanoseconds.
pub fn kilobits_per_second(bytes: u64, interval_ns: u64) -> (kbps: u64)
    ensures
        kbps == kbps_of(bytes, interval_ns),
{
    let interval: u128 = if interval_ns < SHORTEST_INTERVAL_NS {
        SHORTEST_INTERVAL_NS as u128
    } else {
        interval_ns as u128
    };
    assert(bytes * 8_000_000 <= u128::MAX);
    let kbps: u128 = (bytes as u128 * 8_000_000) / interval;
    if kbps > u64::MAX as u128 {
        u64::MAX
    } else {
        kbps as u64
    }
}

impl Default for VideoStats {
    fn default() -> (stats: Self)
        ensures
            stats == VideoStats::initial(),
    {
        VideoStats::new()
    }
}

/// The two reports of one window.
#[derive(Clone, Copy, Debug, PartialEq, Eq, Structural)]
pub struct WindowReport {
    /// Host latency and processing time.
    pub video: StreamerStatsUpdate,
    /// Incoming and outgoing bandwidth.
    pub bandwidth: StreamerStatsUpdate,
}

/// The streaming engine's own estimate of the round trip to the host, in
/// nanoseconds.
#[derive(Clone, Copy, Debug, PartialEq, Eq, Structural)]
pub struct EstimatedRttInfo {
    pub rtt_ns: u64,
    pub rtt_variance_ns: u64,
}

impl WindowReport {
    /// The statistics packets of a window, in the order in which they go
    /// out: host latency and processing time, bandwidth, and the engine's
    /// round-trip estimate where it has one.
    pub open spec fn packets_of(self, estimate: Option<EstimatedRttInfo>) -> Seq<OutboundView> {
        let reports = seq![OutboundView::Stats(self.video), OutboundView::Stats(self.bandwidth)];
        match estimate {
            Some(info) => reports.push(
                OutboundView::Stats(
                    StreamerStatsUpdate::Rtt {
                        rtt_ns: info.rtt_ns,
                        rtt_variance_ns: info.rtt_variance_ns,
                    },
                ),
            ),
            None => reports,
        }
    }

    /// The statistics packets of a window, in the order in which they go
    /// out.
    pub fn packets(&self, estimate: Option<EstimatedRttInfo>) -> (packets: Vec<OutboundPacket>)
        ensures
            packets@.len() == self.packets_of(estimate).len(),
            forall|i: int|
                0 <= i < packets@.len() ==> (#[trigger] packets@[i])@ == self.packets_of(
                    estimate,
                )[i],
    {
        let mut packets: Vec<OutboundPacket> = Vec::new();
        packets.push(OutboundPacket::Stats(self.video));
        packets.push(OutboundPacket::Stats(self.bandwidth));
        match estimate {
            Some(info) => {
                packets.push(
                    OutboundPacket::Stats(
                        StreamerStatsUpdate::Rtt {
                            rtt_ns: info.rtt_ns,
                            rtt_variance_ns: info.rtt_variance_ns,
                        },
                    ),
                );
            },
            None => {},
        }
        packets
    }
}

/// The accumulators of the current window.
#[derive(Clone, Copy, Debug, PartialEq, Eq, Structural)]
pub struct VideoStats {
    /// When the last report went out, in nanoseconds on the caller's clock.
    pub last_send: Option<u64>,
    /// How long the host took for each frame, where it said so.
    pub host_processing_latency: Metric,
    /// How long the relay took for each unit.
    pub streamer_processing_time: Metric,
    pub incoming_bytes: u64,
    pub outgoing_bytes: u64,
}

/// One unit as the window takes it: how long the host took, where it said
/// so; how long the relay took; the bytes that came in and went out; and
/// when the unit was done, all times in nanoseconds.
pub struct Sample {
    pub host_latency: Option<u64>,
    pub processing_time: u64,
    pub incoming_bytes: u64,
    pub outgoing_bytes: u64,
    pub now: u64,
}

/// The sum of two byte counts, which stops at the largest `u64`.
pub open spec fn saturating_sum(a: u64, b: u64) -> u64 {
    if a + b > u64::MAX {
        u64::MAX
    } else {
        (a + b) as u64
    }
}

impl VideoStats {
    /// In both metrics the sum lies between the bounds.
    pub open spec fn wf(self) -> bool {
        self.host_processing_latency.wf() && self.streamer_processing_time.wf()
    }

    /// There is room for one more unit in the window.
    pub open spec fn can_record(self) -> bool {
        self.host_processing_latency.count < u64::MAX && self.streamer_processing_time.count
            < u64::MAX
    }

    /// The accumulators before the first unit: a window without samples,
    /// and no report so far.
    pub open spec fn initial() -> VideoStats {
        VideoStats {
            last_send: None,
            host_processing_latency: Metric::identity(),
            streamer_processing_time: Metric::identity(),
            incoming_bytes: 0,
            outgoing_bytes: 0,
        }
    }

    /// The accumulators right after a report at `now`.
    pub open spec fn reset(now: u64) -> VideoStats {
        VideoStats {
            last_send: Some(now),
            host_processing_latency: Metric::identity(),
            streamer_processing_time: Metric::identity(),
            incoming_bytes: 0,
            outgoing_bytes: 0,
        }
    }

    /// The accumulators with one more unit.
    pub open spec fn folded(
        self,
        host_latency: Option<u64>,
        processing_time: u64,
        incoming_bytes: u64,
        outgoing_bytes: u64,
    ) -> VideoStats {
        VideoStats {
            last_send: self.last_send,
            host_processing_latency: match host_latency {
                Some(latency) => self.host_processing_latency.fold(latency),
                None => self.host_processing_latency,
            },
            streamer_processing_time: self.streamer_processing_time.fold(processing_time),
            incoming_bytes: saturating_sum(self.incoming_bytes, incoming_bytes),
            outgoing_bytes: saturating_sum(self.outgoing_bytes, outgoing_bytes),
        }
    }

    /// The accumulators with the sample, whether or not it is the last of
    /// its window.
    pub open spec fn with_sample(self, sample: Sample) -> VideoStats {
        self.folded(
            sample.host_latency,
            sample.processing_time,
            sample.incoming_bytes,
            sample.outgoing_bytes,
        )
    }

    /// The accumulators after the sample, and the window's reports where the
    /// sample closes it: more than a second after the last report, or as the
    /// first sample of all.
    pub open spec fn step(self, sample: Sample) -> (VideoStats, Option<WindowReport>) {
        if self.window_closed(sample.now) {
            (VideoStats::reset(sample.now), Some(self.with_sample(sample).report(sample.now)))
        } else {
            (self.with_sample(sample), None)
        }
    }

    /// More than a second has passed since the last report, or there has
    /// been none.
    pub open spec fn window_closed(self, now: u64) -> bool {
        match self.last_send {
            Some(last) => last + WINDOW_NS < now,
            None => true,
        }
    }

    /// The time that the byte counts were gathered in: since the last
    /// report, and a second where there has been none.
    pub open spec fn interval(self, now: u64) -> u64 {
        match self.last_send {
            Some(last) => if now >= last {
                (now - last) as u64
            } else {
                0
            },
            None => WINDOW_NS,
        }
    }

    /// The reports of the window as it stands, at `now`. The host latency is
    /// reported only where a unit carried one.
    pub open spec fn report(self, now: u64) -> WindowReport {
        WindowReport {
            video: StreamerStatsUpdate::Video {
                host_processing_latency: if self.host_processing_latency.count > 0 {
                    Some(self.host_processing_latency.summary())
                } else {
                    None
                },
                streamer_processing_time: self.streamer_processing_time.summary(),
            },
            bandwidth: StreamerStatsUpdate::Bandwidth {
                incoming_kbps: kbps_of(self.incoming_bytes, self.interval(now)),
                outgoing_kbps: kbps_of(self.outgoing_bytes, self.interval(now)),
            },
        }
    }

    /// The accumulators before the first unit.
    pub fn new() -> (stats: Self)
        ensures
            stats == Self::initial(),
            stats.wf(),
            stats.can_record(),
    {
        VideoStats {
            last_send: None,
            host_processing_latency: Metric { min: u64::MAX, max: 0, total: 0, count: 0 },
            streamer_processing_time: Metric { min: u64::MAX, max: 0, total: 0, count: 0 },
            incoming_bytes: 0,
            outgoing_bytes: 0,
        }
    }

    /// Whether the accumulators are such as the window keeps them.
    pub fn is_valid(&self) -> (valid: bool)
        ensures
            valid == self.wf(),
    {
        self.host_processing_latency.is_valid() && self.streamer_processing_time.is_valid()
    }

    /// Whether there is room for one more unit in the window.
    pub fn has_room(&self) -> (room: bool)
        ensures
            room == self.can_record(),
    {
        self.host_processing_latency.count < u64::MAX && self.streamer_processing_time.count
            < u64::MAX
    }

    /// Takes one unit into the window. Where more than a second has passed
    /// since the last report, or there has been none, the window's reports
    /// are given out, this unit included, and a new window begins at `now`.
    pub fn analyze(
        &mut self,
        unit: &VideoDecodeUnit,
        frame_processing_time: u64,
        incoming_bytes: u64,
        outgoing_bytes: u64,
        now: u64,
    ) -> (report: Option<WindowReport>)
        requires
            old(self).wf(),
            old(self).can_record(),
        ensures
            (*final(self), report) == old(self).step(
                Sample {
                    host_latency: unit@.frame_processing_latency,
                    processing_time: frame_processing_time,
                    incoming_bytes,
                    outgoing_bytes,
                    now,
                },
            ),
            final(self).wf(),
            report matches Some(window) ==> ordered_summaries(window),
    {
        match unit.frame_processing_latency {
            Some(latency) => {
                self.host_processing_latency.record(latency);
            },
            None => {},
        }
        self.streamer_processing_time.record(frame_processing_time);
        self.incoming_bytes = self.incoming_bytes.saturating_add(incoming_bytes);
        self.outgoing_bytes = self.outgoing_bytes.saturating_add(outgoing_bytes);

        let closed = match self.last_send {
            Some(last) => now > last && now - last > WINDOW_NS,
            None => true,
        };
        if !closed {
            return None;
        }
        let interval: u64 = match self.last_send {
            Some(last) => if now >= last {
                now - last
            } else {
                0
            },
            None => WINDOW_NS,
        };
        let host = if self.host_processing_latency.count > 0 {
            Some(self.host_processing_latency.summarize())
        } else {
            None
        };
        let report = WindowReport {
            video: StreamerStatsUpdate::Video {
                host_processing_latency: host,
                streamer_processing_time: self.streamer_processing_time.summarize(),
            },
            bandwidth: StreamerStatsUpdate::Bandwidth {
                incoming_kbps: kilobits_per_second(self.incoming_bytes, interval),
                outgoing_kbps: kilobits_per_second(self.outgoing_bytes, interval),
            },
        };

        self.host_processing_latency = Metric { min: u64::MAX, max: 0, total: 0, count: 0 };
        self.streamer_processing_time = Metric { min: u64::MAX, max: 0, total: 0, count: 0 };
        self.incoming_bytes = 0;
        self.outgoing_bytes = 0;
        self.last_send = Some(now);
        Some(report)
    }
}

/// In every summary of the report, the mean lies between the smallest and
/// the largest duration.
pub open spec fn ordered_summaries(report: WindowReport) -> bool {
    report.video matches StreamerStatsUpdate::Video {
        host_processing_latency,
        streamer_processing_time,
    } && streamer_processing_time.min_ns <= streamer_processing_time.avg_ns
        <= streamer_processing_time.max_ns && (host_processing_latency matches Some(host)
        ==> host.min_ns <= host.avg_ns <= host.max_ns)
}

/// The sum of the values.
pub open spec fn sum_of(values: Seq<u64>) -> nat
    decreases values.len(),
{
    if values.len() == 0 {
        0
    } else {
        sum_of(values.drop_last()) + values.last() as nat
    }
}

/// The smallest of the values, and the largest `u64` where there is none.
pub open spec fn least_of(values: Seq<u64>) -> u64
    decreases values.len(),
{
    if values.len() == 0 {
        u64::MAX
    } else {
        min_of(least_of(values.drop_last()), values.last())
    }
}

/// The largest of the values, and zero where there is none.
pub open spec fn greatest_of(values: Seq<u64>) -> u64
    decreases values.len(),
{
    if values.len() == 0 {
        0
    } else {
        max_of(greatest_of(values.drop_last()), values.last())
    }
}

/// How long the relay took for each sample.
pub open spec fn processing_times(samples: Seq<Sample>) -> Seq<u64> {
    Seq::new(samples.len(), |i: int| samples[i].processing_time)
}

/// How long the host took, for the samples in which it said so.
pub open spec fn host_latencies(samples: Seq<Sample>) -> Seq<u64>
    decreases samples.len(),
{
    if samples.len() == 0 {
        Seq::empty()
    } else {
        match samples.last().host_latency {
            Some(latency) => host_latencies(samples.drop_last()).push(latency),
            None => host_latencies(samples.drop_last()),
        }
    }
}

/// The bytes that came in with the samples.
pub open spec fn incoming_of(samples: Seq<Sample>) -> nat
    decreases samples.len(),
{
    if samples.len() == 0 {
        0
    } else {
        incoming_of(samples.drop_last()) + samples.last().incoming_bytes as nat
    }
}

/// The bytes that went out for the samples.
pub open spec fn outgoing_of(samples: Seq<Sample>) -> nat
    decreases samples.len(),
{
    if samples.len() == 0 {
        0
    } else {
        outgoing_of(samples.drop_last()) + samples.last().outgoing_bytes as nat
    }
}

/// A byte count as the window keeps it: it stops at the largest `u64`.
pub open spec fn capped(count: nat) -> u64 {
    if count > u64::MAX {
        u64::MAX
    } else {
        count as u64
    }
}

/// The metric of a window that holds exactly these values.
pub open spec fn metric_of(values: Seq<u64>) -> Metric {
    Metric {
        min: least_of(values),
        max: greatest_of(values),
        total: sum_of(values) as u128,
        count: values.len() as u64,
    }
}

/// The accumulators of a window that began at `start` and holds exactly
/// these samples.
pub open spec fn window_of(start: u64, samples: Seq<Sample>) -> VideoStats {
    VideoStats {
        last_send: Some(start),
        host_processing_latency: metric_of(host_latencies(samples)),
        streamer_processing_time: metric_of(processing_times(samples)),
        incoming_bytes: capped(incoming_of(samples)),
        outgoing_bytes: capped(outgoing_of(samples)),
    }
}

/// The accumulators after a run of samples, and what each of them gave out.
pub open spec fn stats_run(state: VideoStats, samples: Seq<Sample>) -> (
    VideoStats,
    Seq<Option<WindowReport>>,
)
    decreases samples.len(),
{
    if samples.len() == 0 {
        (state, Seq::empty())
    } else {
        let before = stats_run(state, samples.drop_last());
        let step = before.0.step(samples.last());
        (step.0, before.1.push(step.1))
    }
}

/// The smallest value is one of the values and none is smaller; the same
/// holds of the largest; and the sum of `n` values is at most `n` times the
/// largest `u64`.
pub proof fn lemma_least_and_greatest(values: Seq<u64>)
    ensures
        forall|i: int| 0 <= i < values.len() ==> least_of(values) <= #[trigger] values[i],
        forall|i: int| 0 <= i < values.len() ==> #[trigger] values[i] <= greatest_of(values),
        values.len() > 0 ==> exists|i: int| 0 <= i < values.len() && least_of(values) == values[i],
        values.len() > 0 ==> exists|i: int|
            0 <= i < values.len() && greatest_of(values) == values[i],
        least_of(values) * values.len() <= sum_of(values) <= greatest_of(values) * values.len(),
        sum_of(values) <= values.len() * u64::MAX,
    decreases values.len(),
{
    if values.len() > 0 {
        let earlier = values.drop_last();
        lemma_least_and_greatest(earlier);
        assert forall|i: int| 0 <= i < values.len() implies least_of(values) <= #[trigger] values[i]
            && values[i] <= greatest_of(values) by {
            if i < earlier.len() {
                assert(values[i] == earlier[i]);
            }
        }
        if earlier.len() > 0 {
            let low = choose|i: int| 0 <= i < earlier.len() && least_of(earlier) == earlier[i];
            let high = choose|i: int| 0 <= i < earlier.len() && greatest_of(earlier) == earlier[i];
            assert(values[low] == earlier[low]);
            assert(values[high] == earlier[high]);
        }
        assert(values[values.len() - 1] == values.last());
        let n = earlier.len() as int;
        let total = sum_of(earlier) as int;
        let last = values.last() as int;
        let low0 = least_of(earlier) as int;
        let high0 = greatest_of(earlier) as int;
        let low1 = least_of(values) as int;
        let high1 = greatest_of(values) as int;
        assert(low1 * (n + 1) <= total + last && total + last <= high1 * (n + 1) && total + last
            <= (n + 1) * 0xffff_ffff_ffff_ffff) by (nonlinear_arith)
            requires
                n >= 0,
                low0 * n <= total,
                total <= high0 * n,
                total <= n * 0xffff_ffff_ffff_ffff,
                0 <= low1 <= low0,
                low1 <= last,
                high1 >= high0,
                high1 >= last,
                last <= 0xffff_ffff_ffff_ffff,
        ;
    }
}

/// A window that has taken values one by one holds their metric.
pub proof fn lemma_metric_of_push(values: Seq<u64>, value: u64)
    requires
        values.len() < u64::MAX,
    ensures
        metric_of(values).wf(),
        metric_of(values).fold(value) == metric_of(values.push(value)),
{
    lemma_least_and_greatest(values);
    lemma_least_and_greatest(values.push(value));
    assert(values.push(value).drop_last() =~= values);
    let n = values.len() as int;
    assert(n * 0xffff_ffff_ffff_ffff + 0xffff_ffff_ffff_ffff <= u128::MAX) by (nonlinear_arith)
        requires
            0 <= n < 0xffff_ffff_ffff_ffff,
    ;
    assert((n + 1) * 0xffff_ffff_ffff_ffff == n * 0xffff_ffff_ffff_ffff + 0xffff_ffff_ffff_ffff)
        by (nonlinear_arith);
}

/// As long as no sample closes the window, no report goes out, and the
/// window holds exactly the samples that it was given.
pub proof fn lemma_window_gathers(start: u64, samples: Seq<Sample>)
    requires
        samples.len() < u64::MAX,
        forall|i: int| 0 <= i < samples.len() ==> (#[trigger] samples[i]).now <= start + WINDOW_NS,
    ensures
        stats_run(VideoStats::reset(start), samples).0 == window_of(start, samples),
        stats_run(VideoStats::reset(start), samples).1.len() == samples.len(),
        forall|i: int|
            0 <= i < samples.len() ==> (#[trigger] stats_run(
                VideoStats::reset(start),
                samples,
            ).1[i]) is None,
        window_of(start, samples).wf(),
        host_latencies(samples).len() <= samples.len(),
    decreases samples.len(),
{
    if samples.len() == 0 {
        assert(processing_times(samples) =~= Seq::<u64>::empty());
    } else {
        let earlier = samples.drop_last();
        let last = samples.last();
        lemma_window_gathers(start, earlier);
        let times = processing_times(earlier);
        assert(processing_times(samples) =~= times.push(last.processing_time));
        lemma_metric_of_push(times, last.processing_time);
        let hosts = host_latencies(earlier);
        match last.host_latency {
            Some(latency) => {
                lemma_metric_of_push(hosts, latency);
            },
            None => {},
        }
        lemma_least_and_greatest(host_latencies(samples));
        lemma_least_and_greatest(processing_times(samples));
    }
}

/// The first unit of all is reported at once and by itself: its own
/// durations are the smallest, the largest and the mean, the host latency is
/// reported if the unit carried one, and the bandwidth is that of its bytes
/// over one second. The window that follows begins empty.
pub proof fn lemma_first_unit_reports_itself(sample: Sample)
    ensures
        VideoStats::initial().wf(),
        VideoStats::initial().can_record(),
        VideoStats::initial().step(sample) == (
            VideoStats::reset(sample.now),
            Some(
                WindowReport {
                    video: StreamerStatsUpdate::Video {
                        host_processing_latency: match sample.host_latency {
                            Some(latency) => Some(
                                LatencySummary {
                                    min_ns: latency,
                                    max_ns: latency,
                                    avg_ns: latency,
                                },
                            ),
                            None => None,
                        },
                        streamer_processing_time: LatencySummary {
                            min_ns: sample.processing_time,
                            max_ns: sample.processing_time,
                            avg_ns: sample.processing_time,
                        },
                    },
                    bandwidth: StreamerStatsUpdate::Bandwidth {
                        incoming_kbps: kbps_of(sample.incoming_bytes, WINDOW_NS),
                        outgoing_kbps: kbps_of(sample.outgoing_bytes, WINDOW_NS),
                    },
                },
            ),
        ),
{
    let closing = VideoStats::initial().with_sample(sample);
    let times = Metric::identity().fold(sample.processing_time);
    assert(times == (Metric {
        min: sample.processing_time,
        max: sample.processing_time,
        total: sample.processing_time as u128,
        count: 1,
    }));
    assert(closing.streamer_processing_time == times);
    assert(times.total as int / times.count as int == sample.processing_time) by (nonlinear_arith)
        requires
            times.count == 1,
            times.total == sample.processing_time,
    ;
    assert(times.average() == sample.processing_time);
    match sample.host_latency {
        Some(latency) => {
            let hosts = Metric::identity().fold(latency);
            assert(hosts == (Metric {
                min: latency,
                max: latency,
                total: latency as u128,
                count: 1,
            }));
            assert(closing.host_processing_latency == hosts);
            assert(hosts.total as int / hosts.count as int == latency) by (nonlinear_arith)
                requires
                    hosts.count == 1,
                    hosts.total == latency,
            ;
            assert(hosts.average() == latency);
        },
        None => {
            assert(closing.host_processing_latency == Metric::identity());
        },
    }
    assert(closing.incoming_bytes == sample.incoming_bytes);
    assert(closing.outgoing_bytes == sample.outgoing_bytes);
    assert(closing.interval(sample.now) == WINDOW_NS);
    assert(VideoStats::initial().window_closed(sample.now));
}

/// One report per window. Of the samples that follow a report at `start`,
/// those that are done within a second of it give out nothing, and the
/// first one after that gives out the window's reports: over these samples,
/// this one included, the smallest and the largest duration and the mean,
/// which is their sum divided by their number and lies between the two; and
/// the bandwidth of their bytes over the time since `start`. Nothing of the
/// window is carried over into the next one, which begins empty.
pub proof fn lemma_one_report_per_window(start: u64, samples: Seq<Sample>)
    requires
        0 < samples.len() < u64::MAX,
        forall|i: int|
            0 <= i < samples.len() - 1 ==> (#[trigger] samples[i]).now <= start + WINDOW_NS,
        samples.last().now > start + WINDOW_NS,
    ensures
        ({
            let run = stats_run(VideoStats::reset(start), samples);
            let times = processing_times(samples);
            let hosts = host_latencies(samples);
            let now = samples.last().now;
            &&& run.1.len() == samples.len()
            &&& forall|i: int| 0 <= i < samples.len() - 1 ==> (#[trigger] run.1[i]) is None
            &&& run.0 == VideoStats::reset(now)
            &&& run.1.last() == Some(
                WindowReport {
                    video: StreamerStatsUpdate::Video {
                        host_processing_latency: if hosts.len() > 0 {
                            Some(
                                LatencySummary {
                                    min_ns: least_of(hosts),
                                    max_ns: greatest_of(hosts),
                                    avg_ns: (sum_of(hosts) / hosts.len()) as u64,
                                },
                            )
                        } else {
                            None
                        },
                        streamer_processing_time: LatencySummary {
                            min_ns: least_of(times),
                            max_ns: greatest_of(times),
                            avg_ns: (sum_of(times) / times.len()) as u64,
                        },
                    },
                    bandwidth: StreamerStatsUpdate::Bandwidth {
                        incoming_kbps: kbps_of(
                            capped(incoming_of(samples)),
                            (now - start) as u64,
                        ),
                        outgoing_kbps: kbps_of(
                            capped(outgoing_of(samples)),
                            (now - start) as u64,
                        ),
                    },
                },
            )
            &&& least_of(times) <= sum_of(times) / times.len() <= greatest_of(times)
            &&& hosts.len() > 0 ==> least_of(hosts) <= sum_of(hosts) / hosts.len() <= greatest_of(
                hosts,
            )
        }),
{
    let earlier = samples.drop_last();
    let last = samples.last();
    lemma_window_gathers(start, earlier);
    let gathered = window_of(start, earlier);
    let times = processing_times(earlier);
    assert(processing_times(samples) =~= times.push(last.processing_time));
    lemma_metric_of_push(times, last.processing_time);
    let hosts = host_latencies(earlier);
    match last.host_latency {
        Some(latency) => {
            lemma_metric_of_push(hosts, latency);
        },
        None => {},
    }
    let closing = gathered.with_sample(last);
    assert(closing.streamer_processing_time == metric_of(processing_times(samples)));
    assert(closing.host_processing_latency == metric_of(host_latencies(samples)));
    lemma_least_and_greatest(processing_times(samples));
    lemma_least_and_greatest(host_latencies(samples));
    closing.streamer_processing_time.lemma_average_between();
    if host_latencies(samples).len() > 0 {
        closing.host_processing_latency.lemma_average_between();
    }
    assert(closing.incoming_bytes == capped(incoming_of(samples)));
    assert(closing.outgoing_bytes == capped(outgoing_of(samples)));
}

} // verus!
