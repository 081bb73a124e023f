use streamer::stats::{
    kilobits_per_second, Metric, VideoStats, WindowReport, SHORTEST_INTERVAL_NS, WINDOW_NS,
};
use streamer::stream::{FrameType, VideoDecodeUnit};
use streamer::transport::{LatencySummary, StreamerStatsUpdate};

const MS: u64 = 1_000_000;
const SECOND: u64 = 1_000_000_000;

fn unit(latency: Option<u64>) -> VideoDecodeUnit {
    VideoDecodeUnit {
        buffers: vec![vec![0, 0, 1, 0x41]],
        frame_type: FrameType::PFrame,
        presentation_time_us: 0,
        rtp_timestamp: 0,
        frame_processing_latency: latency,
    }
}

fn identity() -> Metric {
    Metric { min: u64::MAX, max: 0, total: 0, count: 0 }
}

fn reset(now: u64) -> VideoStats {
    VideoStats {
        last_send: Some(now),
        host_processing_latency: identity(),
        streamer_processing_time: identity(),
        incoming_bytes: 0,
        outgoing_bytes: 0,
    }
}

fn summary(min_ns: u64, max_ns: u64, avg_ns: u64) -> LatencySummary {
    LatencySummary { min_ns, max_ns, avg_ns }
}

#[test]
fn the_constants_are_a_second_and_a_millisecond() {
    assert_eq!(WINDOW_NS, SECOND);
    assert_eq!(SHORTEST_INTERVAL_NS, MS);
}

#[test]
fn new_accumulators_hold_an_empty_window() {
    let stats = VideoStats::new();
    assert_eq!(
        stats,
        VideoStats {
            last_send: None,
            host_processing_latency: identity(),
            streamer_processing_time: identity(),
            incoming_bytes: 0,
            outgoing_bytes: 0,
        }
    );
    assert_eq!(VideoStats::default(), stats);
    assert!(stats.has_room());
}

#[test]
fn the_first_unit_reports_at_once() {
    let mut stats = VideoStats::new();
    let report = stats.analyze(&unit(Some(5 * MS)), 2 * MS, 1000, 500, 10 * SECOND);
    assert_eq!(
        report,
        Some(WindowReport {
            video: StreamerStatsUpdate::Video {
                host_processing_latency: Some(summary(5 * MS, 5 * MS, 5 * MS)),
                streamer_processing_time: summary(2 * MS, 2 * MS, 2 * MS),
            },
            bandwidth: StreamerStatsUpdate::Bandwidth { incoming_kbps: 8, outgoing_kbps: 4 },
        })
    );
    assert_eq!(stats, reset(10 * SECOND));
}

#[test]
fn one_report_per_window() {
    let mut stats = reset(10 * SECOND);
    let start = 10 * SECOND;
    assert_eq!(stats.analyze(&unit(Some(4 * MS)), 3 * MS, 125_000, 100_000, start + 300 * MS), None);
    assert_eq!(stats.analyze(&unit(None), MS, 125_000, 100_000, start + 600 * MS), None);
    assert_eq!(
        stats,
        VideoStats {
            last_send: Some(start),
            host_processing_latency: Metric { min: 4 * MS, max: 4 * MS, total: (4 * MS) as u128, count: 1 },
            streamer_processing_time: Metric { min: MS, max: 3 * MS, total: (4 * MS) as u128, count: 2 },
            incoming_bytes: 250_000,
            outgoing_bytes: 200_000,
        }
    );
    let report = stats.analyze(&unit(Some(6 * MS)), 5 * MS, 125_000, 100_000, start + 1500 * MS);
    assert_eq!(
        report,
        Some(WindowReport {
            video: StreamerStatsUpdate::Video {
                host_processing_latency: Some(summary(4 * MS, 6 * MS, 5 * MS)),
                streamer_processing_time: summary(MS, 5 * MS, 3 * MS),
            },
            bandwidth: StreamerStatsUpdate::Bandwidth { incoming_kbps: 2000, outgoing_kbps: 1600 },
        })
    );
    assert_eq!(stats, reset(start + 1500 * MS));
}

#[test]
fn nothing_is_carried_over_into_the_next_window() {
    let mut stats = reset(0);
    stats.analyze(&unit(Some(900 * MS)), 800 * MS, 1_000_000, 1_000_000, 500 * MS);
    assert!(stats.analyze(&unit(Some(700 * MS)), 600 * MS, 1_000_000, 1_000_000, 2 * SECOND).is_some());
    assert_eq!(stats, reset(2 * SECOND));
    assert_eq!(stats.analyze(&unit(Some(2 * MS)), 7 * MS, 10, 20, 2 * SECOND + 1), None);
    let report = stats.analyze(&unit(Some(4 * MS)), 9 * MS, 30, 40, 4 * SECOND);
    assert_eq!(
        report,
        Some(WindowReport {
            video: StreamerStatsUpdate::Video {
                host_processing_latency: Some(summary(2 * MS, 4 * MS, 3 * MS)),
                streamer_processing_time: summary(7 * MS, 9 * MS, 8 * MS),
            },
            bandwidth: StreamerStatsUpdate::Bandwidth { incoming_kbps: 0, outgoing_kbps: 0 },
        })
    );
}

#[test]
fn a_window_lasts_more_than_a_second() {
    let mut stats = reset(5 * SECOND);
    assert_eq!(stats.analyze(&unit(None), 1, 0, 0, 6 * SECOND), None);
    assert_eq!(stats.analyze(&unit(None), 1, 0, 0, 5 * SECOND), None);
    assert_eq!(stats.analyze(&unit(None), 1, 0, 0, 0), None);
    assert!(stats.analyze(&unit(None), 1, 0, 0, 6 * SECOND + 1).is_some());
    assert_eq!(stats.analyze(&unit(None), 1, 0, 0, 7 * SECOND + 1), None);
    assert!(stats.analyze(&unit(None), 1, 0, 0, 7 * SECOND + 2).is_some());
}

#[test]
fn without_host_latency_none_is_reported() {
    let mut stats = reset(0);
    stats.analyze(&unit(None), 10, 0, 0, 1);
    let report = stats.analyze(&unit(None), 20, 0, 0, 2 * SECOND).unwrap();
    assert_eq!(
        report.video,
        StreamerStatsUpdate::Video {
            host_processing_latency: None,
            streamer_processing_time: summary(10, 20, 15),
        }
    );
}

#[test]
fn the_mean_is_rounded_down() {
    let mut stats = reset(0);
    stats.analyze(&unit(Some(1)), 1, 0, 0, 1);
    stats.analyze(&unit(Some(1)), 2, 0, 0, 2);
    let report = stats.analyze(&unit(Some(3)), 2, 0, 0, 2 * SECOND).unwrap();
    assert_eq!(
        report.video,
        StreamerStatsUpdate::Video {
            host_processing_latency: Some(summary(1, 3, 1)),
            streamer_processing_time: summary(1, 2, 1),
        }
    );
}

#[test]
fn the_mean_lies_between_the_extremes() {
    let mut stats = reset(0);
    let samples = [17u64, 3, 250, 99, 3, 1_000_000, 42];
    let mut report = None;
    for (i, sample) in samples.iter().enumerate() {
        let now = if i + 1 == samples.len() { 3 * SECOND } else { i as u64 };
        report = stats.analyze(&unit(Some(*sample * 2)), *sample, 1, 1, now);
    }
    match report.unwrap().video {
        StreamerStatsUpdate::Video { host_processing_latency, streamer_processing_time } => {
            let sum: u64 = samples.iter().sum();
            assert_eq!(streamer_processing_time, summary(3, 1_000_000, sum / 7));
            assert!(streamer_processing_time.min_ns <= streamer_processing_time.avg_ns);
            assert!(streamer_processing_time.avg_ns <= streamer_processing_time.max_ns);
            assert_eq!(host_processing_latency, Some(summary(6, 2_000_000, 2 * sum / 7)));
        }
        other => panic!("unexpected report {:?}", other),
    }
}

#[test]
fn the_bandwidth_is_over_the_time_that_passed() {
    let mut stats = reset(SECOND);
    let report = stats.analyze(&unit(None), 1, 1_000_000, 250_000, 5 * SECOND).unwrap();
    assert_eq!(
        report.bandwidth,
        StreamerStatsUpdate::Bandwidth { incoming_kbps: 2000, outgoing_kbps: 500 }
    );
}

#[test]
fn byte_counts_stop_at_the_largest_number() {
    let mut stats = reset(0);
    stats.analyze(&unit(None), 1, u64::MAX - 1, 5, 1);
    stats.analyze(&unit(None), 1, 7, u64::MAX, 2);
    assert_eq!(stats.incoming_bytes, u64::MAX);
    assert_eq!(stats.outgoing_bytes, u64::MAX);
}

#[test]
fn kilobits_per_second_of_bytes_over_nanoseconds() {
    assert_eq!(kilobits_per_second(1000, SECOND), 8);
    assert_eq!(kilobits_per_second(125, SECOND), 1);
    assert_eq!(kilobits_per_second(124, SECOND), 0);
    assert_eq!(kilobits_per_second(0, SECOND), 0);
    assert_eq!(kilobits_per_second(1_000_000, 2 * SECOND), 4000);
    assert_eq!(kilobits_per_second(1_000_000, SECOND / 2), 16_000);
    assert_eq!(kilobits_per_second(1_000_000, 1_500_000_000), 5333);
}

#[test]
fn a_short_interval_counts_as_a_millisecond() {
    assert_eq!(kilobits_per_second(1000, MS), 8000);
    assert_eq!(kilobits_per_second(1000, MS - 1), 8000);
    assert_eq!(kilobits_per_second(1000, 0), 8000);
    assert_eq!(kilobits_per_second(1000, MS + 1), 7999);
}

#[test]
fn kilobits_per_second_stop_at_the_largest_number() {
    assert_eq!(kilobits_per_second(u64::MAX, MS), u64::MAX);
    assert_eq!(kilobits_per_second(u64::MAX, 0), u64::MAX);
    assert_eq!(kilobits_per_second(u64::MAX, 8 * MS), u64::MAX);
    assert_eq!(kilobits_per_second(u64::MAX, 8 * MS + 1), 18446741767866830631);
    assert_eq!(kilobits_per_second(u64::MAX, u64::MAX), 8_000_000);
}

#[test]
fn a_metric_takes_samples_one_by_one() {
    let mut metric = identity();
    metric.record(7);
    assert_eq!(metric, Metric { min: 7, max: 7, total: 7, count: 1 });
    metric.record(3);
    metric.record(11);
    assert_eq!(metric, Metric { min: 3, max: 11, total: 21, count: 3 });
    assert_eq!(metric.summarize(), summary(3, 11, 7));
    metric.record(u64::MAX);
    assert_eq!(metric.total, u64::MAX as u128 + 21);
    assert_eq!(metric.summarize(), summary(3, u64::MAX, 4611686018427387909));
    assert_eq!(identity().summarize(), summary(u64::MAX, 0, 0));
}

#[test]
fn valid_accumulators_have_their_sum_between_the_bounds() {
    assert!(VideoStats::new().is_valid());
    assert!(reset(5).is_valid());
    assert!(identity().is_valid());
    assert!(Metric { min: 2, max: 4, total: 9, count: 3 }.is_valid());
    assert!(Metric { min: 3, max: 3, total: 9, count: 3 }.is_valid());
    assert!(!Metric { min: 2, max: 4, total: 5, count: 3 }.is_valid());
    assert!(!Metric { min: 2, max: 4, total: 13, count: 3 }.is_valid());
    assert!(!Metric { min: 0, max: 0, total: 1, count: 0 }.is_valid());
    assert!(Metric { min: u64::MAX, max: u64::MAX, total: u64::MAX as u128 * u64::MAX as u128, count: u64::MAX }.is_valid());
    let mut stats = reset(0);
    stats.streamer_processing_time = Metric { min: 5, max: 1, total: 3, count: 1 };
    assert!(!stats.is_valid());
    let full = VideoStats { streamer_processing_time: Metric { min: 0, max: 0, total: 0, count: u64::MAX }, ..reset(0) };
    assert!(full.is_valid());
    assert!(!full.has_room());
}

#[test]
fn the_first_report_holds_the_first_unit_alone() {
    for (latency, time) in [(None, 1u64), (Some(7), 3), (Some(0), 0), (Some(u64::MAX), u64::MAX)] {
        let mut stats = VideoStats::new();
        let report = stats.analyze(&unit(latency), time, 250, 125, 42).unwrap();
        assert_eq!(
            report.video,
            StreamerStatsUpdate::Video {
                host_processing_latency: latency.map(|latency| summary(latency, latency, latency)),
                streamer_processing_time: summary(time, time, time),
            }
        );
        assert_eq!(
            report.bandwidth,
            StreamerStatsUpdate::Bandwidth { incoming_kbps: 2, outgoing_kbps: 1 }
        );
        assert_eq!(stats, reset(42));
    }
}
