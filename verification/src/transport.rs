//! The packets that travel over the one multiplexed connection, and how they
//! are laid out in bytes. Every message begins with the byte of its channel.

use vstd::prelude::*;
use crate::buffer::{
    be_u16, be_u32, be_u64, decode_u16, decode_u32, decode_u64, lemma_u16_round_trip,
    lemma_u32_round_trip, lemma_u64_round_trip, ordered, read_u16, BufferView, ByteBuffer,
    ByteOrder,
};

verus! {

/// The channel of control messages.
pub const CHANNEL_GENERAL: u8 = 0;

/// The channel of statistics reports.
pub const CHANNEL_STATS: u8 = 1;

/// The channel of video from the host.
pub const CHANNEL_HOST_VIDEO: u8 = 2;

/// The channel of audio from the host.
pub const CHANNEL_HOST_AUDIO: u8 = 3;

/// The channel of round-trip probes and their answers.
pub const CHANNEL_RTT: u8 = 4;

/// The channel on which the peer asks for a keyframe.
pub const CHANNEL_REQUEST_IDR: u8 = 5;

/// The logical channel of a message: its first byte.
#[derive(Clone, Copy, Debug, PartialEq, Eq, Structural)]
pub struct TransportChannel(pub u8);

/// Why a message could not be handed on.
#[derive(Clone, Copy, Debug, PartialEq, Eq, Structural)]
pub enum TransportError {
    /// The outbound channel is closed: the connection is gone.
    Closed,
}

/// Smallest, largest and mean of the durations of one window, in
/// nanoseconds.
#[derive(Clone, Copy, Debug, PartialEq, Eq, Structural)]
pub struct LatencySummary {
    pub min_ns: u64,
    pub max_ns: u64,
    pub avg_ns: u64,
}

/// One statistics report.
#[derive(Clone, Copy, Debug, PartialEq, Eq, Structural)]
pub enum StreamerStatsUpdate {
    /// How long the host took for a frame, where it said so, and how long
    /// the relay took.
    Video { host_processing_latency: Option<LatencySummary>, streamer_processing_time: LatencySummary },
    /// What came in and what went out, in kilobits per second.
    Bandwidth { incoming_kbps: u64, outgoing_kbps: u64 },
    /// The streaming engine's own estimate of the round trip to the host.
    Rtt { rtt_ns: u64, rtt_variance_ns: u64 },
    /// The round trip to the peer, as the probes measured it.
    BrowserRtt { rtt_ns: u64 },
}

/// A packet on its way to the peer.
#[derive(Debug, PartialEq, Eq)]
pub enum OutboundPacket {
    VideoUnit { payload: Vec<u8>, timestamp: u32, is_keyframe: bool },
    AudioSample { payload: Vec<u8> },
    Rtt { sequence_number: u16 },
    Stats(StreamerStatsUpdate),
}

/// An outbound packet as plain values.
pub enum OutboundView {
    VideoUnit { payload: Seq<u8>, timestamp: u32, is_keyframe: bool },
    AudioSample { payload: Seq<u8> },
    Rtt { sequence_number: u16 },
    Stats(StreamerStatsUpdate),
}

impl View for OutboundPacket {
    type V = OutboundView;

    open spec fn view(&self) -> OutboundView {
        match self {
            OutboundPacket::VideoUnit { payload, timestamp, is_keyframe } => OutboundView::VideoUnit {
                payload: payload@,
                timestamp: *timestamp,
                is_keyframe: *is_keyframe,
            },
            OutboundPacket::AudioSample { payload } => OutboundView::AudioSample {
                payload: payload@,
            },
            OutboundPacket::Rtt { sequence_number } => OutboundView::Rtt {
                sequence_number: *sequence_number,
            },
            OutboundPacket::Stats(report) => OutboundView::Stats(*report),
        }
    }
}

/// A packet that came from the peer.
#[derive(Clone, Copy, Debug, PartialEq, Eq, Structural)]
pub enum InboundPacket {
    /// The peer asks for a keyframe.
    RequestVideoIdr,
    /// The peer answers a round-trip probe.
    Rtt { sequence_number: u16 },
}

/// The bytes of a latency summary: smallest, largest, mean, eight bytes each.
pub open spec fn summary_bytes(summary: LatencySummary, order: ByteOrder) -> Seq<u8> {
    ordered(be_u64(summary.min_ns), order) + ordered(be_u64(summary.max_ns), order) + ordered(
        be_u64(summary.avg_ns),
        order,
    )
}

/// The bytes of a statistics report: one byte for its kind, then its fields,
/// eight bytes each. A summary that may be absent follows a byte that says
/// whether it is there.
pub open spec fn stats_bytes(report: StreamerStatsUpdate, order: ByteOrder) -> Seq<u8> {
    match report {
        StreamerStatsUpdate::Video { host_processing_latency, streamer_processing_time } => {
            seq![0u8] + (match host_processing_latency {
                Some(host) => seq![1u8] + summary_bytes(host, order),
                None => seq![0u8],
            }) + summary_bytes(streamer_processing_time, order)
        },
        StreamerStatsUpdate::Bandwidth { incoming_kbps, outgoing_kbps } => {
            seq![1u8] + ordered(be_u64(incoming_kbps), order) + ordered(
                be_u64(outgoing_kbps),
                order,
            )
        },
        StreamerStatsUpdate::Rtt { rtt_ns, rtt_variance_ns } => {
            seq![2u8] + ordered(be_u64(rtt_ns), order) + ordered(be_u64(rtt_variance_ns), order)
        },
        StreamerStatsUpdate::BrowserRtt { rtt_ns } => seq![3u8] + ordered(be_u64(rtt_ns), order),
    }
}

/// The byte that says whether a video packet holds a keyframe.
pub open spec fn frame_type_byte(is_keyframe: bool) -> u8 {
    if is_keyframe {
        1
    } else {
        0
    }
}

impl OutboundView {
    /// The channel that the packet travels on.
    pub open spec fn channel(self) -> u8 {
        match self {
            OutboundView::VideoUnit { .. } => CHANNEL_HOST_VIDEO,
            OutboundView::AudioSample { .. } => CHANNEL_HOST_AUDIO,
            OutboundView::Rtt { .. } => CHANNEL_RTT,
            OutboundView::Stats(_) => CHANNEL_STATS,
        }
    }

    /// What follows the channel byte. Video: the frame type, the timestamp
    /// in four bytes, the encoded bytes. Audio: the encoded bytes. A probe:
    /// its sequence number in two bytes. Statistics: the report.
    pub open spec fn payload(self, order: ByteOrder) -> Seq<u8> {
        match self {
            OutboundView::VideoUnit { payload, timestamp, is_keyframe } => seq![
                frame_type_byte(is_keyframe),
            ] + ordered(be_u32(timestamp), order) + payload,
            OutboundView::AudioSample { payload } => payload,
            OutboundView::Rtt { sequence_number } => ordered(be_u16(sequence_number), order),
            OutboundView::Stats(report) => stats_bytes(report, order),
        }
    }

    /// The whole message: the channel byte, then the payload.
    pub open spec fn message(self, order: ByteOrder) -> Seq<u8> {
        seq![self.channel()] + self.payload(order)
    }
}

/// The packet that a payload on a channel stands for. There is none on a
/// channel that carries no inbound packets, nor where the payload is too
/// short.
pub open spec fn inbound_of(channel: u8, payload: Seq<u8>, order: ByteOrder) -> Option<
    InboundPacket,
> {
    if channel == CHANNEL_REQUEST_IDR {
        Some(InboundPacket::RequestVideoIdr)
    } else if channel == CHANNEL_RTT && payload.len() >= 2 {
        Some(InboundPacket::Rtt { sequence_number: decode_u16(payload.subrange(0, 2), order) })
    } else {
        None
    }
}

impl InboundPacket {
    /// Reads the packet that a payload on a channel stands for.
    pub fn deserialize(channel: TransportChannel, payload: &[u8], order: ByteOrder) -> (packet:
        Option<InboundPacket>)
        ensures
            packet == inbound_of(channel.0, payload@, order),
    {
        if channel.0 == CHANNEL_REQUEST_IDR {
            Some(InboundPacket::RequestVideoIdr)
        } else if channel.0 == CHANNEL_RTT {
            match read_u16(payload, order) {
                Some(sequence_number) => Some(InboundPacket::Rtt { sequence_number }),
                None => None,
            }
        } else {
            None
        }
    }
}

/// The lengths of what a report is made of.
pub proof fn lemma_stats_lengths(report: StreamerStatsUpdate, order: ByteOrder)
    ensures
        stats_bytes(report, order).len() == match report {
            StreamerStatsUpdate::Video { host_processing_latency: Some(_), .. } => 50nat,
            StreamerStatsUpdate::Video { host_processing_latency: None, .. } => 26nat,
            StreamerStatsUpdate::Bandwidth { .. } => 17nat,
            StreamerStatsUpdate::Rtt { .. } => 17nat,
            StreamerStatsUpdate::BrowserRtt { .. } => 9nat,
        },
{
}

fn put_summary(out: &mut ByteBuffer, summary: LatencySummary)
    requires
        old(out)@.fits(24),
    ensures
        final(out)@ == (BufferView {
            bytes: old(out)@.bytes + summary_bytes(summary, old(out)@.order),
            ..old(out)@
        }),
        summary_bytes(summary, old(out)@.order).len() == 24,
{
    let ghost before = out@;
    out.put_u64(summary.min_ns);
    out.put_u64(summary.max_ns);
    out.put_u64(summary.avg_ns);
    assert(out@.bytes =~= before.bytes + summary_bytes(summary, before.order));
}

fn put_pair(out: &mut ByteBuffer, kind: u8, first: u64, second: u64)
    requires
        old(out)@.fits(17),
    ensures
        final(out)@ == (BufferView {
            bytes: old(out)@.bytes + (seq![kind] + ordered(be_u64(first), old(out)@.order)
                + ordered(be_u64(second), old(out)@.order)),
            ..old(out)@
        }),
{
    let ghost before = out@;
    out.put_u8(kind);
    out.put_u64(first);
    out.put_u64(second);
    assert(out@.bytes =~= before.bytes + (seq![kind] + ordered(be_u64(first), before.order)
        + ordered(be_u64(second), before.order)));
}

fn put_video_stats(out: &mut ByteBuffer, host: LatencySummary, streamer: LatencySummary)
    requires
        old(out)@.fits(50),
    ensures
        final(out)@ == (BufferView {
            bytes: old(out)@.bytes + stats_bytes(
                StreamerStatsUpdate::Video {
                    host_processing_latency: Some(host),
                    streamer_processing_time: streamer,
                },
                old(out)@.order,
            ),
            ..old(out)@
        }),
{
    let ghost before = out@;
    out.put_u8(0);
    out.put_u8(1);
    put_summary(out, host);
    assert(out@.bytes =~= before.bytes + (seq![0u8] + (seq![1u8] + summary_bytes(
        host,
        before.order,
    ))));
    put_summary(out, streamer);
    assert(out@.bytes =~= before.bytes + stats_bytes(
        StreamerStatsUpdate::Video {
            host_processing_latency: Some(host),
            streamer_processing_time: streamer,
        },
        before.order,
    ));
}

impl StreamerStatsUpdate {
    /// The number of bytes that the report takes.
    pub fn encoded_len(&self) -> (len: usize)
        ensures
            forall|order: ByteOrder| len == #[trigger] stats_bytes(*self, order).len(),
    {
        proof {
            assert forall|order: ByteOrder| true implies stats_bytes(*self, order).len() == (
            match *self {
                StreamerStatsUpdate::Video { host_processing_latency: Some(_), .. } => 50nat,
                StreamerStatsUpdate::Video { host_processing_latency: None, .. } => 26nat,
                StreamerStatsUpdate::Bandwidth { .. } => 17nat,
                StreamerStatsUpdate::Rtt { .. } => 17nat,
                StreamerStatsUpdate::BrowserRtt { .. } => 9nat,
            }) by {
                lemma_stats_lengths(*self, order);
            }
        }
        match self {
            StreamerStatsUpdate::Video { host_processing_latency, .. } => {
                match host_processing_latency {
                    Some(_) => 50,
                    None => 26,
                }
            },
            StreamerStatsUpdate::Bandwidth { .. } => 17,
            StreamerStatsUpdate::Rtt { .. } => 17,
            StreamerStatsUpdate::BrowserRtt { .. } => 9,
        }
    }

    /// Writes the report, if the whole of it fits.
    pub fn serialize(&self, out: &mut ByteBuffer) -> (written: bool)
        ensures
            written == old(out)@.fits(stats_bytes(*self, old(out)@.order).len() as int),
            final(out)@ == old(out)@.put(stats_bytes(*self, old(out)@.order)),
    {
        proof {
            lemma_stats_lengths(*self, out@.order);
        }
        let ghost before = out@;
        if !out.has_room(self.encoded_len()) {
            return false;
        }
        match self {
            StreamerStatsUpdate::Video { host_processing_latency, streamer_processing_time } => {
                match host_processing_latency {
                    Some(host) => {
                        put_video_stats(out, *host, *streamer_processing_time);
                    },
                    None => {
                        out.put_u8(0);
                        out.put_u8(0);
                        put_summary(out, *streamer_processing_time);
                    },
                }
            },
            StreamerStatsUpdate::Bandwidth { incoming_kbps, outgoing_kbps } => {
                put_pair(out, 1, *incoming_kbps, *outgoing_kbps);
            },
            StreamerStatsUpdate::Rtt { rtt_ns, rtt_variance_ns } => {
                put_pair(out, 2, *rtt_ns, *rtt_variance_ns);
            },
            StreamerStatsUpdate::BrowserRtt { rtt_ns } => {
                out.put_u8(3);
                out.put_u64(*rtt_ns);
            },
        }
        assert(out@.bytes =~= before.bytes + stats_bytes(*self, before.order));
        true
    }
}

impl OutboundPacket {
    /// The channel that the packet travels on.
    pub fn channel(&self) -> (channel: TransportChannel)
        ensures
            channel.0 == self@.channel(),
    {
        match self {
            OutboundPacket::VideoUnit { .. } => TransportChannel(CHANNEL_HOST_VIDEO),
            OutboundPacket::AudioSample { .. } => TransportChannel(CHANNEL_HOST_AUDIO),
            OutboundPacket::Rtt { .. } => TransportChannel(CHANNEL_RTT),
            OutboundPacket::Stats(_) => TransportChannel(CHANNEL_STATS),
        }
    }

    /// Writes the packet's payload behind what the buffer holds, in the
    /// buffer's byte order. A payload that does not fit as a whole is not
    /// written at all.
    pub fn serialize(&self, out: &mut ByteBuffer) -> (written: bool)
        ensures
            written == old(out)@.fits(self@.payload(old(out)@.order).len() as int),
            final(out)@ == old(out)@.put(self@.payload(old(out)@.order)),
    {
        let ghost before = out@;
        let ghost expected = self@.payload(before.order);
        match self {
            OutboundPacket::VideoUnit { payload, timestamp, is_keyframe } => {
                let fits = match out.remaining() {
                    Some(room) => room >= 5 && room - 5 >= payload.len(),
                    None => true,
                };
                if !fits {
                    return false;
                }
                out.put_u8(
                    if *is_keyframe {
                        1
                    } else {
                        0
                    },
                );
                out.put_u32(*timestamp);
                out.put_bytes(payload.as_slice());
                assert(out@.bytes =~= before.bytes + expected);
                true
            },
            OutboundPacket::AudioSample { payload } => out.put_bytes(payload.as_slice()),
            OutboundPacket::Rtt { sequence_number } => out.put_u16(*sequence_number),
            OutboundPacket::Stats(report) => report.serialize(out),
        }
    }
}

/// A probe's answer read back is the probe's sequence number, in either
/// byte order.
pub proof fn lemma_rtt_round_trip(sequence_number: u16, order: ByteOrder)
    ensures
        inbound_of(
            CHANNEL_RTT,
            (OutboundView::Rtt { sequence_number }).payload(order),
            order,
        ) == Some(InboundPacket::Rtt { sequence_number }),
{
    let payload = (OutboundView::Rtt { sequence_number }).payload(order);
    assert(payload.subrange(0, 2) =~= payload);
}

/// The latency summary that 24 bytes stand for.
pub open spec fn summary_in(bytes: Seq<u8>, order: ByteOrder) -> LatencySummary
    recommends
        bytes.len() == 24,
{
    LatencySummary {
        min_ns: decode_u64(bytes.subrange(0, 8), order),
        max_ns: decode_u64(bytes.subrange(8, 16), order),
        avg_ns: decode_u64(bytes.subrange(16, 24), order),
    }
}

/// The statistics report that a payload stands for, if it is one.
pub open spec fn stats_in(payload: Seq<u8>, order: ByteOrder) -> Option<StreamerStatsUpdate> {
    if payload.len() == 50 && payload[0] == 0 && payload[1] == 1 {
        Some(
            StreamerStatsUpdate::Video {
                host_processing_latency: Some(summary_in(payload.subrange(2, 26), order)),
                streamer_processing_time: summary_in(payload.subrange(26, 50), order),
            },
        )
    } else if payload.len() == 26 && payload[0] == 0 && payload[1] == 0 {
        Some(
            StreamerStatsUpdate::Video {
                host_processing_latency: None,
                streamer_processing_time: summary_in(payload.subrange(2, 26), order),
            },
        )
    } else if payload.len() == 17 && payload[0] == 1 {
        Some(
            StreamerStatsUpdate::Bandwidth {
                incoming_kbps: decode_u64(payload.subrange(1, 9), order),
                outgoing_kbps: decode_u64(payload.subrange(9, 17), order),
            },
        )
    } else if payload.len() == 17 && payload[0] == 2 {
        Some(
            StreamerStatsUpdate::Rtt {
                rtt_ns: decode_u64(payload.subrange(1, 9), order),
                rtt_variance_ns: decode_u64(payload.subrange(9, 17), order),
            },
        )
    } else if payload.len() == 9 && payload[0] == 3 {
        Some(StreamerStatsUpdate::BrowserRtt { rtt_ns: decode_u64(payload.subrange(1, 9), order) })
    } else {
        None
    }
}

/// The outbound packet that a message stands for, if it is one: what the
/// peer reads.
pub open spec fn outbound_in(message: Seq<u8>, order: ByteOrder) -> Option<OutboundView> {
    if message.len() == 0 {
        None
    } else {
        let payload = message.subrange(1, message.len() as int);
        if message[0] == CHANNEL_HOST_VIDEO && payload.len() >= 5 && payload[0] <= 1 {
            Some(
                OutboundView::VideoUnit {
                    payload: payload.subrange(5, payload.len() as int),
                    timestamp: decode_u32(payload.subrange(1, 5), order),
                    is_keyframe: payload[0] == 1,
                },
            )
        } else if message[0] == CHANNEL_HOST_AUDIO {
            Some(OutboundView::AudioSample { payload })
        } else if message[0] == CHANNEL_RTT && payload.len() == 2 {
            Some(OutboundView::Rtt { sequence_number: decode_u16(payload, order) })
        } else if message[0] == CHANNEL_STATS {
            match stats_in(payload, order) {
                Some(report) => Some(OutboundView::Stats(report)),
                None => None,
            }
        } else {
            None
        }
    }
}

/// A latency summary is read back as it was written.
pub proof fn lemma_summary_reads_back(summary: LatencySummary, order: ByteOrder)
    ensures
        summary_bytes(summary, order).len() == 24,
        summary_in(summary_bytes(summary, order), order) == summary,
{
    let bytes = summary_bytes(summary, order);
    lemma_u64_round_trip(summary.min_ns, order);
    lemma_u64_round_trip(summary.max_ns, order);
    lemma_u64_round_trip(summary.avg_ns, order);
    assert(bytes.subrange(0, 8) =~= ordered(be_u64(summary.min_ns), order));
    assert(bytes.subrange(8, 16) =~= ordered(be_u64(summary.max_ns), order));
    assert(bytes.subrange(16, 24) =~= ordered(be_u64(summary.avg_ns), order));
}

/// A statistics report is read back as it was written.
pub proof fn lemma_stats_read_back(report: StreamerStatsUpdate, order: ByteOrder)
    ensures
        stats_in(stats_bytes(report, order), order) == Some(report),
{
    let payload = stats_bytes(report, order);
    lemma_stats_lengths(report, order);
    match report {
        StreamerStatsUpdate::Video { host_processing_latency, streamer_processing_time } => {
            lemma_summary_reads_back(streamer_processing_time, order);
            match host_processing_latency {
                Some(host) => {
                    lemma_summary_reads_back(host, order);
                    assert(payload.subrange(2, 26) =~= summary_bytes(host, order));
                    assert(payload.subrange(26, 50) =~= summary_bytes(
                        streamer_processing_time,
                        order,
                    ));
                },
                None => {
                    assert(payload.subrange(2, 26) =~= summary_bytes(
                        streamer_processing_time,
                        order,
                    ));
                },
            }
        },
        StreamerStatsUpdate::Bandwidth { incoming_kbps, outgoing_kbps } => {
            lemma_u64_round_trip(incoming_kbps, order);
            lemma_u64_round_trip(outgoing_kbps, order);
            assert(payload.subrange(1, 9) =~= ordered(be_u64(incoming_kbps), order));
            assert(payload.subrange(9, 17) =~= ordered(be_u64(outgoing_kbps), order));
        },
        StreamerStatsUpdate::Rtt { rtt_ns, rtt_variance_ns } => {
            lemma_u64_round_trip(rtt_ns, order);
            lemma_u64_round_trip(rtt_variance_ns, order);
            assert(payload.subrange(1, 9) =~= ordered(be_u64(rtt_ns), order));
            assert(payload.subrange(9, 17) =~= ordered(be_u64(rtt_variance_ns), order));
        },
        StreamerStatsUpdate::BrowserRtt { rtt_ns } => {
            lemma_u64_round_trip(rtt_ns, order);
            assert(payload.subrange(1, 9) =~= ordered(be_u64(rtt_ns), order));
        },
    }
}

/// Every message is read in one way only: the peer that reads a message
/// finds the packet that was written, whatever the packet and in either
/// byte order. So no two packets share a message.
pub proof fn lemma_message_reads_back(packet: OutboundView, order: ByteOrder)
    ensures
        outbound_in(packet.message(order), order) == Some(packet),
{
    let message = packet.message(order);
    let rest = message.subrange(1, message.len() as int);
    assert(rest =~= packet.payload(order));
    match packet {
        OutboundView::VideoUnit { payload, timestamp, is_keyframe } => {
            lemma_u32_round_trip(timestamp, order);
            assert(rest.subrange(1, 5) =~= ordered(be_u32(timestamp), order));
            assert(rest.subrange(5, rest.len() as int) =~= payload);
        },
        OutboundView::AudioSample { payload } => {},
        OutboundView::Rtt { sequence_number } => {
            lemma_u16_round_trip(sequence_number, order);
        },
        OutboundView::Stats(report) => {
            lemma_stats_read_back(report, order);
        },
    }
}

/// No two packets share a message.
pub proof fn lemma_messages_differ(first: OutboundView, second: OutboundView, order: ByteOrder)
    requires
        first.message(order) == second.message(order),
    ensures
        first == second,
{
    lemma_message_reads_back(first, order);
    lemma_message_reads_back(second, order);
}

} // verus!
