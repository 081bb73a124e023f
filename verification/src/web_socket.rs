//! The transport over a web socket: what is sent for a packet, a video unit
//! or an audio sample, and what an incoming message leads to.

use vstd::prelude::*;
use bytes::Bytes;
use crate::buffer::{ByteBuffer, ByteOrder};
use crate::rtt::RttProbe;
use crate::transport::{
    inbound_of, lemma_rtt_round_trip, InboundPacket, OutboundPacket, OutboundView,
    TransportChannel, CHANNEL_HOST_AUDIO, CHANNEL_HOST_VIDEO, CHANNEL_REQUEST_IDR,
};
use crate::stream::{
    DecodeResult, FrameType, SupportedVideoFormats, UnitView, VideoDecodeUnit, VIDEO_FORMAT_H264,
};

verus! {

/// `bytes::Bytes`, of which nothing is known but what `bytes_contents` says.
#[verifier::external_type_specification]
#[verifier::external_body]
pub struct ExBytes(bytes::Bytes);

/// The bytes that a `Bytes` of the `bytes` crate holds, in order.
pub uninterp spec fn bytes_contents(bytes: Bytes) -> Seq<u8>;

/// Calls `Bytes::from` of the `bytes` crate on a `Vec<u8>`. Taken on trust:
/// the result holds the vector's bytes, in the vector's order.
#[verifier::external_body]
fn bytes_from_vec(data: Vec<u8>) -> (bytes: Bytes)
    ensures
        bytes_contents(bytes) == data@,
{
    Bytes::from(data)
}

/// Calls `AsRef<[u8]>::as_ref` of the `bytes` crate on a `Bytes`. Taken on
/// trust: the slice holds the bytes that the `Bytes` holds, in order.
#[verifier::external_body]
fn bytes_as_slice(bytes: &Bytes) -> (slice: &[u8])
    ensures
        slice@ == bytes_contents(*bytes),
{
    bytes.as_ref()
}

/// The colours of the stream.
#[derive(Clone, Copy, Debug, PartialEq, Eq, Structural)]
pub enum Colorspace {
    Rec601,
    Rec709,
    Rec2020,
}

/// What the peer asks of the stream when it starts it.
#[derive(Clone, Copy, Debug, PartialEq, Eq, Structural)]
pub struct StreamSettings {
    pub bitrate: u32,
    pub packet_size: u32,
    pub fps: u32,
    pub width: u32,
    pub height: u32,
    pub video_supported_formats: SupportedVideoFormats,
    pub video_color_range_full: bool,
    pub video_colorspace: Colorspace,
    pub play_audio_local: bool,
    pub hdr: bool,
}

/// A control message of the peer.
#[derive(Clone, Copy, Debug, PartialEq, Eq, Structural)]
pub enum StreamClientMessage {
    StartStream {
        bitrate: u32,
        packet_size: u32,
        fps: u32,
        width: u32,
        height: u32,
        play_audio_local: bool,
        /// The formats that the peer takes, one bit each.
        video_supported_formats: u32,
        video_colorspace: Colorspace,
        video_color_range_full: bool,
        hdr: bool,
    },
    /// Any other control message.
    Other,
}

/// A message from the server that holds the web socket.
#[derive(Debug)]
pub enum ServerIpcMessage {
    /// A message of the multiplexed transport: the channel byte, then the
    /// payload.
    WebSocketTransport(Bytes),
    /// A control message.
    WebSocket(StreamClientMessage),
    /// Any other message.
    Other,
}

/// What the transport hands to the session.
#[derive(Clone, Copy, Debug, PartialEq, Eq, Structural)]
pub enum TransportEvent {
    /// A packet came from the peer.
    RecvPacket(InboundPacket),
    /// The peer starts the stream.
    StartStream { settings: StreamSettings },
}

/// What an incoming message leads to.
#[derive(Clone, Copy, Debug, PartialEq, Eq, Structural)]
pub struct IpcOutcome {
    /// The event for the session, if the message holds one.
    pub event: Option<TransportEvent>,
    /// The sequence number of a probe's answer, which opens the next round.
    pub rtt_round: Option<u16>,
}

/// The state of the sending side.
#[derive(Clone, Copy, Debug, PartialEq, Eq, Structural)]
pub struct WebSocketTransportSender {
    /// The round-trip probe that is under way.
    pub rtt: RttProbe,
    /// The peer has asked for a keyframe and the engine has not been told
    /// yet.
    pub needs_idr: bool,
    /// The order in which integers travel.
    pub order: ByteOrder,
}

/// The formats that the bits stand for, and H.264 alone where a bit names no
/// format.
pub open spec fn formats_or_h264(bits: u32) -> SupportedVideoFormats {
    if SupportedVideoFormats::known(bits) {
        SupportedVideoFormats { bits }
    } else {
        SupportedVideoFormats { bits: VIDEO_FORMAT_H264 }
    }
}

/// The settings that a start message asks for.
pub open spec fn start_settings(message: StreamClientMessage) -> Option<StreamSettings> {
    match message {
        StreamClientMessage::StartStream {
            bitrate,
            packet_size,
            fps,
            width,
            height,
            play_audio_local,
            video_supported_formats,
            video_colorspace,
            video_color_range_full,
            hdr,
        } => Some(
            StreamSettings {
                bitrate,
                packet_size,
                fps,
                width,
                height,
                video_supported_formats: formats_or_h264(video_supported_formats),
                video_color_range_full,
                video_colorspace,
                play_audio_local,
                hdr,
            },
        ),
        StreamClientMessage::Other => None,
    }
}

/// The packet in a transport message: its first byte is the channel, the
/// rest the payload. An empty message holds none.
pub open spec fn packet_in(message: Seq<u8>, order: ByteOrder) -> Option<InboundPacket> {
    if message.len() == 0 {
        None
    } else {
        inbound_of(message[0], message.subrange(1, message.len() as int), order)
    }
}

/// What a transport message with this packet leads to: the packet goes to
/// the session, and a probe's answer opens the next round.
pub open spec fn packet_outcome(packet: Option<InboundPacket>) -> IpcOutcome {
    match packet {
        Some(packet) => IpcOutcome {
            event: Some(TransportEvent::RecvPacket(packet)),
            rtt_round: match packet {
                InboundPacket::Rtt { sequence_number } => Some(sequence_number),
                InboundPacket::RequestVideoIdr => None,
            },
        },
        None => IpcOutcome { event: None, rtt_round: None },
    }
}

/// What an incoming message leads to.
pub open spec fn ipc_outcome(message: ServerIpcMessage, order: ByteOrder) -> IpcOutcome {
    match message {
        ServerIpcMessage::WebSocketTransport(bytes) => packet_outcome(
            packet_in(bytes_contents(bytes), order),
        ),
        ServerIpcMessage::WebSocket(control) => IpcOutcome {
            event: match start_settings(control) {
                Some(settings) => Some(TransportEvent::StartStream { settings }),
                None => None,
            },
            rtt_round: None,
        },
        ServerIpcMessage::Other => IpcOutcome { event: None, rtt_round: None },
    }
}

/// The message asks for a keyframe.
pub open spec fn asks_for_idr(message: ServerIpcMessage, order: ByteOrder) -> bool {
    message matches ServerIpcMessage::WebSocketTransport(bytes) && packet_in(
        bytes_contents(bytes),
        order,
    ) == Some(InboundPacket::RequestVideoIdr)
}

/// The video packet that a decode unit is forwarded as: its frame, the low
/// 32 bits of its presentation time in microseconds, and whether it is a
/// keyframe.
pub open spec fn forwarded_packet(unit: UnitView) -> OutboundView {
    OutboundView::VideoUnit {
        payload: unit.frame(),
        timestamp: (unit.presentation_time_us % 0x1_0000_0000) as u32,
        is_keyframe: unit.frame_type == FrameType::Idr,
    }
}

/// The message that a packet is sent as: the byte of its channel, then its
/// payload, integers in the given order.
pub fn send_packet(packet: &OutboundPacket, order: ByteOrder) -> (message: Bytes)
    ensures
        bytes_contents(message) == packet@.message(order),
{
    let mut buffer = ByteBuffer::new().with_order(order);
    buffer.put_u8(packet.channel().0);
    packet.serialize(&mut buffer);
    bytes_from_vec(buffer.into_vec())
}

impl WebSocketTransportSender {
    /// The sending side at the start: the first probe counts as sent at
    /// `now`, no keyframe has been asked for, and integers travel
    /// big-endian.
    pub open spec fn new_spec(now: u64) -> WebSocketTransportSender {
        WebSocketTransportSender {
            rtt: RttProbe::new_spec(now),
            needs_idr: false,
            order: ByteOrder::BigEndian,
        }
    }

    /// The sending side at the start.
    pub fn new(now: u64) -> (sender: Self)
        ensures
            sender == Self::new_spec(now),
    {
        WebSocketTransportSender {
            rtt: RttProbe::new(now),
            needs_idr: false,
            order: ByteOrder::BigEndian,
        }
    }

    /// The same sender, with integers travelling in `order` from now on.
    pub fn with_order(self, order: ByteOrder) -> (sender: Self)
        ensures
            sender == (WebSocketTransportSender { order, ..self }),
    {
        WebSocketTransportSender { rtt: self.rtt, needs_idr: self.needs_idr, order }
    }

    /// The message that a decode unit is forwarded as.
    pub fn send_video_unit(&self, unit: &VideoDecodeUnit) -> (message: Bytes)
        ensures
            bytes_contents(message) == forwarded_packet(unit@).message(self.order),
    {
        let mut buffer = ByteBuffer::new().with_order(self.order);
        buffer.put_u8(CHANNEL_HOST_VIDEO);
        buffer.put_u8(
            match unit.frame_type {
                FrameType::Idr => 1,
                FrameType::PFrame => 0,
            },
        );
        buffer.put_u32((unit.presentation_time_us % 0x1_0000_0000) as u32);
        let frame = unit.frame();
        buffer.put_bytes(frame.as_slice());
        assert(buffer@.bytes =~= forwarded_packet(unit@).message(self.order));
        bytes_from_vec(buffer.into_vec())
    }

    /// What the engine is told once a forwarded unit has gone out: to ask
    /// for a keyframe if the peer has asked for one since the last time, and
    /// that the unit was taken otherwise.
    pub fn video_unit_sent(&mut self) -> (result: DecodeResult)
        ensures
            result == if old(self).needs_idr {
                DecodeResult::NeedIdr
            } else {
                DecodeResult::Accepted
            },
            *final(self) == (WebSocketTransportSender { needs_idr: false, ..*old(self) }),
    {
        if self.needs_idr {
            self.needs_idr = false;
            DecodeResult::NeedIdr
        } else {
            DecodeResult::Accepted
        }
    }

    /// The message that an audio sample is sent as.
    pub fn send_audio_sample(&self, data: &[u8]) -> (message: Bytes)
        ensures
            bytes_contents(message) == (OutboundView::AudioSample { payload: data@ }).message(
                self.order,
            ),
    {
        let mut buffer = ByteBuffer::new();
        buffer.put_u8(CHANNEL_HOST_AUDIO);
        buffer.put_bytes(data);
        assert(buffer@.bytes =~= (OutboundView::AudioSample { payload: data@ }).message(
            self.order,
        ));
        bytes_from_vec(buffer.into_vec())
    }

    /// The message that a packet is sent as.
    pub fn send(&self, packet: &OutboundPacket) -> (message: Bytes)
        ensures
            bytes_contents(message) == packet@.message(self.order),
    {
        send_packet(packet, self.order)
    }

    /// Takes a message from the server. A transport message that holds a
    /// packet gives the packet to the session; a request for a keyframe is
    /// noted, and a probe's answer opens the next round. A start message
    /// gives the session its settings. An empty message, one on an unknown
    /// channel and one that is too short lead to nothing.
    pub fn on_ipc_message(&mut self, message: ServerIpcMessage) -> (outcome: IpcOutcome)
        ensures
            outcome == ipc_outcome(message, old(self).order),
            *final(self) == (WebSocketTransportSender {
                needs_idr: old(self).needs_idr || asks_for_idr(message, old(self).order),
                ..*old(self)
            }),
    {
        match message {
            ServerIpcMessage::WebSocketTransport(bytes) => {
                let message = bytes_as_slice(&bytes);
                if message.len() == 0 {
                    return IpcOutcome { event: None, rtt_round: None };
                }
                let channel_id: u8 = message[0];
                let payload: &[u8] = &message[1..message.len()];
                let packet = match InboundPacket::deserialize(
                    TransportChannel(channel_id),
                    payload,
                    self.order,
                ) {
                    Some(packet) => packet,
                    None => {
                        return IpcOutcome { event: None, rtt_round: None };
                    },
                };
                let rtt_round = match packet {
                    InboundPacket::RequestVideoIdr => {
                        self.needs_idr = true;
                        None
                    },
                    InboundPacket::Rtt { sequence_number } => Some(sequence_number),
                };
                IpcOutcome { event: Some(TransportEvent::RecvPacket(packet)), rtt_round }
            },
            ServerIpcMessage::WebSocket(control) => {
                match control {
                    StreamClientMessage::StartStream {
                        bitrate,
                        packet_size,
                        fps,
                        width,
                        height,
                        play_audio_local,
                        video_supported_formats,
                        video_colorspace,
                        video_color_range_full,
                        hdr,
                    } => {
                        let video_supported_formats = match SupportedVideoFormats::from_bits(
                            video_supported_formats,
                        ) {
                            Some(formats) => formats,
                            None => SupportedVideoFormats::h264(),
                        };
                        IpcOutcome {
                            event: Some(
                                TransportEvent::StartStream {
                                    settings: StreamSettings {
                                        bitrate,
                                        packet_size,
                                        fps,
                                        width,
                                        height,
                                        video_supported_formats,
                                        video_color_range_full,
                                        video_colorspace,
                                        play_audio_local,
                                        hdr,
                                    },
                                },
                            ),
                            rtt_round: None,
                        }
                    },
                    StreamClientMessage::Other => IpcOutcome { event: None, rtt_round: None },
                }
            },
            ServerIpcMessage::Other => IpcOutcome { event: None, rtt_round: None },
        }
    }
}

/// What a peer sends to ask for a keyframe leads to the request being
/// noted, and what it sends to answer a probe leads to a round with the
/// sequence number that it carries.
pub proof fn lemma_peer_packets_arrive(sequence_number: u16, order: ByteOrder)
    ensures
        packet_in(seq![CHANNEL_REQUEST_IDR], order) == Some(InboundPacket::RequestVideoIdr),
        packet_outcome(
            packet_in((OutboundView::Rtt { sequence_number }).message(order), order),
        ).rtt_round == Some(sequence_number),
{
    let message = (OutboundView::Rtt { sequence_number }).message(order);
    assert(message.subrange(1, message.len() as int) =~= (OutboundView::Rtt {
        sequence_number,
    }).payload(order));
    lemma_rtt_round_trip(sequence_number, order);
}

/// A forwarded unit goes out byte for byte: behind the channel, the frame
/// type and the four bytes of the timestamp stands the unit's frame, and
/// nothing else.
pub proof fn lemma_forwarded_byte_for_byte(unit: UnitView, order: ByteOrder)
    ensures
        forwarded_packet(unit).message(order).len() == 6 + unit.frame().len(),
        forwarded_packet(unit).message(order)[0] == CHANNEL_HOST_VIDEO,
        forwarded_packet(unit).message(order).subrange(
            6,
            forwarded_packet(unit).message(order).len() as int,
        ) == unit.frame(),
{
    let message = forwarded_packet(unit).message(order);
    assert(message.subrange(6, message.len() as int) =~= unit.frame());
}

} // verus!
