use bytes::Bytes;
use streamer::buffer::ByteOrder;
use streamer::rtt::RttProbe;
use streamer::stream::{
    DecodeResult, FrameType, SupportedVideoFormats, VideoDecodeUnit, VIDEO_FORMAT_AV1_HIGH10_444,
    VIDEO_FORMAT_AV1_HIGH8_444, VIDEO_FORMAT_AV1_MAIN10, VIDEO_FORMAT_AV1_MAIN8,
    VIDEO_FORMAT_H264, VIDEO_FORMAT_H264_HIGH8_444, VIDEO_FORMAT_H265, VIDEO_FORMAT_H265_MAIN10,
    VIDEO_FORMAT_H265_REXT10_444, VIDEO_FORMAT_H265_REXT8_444, VIDEO_FORMAT_MASK,
};
use streamer::transport::{InboundPacket, OutboundPacket, StreamerStatsUpdate};
use streamer::web_socket::{
    send_packet, Colorspace, IpcOutcome, ServerIpcMessage, StreamClientMessage, StreamSettings,
    TransportEvent, WebSocketTransportSender,
};

fn sender() -> WebSocketTransportSender {
    WebSocketTransportSender::new(1_000)
}

fn nothing() -> IpcOutcome {
    IpcOutcome { event: None, rtt_round: None }
}

fn transport(bytes: &[u8]) -> ServerIpcMessage {
    ServerIpcMessage::WebSocketTransport(Bytes::copy_from_slice(bytes))
}

#[test]
fn a_new_sender_has_no_request_pending() {
    assert_eq!(
        sender(),
        WebSocketTransportSender {
            rtt: RttProbe { sent_at: 1_000, sequence_number: 0 },
            needs_idr: false,
            order: ByteOrder::BigEndian,
        }
    );
}

#[test]
fn a_message_is_the_channel_and_the_payload() {
    let probe = send_packet(&OutboundPacket::Rtt { sequence_number: 0x0a0b }, ByteOrder::BigEndian);
    assert_eq!(probe.as_ref(), &[4, 0x0a, 0x0b]);
    let audio = send_packet(&OutboundPacket::AudioSample { payload: vec![1, 2, 3] }, ByteOrder::BigEndian);
    assert_eq!(audio.as_ref(), &[3, 1, 2, 3]);
    let video = send_packet(
        &OutboundPacket::VideoUnit { payload: vec![0xaa], timestamp: 0x0102_0304, is_keyframe: true },
        ByteOrder::BigEndian,
    );
    assert_eq!(video.as_ref(), &[2, 1, 1, 2, 3, 4, 0xaa]);
    let stats = send_packet(
        &OutboundPacket::Stats(StreamerStatsUpdate::BrowserRtt { rtt_ns: 258 }),
        ByteOrder::BigEndian,
    );
    assert_eq!(stats.as_ref(), &[1, 3, 0, 0, 0, 0, 0, 0, 1, 2]);
    assert_eq!(
        sender().send(&OutboundPacket::Rtt { sequence_number: 0x0a0b }).as_ref(),
        &[4, 0x0a, 0x0b]
    );
}

#[test]
fn a_unit_is_forwarded_byte_for_byte() {
    let unit = VideoDecodeUnit {
        buffers: vec![vec![0, 0, 0, 1, 0x65], vec![], vec![0x88, 0x84]],
        frame_type: FrameType::Idr,
        presentation_time_us: 0x0102_0304,
        rtp_timestamp: 9,
        frame_processing_latency: None,
    };
    let message = sender().send_video_unit(&unit);
    assert_eq!(message.as_ref(), &[2, 1, 1, 2, 3, 4, 0, 0, 0, 1, 0x65, 0x88, 0x84]);
    assert_eq!(&message[6..], unit.frame().as_slice());
    assert_eq!(message.len() as u64, 6 + unit.incoming_bytes());
}

#[test]
fn the_timestamp_is_the_low_half_of_the_microseconds() {
    let unit = VideoDecodeUnit {
        buffers: vec![],
        frame_type: FrameType::PFrame,
        presentation_time_us: 0x0000_0007_0000_0005,
        rtp_timestamp: 9,
        frame_processing_latency: None,
    };
    assert_eq!(sender().send_video_unit(&unit).as_ref(), &[2, 0, 0, 0, 0, 5]);
    let late = VideoDecodeUnit { presentation_time_us: u64::MAX, ..unit };
    assert_eq!(sender().send_video_unit(&late).as_ref(), &[2, 0, 0xff, 0xff, 0xff, 0xff]);
}

#[test]
fn an_audio_sample_goes_out_behind_its_channel() {
    assert_eq!(sender().send_audio_sample(&[7, 8, 9]).as_ref(), &[3, 7, 8, 9]);
    assert_eq!(sender().send_audio_sample(&[]).as_ref(), &[3]);
}

#[test]
fn a_request_for_a_keyframe_is_passed_on_once() {
    let mut sender = sender();
    assert_eq!(sender.video_unit_sent(), DecodeResult::Accepted);
    let outcome = sender.on_ipc_message(transport(&[5]));
    assert_eq!(
        outcome,
        IpcOutcome {
            event: Some(TransportEvent::RecvPacket(InboundPacket::RequestVideoIdr)),
            rtt_round: None,
        }
    );
    assert!(sender.needs_idr);
    sender.on_ipc_message(transport(&[5, 1, 2]));
    assert!(sender.needs_idr);
    assert_eq!(sender.video_unit_sent(), DecodeResult::NeedIdr);
    assert!(!sender.needs_idr);
    assert_eq!(sender.video_unit_sent(), DecodeResult::Accepted);
    assert_eq!(sender.rtt, RttProbe { sent_at: 1_000, sequence_number: 0 });
}

#[test]
fn an_answer_to_a_probe_opens_a_round() {
    let mut sender = sender();
    let outcome = sender.on_ipc_message(transport(&[4, 0x01, 0x02]));
    assert_eq!(
        outcome,
        IpcOutcome {
            event: Some(TransportEvent::RecvPacket(InboundPacket::Rtt { sequence_number: 0x0102 })),
            rtt_round: Some(0x0102),
        }
    );
    assert_eq!(sender, self::sender());
}

#[test]
fn messages_without_packet_lead_to_nothing() {
    let mut sender = sender();
    assert_eq!(sender.on_ipc_message(transport(&[])), nothing());
    assert_eq!(sender.on_ipc_message(transport(&[4])), nothing());
    assert_eq!(sender.on_ipc_message(transport(&[4, 1])), nothing());
    assert_eq!(sender.on_ipc_message(transport(&[0, 1, 2])), nothing());
    assert_eq!(sender.on_ipc_message(transport(&[2, 1, 2, 3, 4, 5, 6])), nothing());
    assert_eq!(sender.on_ipc_message(transport(&[200, 1, 2])), nothing());
    assert_eq!(sender.on_ipc_message(ServerIpcMessage::Other), nothing());
    assert_eq!(
        sender.on_ipc_message(ServerIpcMessage::WebSocket(StreamClientMessage::Other)),
        nothing()
    );
    assert_eq!(sender, self::sender());
}

fn start(video_supported_formats: u32) -> ServerIpcMessage {
    ServerIpcMessage::WebSocket(StreamClientMessage::StartStream {
        bitrate: 20_000,
        packet_size: 1024,
        fps: 60,
        width: 1920,
        height: 1080,
        play_audio_local: true,
        video_supported_formats,
        video_colorspace: Colorspace::Rec709,
        video_color_range_full: false,
        hdr: true,
    })
}

fn started(bits: u32) -> IpcOutcome {
    IpcOutcome {
        event: Some(TransportEvent::StartStream {
            settings: StreamSettings {
                bitrate: 20_000,
                packet_size: 1024,
                fps: 60,
                width: 1920,
                height: 1080,
                video_supported_formats: SupportedVideoFormats { bits },
                video_color_range_full: false,
                video_colorspace: Colorspace::Rec709,
                play_audio_local: true,
                hdr: true,
            },
        }),
        rtt_round: None,
    }
}

#[test]
fn a_start_message_gives_the_settings() {
    let mut sender = sender();
    assert_eq!(sender.on_ipc_message(start(0x0101)), started(0x0101));
    assert_eq!(sender.on_ipc_message(start(0)), started(0));
    assert_eq!(sender.on_ipc_message(start(VIDEO_FORMAT_MASK)), started(0xff05));
    assert_eq!(sender, self::sender());
}

#[test]
fn unknown_formats_fall_back_to_h264() {
    let mut sender = sender();
    assert_eq!(sender.on_ipc_message(start(0x0002)), started(VIDEO_FORMAT_H264));
    assert_eq!(sender.on_ipc_message(start(0x0103)), started(1));
    assert_eq!(sender.on_ipc_message(start(u32::MAX)), started(1));
    assert_eq!(sender.on_ipc_message(start(0x0001_0000)), started(1));
}

#[test]
fn format_sets_are_made_of_known_bits() {
    assert_eq!(SupportedVideoFormats::h264(), SupportedVideoFormats { bits: 1 });
    assert_eq!(
        SupportedVideoFormats::from_bits(VIDEO_FORMAT_H264 | VIDEO_FORMAT_H265),
        Some(SupportedVideoFormats { bits: 0x0101 })
    );
    assert_eq!(
        SupportedVideoFormats::from_bits(VIDEO_FORMAT_H264_HIGH8_444 | VIDEO_FORMAT_H265_MAIN10),
        Some(SupportedVideoFormats { bits: 0x0204 })
    );
    assert_eq!(SupportedVideoFormats::from_bits(0), Some(SupportedVideoFormats { bits: 0 }));
    assert_eq!(SupportedVideoFormats::from_bits(0x0002), None);
    assert_eq!(SupportedVideoFormats::from_bits(0x0008), None);
    assert_eq!(SupportedVideoFormats::from_bits(0x0001_0001), None);
}

#[test]
fn the_mask_holds_every_format() {
    let formats = [
        VIDEO_FORMAT_H264,
        VIDEO_FORMAT_H264_HIGH8_444,
        VIDEO_FORMAT_H265,
        VIDEO_FORMAT_H265_MAIN10,
        VIDEO_FORMAT_H265_REXT8_444,
        VIDEO_FORMAT_H265_REXT10_444,
        VIDEO_FORMAT_AV1_MAIN8,
        VIDEO_FORMAT_AV1_MAIN10,
        VIDEO_FORMAT_AV1_HIGH8_444,
        VIDEO_FORMAT_AV1_HIGH10_444,
    ];
    assert_eq!(formats.iter().fold(0, |mask, format| mask | format), VIDEO_FORMAT_MASK);
    for format in formats {
        assert_eq!(format.count_ones(), 1);
        assert_eq!(SupportedVideoFormats::from_bits(format), Some(SupportedVideoFormats { bits: format }));
    }
}

#[test]
fn a_little_endian_sender_writes_and_reads_little_endian() {
    let mut sender = sender().with_order(ByteOrder::LittleEndian);
    assert_eq!(sender.order, ByteOrder::LittleEndian);
    assert_eq!(sender.send(&OutboundPacket::Rtt { sequence_number: 0x0a0b }).as_ref(), &[4, 0x0b, 0x0a]);
    let unit = VideoDecodeUnit {
        buffers: vec![vec![9]],
        frame_type: FrameType::PFrame,
        presentation_time_us: 0x0102_0304,
        rtp_timestamp: 0,
        frame_processing_latency: None,
    };
    assert_eq!(sender.send_video_unit(&unit).as_ref(), &[2, 0, 4, 3, 2, 1, 9]);
    assert_eq!(sender.send_audio_sample(&[1, 2]).as_ref(), &[3, 1, 2]);
    assert_eq!(
        send_packet(&OutboundPacket::Rtt { sequence_number: 1 }, ByteOrder::LittleEndian).as_ref(),
        &[4, 1, 0]
    );
    assert_eq!(sender.on_ipc_message(transport(&[4, 0x01, 0x02])).rtt_round, Some(0x0201));
}

#[test]
fn what_is_sent_to_a_peer_is_read_from_a_peer() {
    for order in [ByteOrder::BigEndian, ByteOrder::LittleEndian] {
        let mut sender = sender().with_order(order);
        let probe = sender.send(&OutboundPacket::Rtt { sequence_number: 0xbeef });
        let outcome = sender.on_ipc_message(ServerIpcMessage::WebSocketTransport(probe));
        assert_eq!(outcome.rtt_round, Some(0xbeef));
    }
}
