use streamer::ffmpeg::{EncodedPacket, FfmpegPipelineConfig};
use streamer::stream::{
    DecodeResult, FrameType, SupportedVideoFormats, VideoDecodeUnit, VideoFormat, VideoSetup,
};
use streamer::transport::{OutboundPacket, TransportError};
use streamer::video::{
    complete_decode_unit, deliver_transcoded, forward_transcoded, init_request, map_input_codec,
    Delivery, InitRequest, InputCodec, PipelineChange, ReencodeCodec, ReencodeSettings, RelayMode,
    StreamVideoDecoder, TranscodedOutput, UnitAction, UnitEvent, UnitOutcome, UnitPlan,
};

const SPS: [u8; 6] = [0, 0, 0, 1, 0x67, 0x42];
const PPS: [u8; 6] = [0, 0, 0, 1, 0x68, 0xce];
const IDR: [u8; 7] = [0, 0, 0, 1, 0x65, 0x88, 0x84];
const SLICE: [u8; 7] = [0, 0, 0, 1, 0x41, 0x9a, 0x21];

fn unit(frame_type: FrameType, buffers: &[&[u8]]) -> VideoDecodeUnit {
    VideoDecodeUnit {
        buffers: buffers.iter().map(|buffer| buffer.to_vec()).collect(),
        frame_type,
        presentation_time_us: 1_000,
        rtp_timestamp: 90_000,
        frame_processing_latency: None,
    }
}

fn settings() -> ReencodeSettings {
    ReencodeSettings {
        enabled: true,
        codec: ReencodeCodec::H264,
        bitrate_kbps: 4000,
        preset: None,
        threads: None,
    }
}

fn setup() -> VideoSetup {
    VideoSetup { format: VideoFormat::H264, width: 1920, height: 1080, redraw_rate: 60 }
}

fn decoder() -> StreamVideoDecoder {
    StreamVideoDecoder::new(SupportedVideoFormats::h264())
}

fn keyframe_with_headers() -> VideoDecodeUnit {
    unit(FrameType::Idr, &[&SPS, &PPS, &IDR])
}

fn concat(parts: &[&[u8]]) -> Vec<u8> {
    parts.iter().flat_map(|part| part.iter().copied()).collect()
}

#[test]
fn a_new_relay_is_in_passthrough() {
    let decoder = decoder();
    assert_eq!(decoder.mode(), RelayMode::Passthrough);
    assert!(decoder.needs_headers());
    assert!(!decoder.waiting_for_idr());
    assert!(decoder.pipeline().is_none());
    assert_eq!(decoder.supported_formats(), SupportedVideoFormats::h264());
    assert_eq!(decoder.capabilities().bits, 0);
}

#[test]
fn without_settings_every_unit_is_forwarded() {
    let mut decoder = decoder();
    for frame_type in [FrameType::PFrame, FrameType::Idr, FrameType::PFrame] {
        let unit = unit(frame_type, &[&SLICE, &[1, 2, 3]]);
        let plan = decoder.submit_decode_unit(None, Some(setup()), "veryfast", &unit);
        assert_eq!(plan, UnitPlan { pipeline: PipelineChange::Keep, action: UnitAction::Forward });
        assert_eq!(decoder.mode(), RelayMode::Passthrough);
        let incoming = unit.incoming_bytes();
        assert_eq!(incoming, 10);
        let outcome = complete_decode_unit(
            &plan.action,
            incoming,
            UnitEvent::Forwarded(Ok(DecodeResult::Accepted)),
        );
        assert_eq!(outcome, UnitOutcome { result: DecodeResult::Accepted, outgoing_bytes: 10 });
    }
}

#[test]
fn with_settings_switched_off_every_unit_is_forwarded() {
    let mut decoder = decoder();
    let off = ReencodeSettings { enabled: false, ..settings() };
    let unit = unit(FrameType::PFrame, &[&SLICE]);
    let plan = decoder.submit_decode_unit(Some(&off), Some(setup()), "veryfast", &unit);
    assert_eq!(plan, UnitPlan { pipeline: PipelineChange::Keep, action: UnitAction::Forward });
    assert!(decoder.pipeline().is_none());
}

#[test]
fn fresh_reencode_waits_for_a_keyframe() {
    let mut decoder = decoder();
    let settings = settings();
    let mut results = Vec::new();
    let mut plans = Vec::new();
    let mut units = vec![
        unit(FrameType::PFrame, &[&SLICE]),
        unit(FrameType::PFrame, &[&SLICE]),
        unit(FrameType::PFrame, &[&SLICE]),
    ];
    units.push(keyframe_with_headers());
    for unit in &units {
        let plan = decoder.submit_decode_unit(Some(&settings), Some(setup()), "veryfast", unit);
        let event = match &plan.action {
            UnitAction::Transcode { .. } => UnitEvent::Transcoded { outgoing_bytes: 123 },
            _ => UnitEvent::Nothing,
        };
        results.push(complete_decode_unit(&plan.action, unit.incoming_bytes(), event));
        plans.push(plan);
    }
    assert_eq!(
        results.iter().map(|outcome| outcome.result).collect::<Vec<_>>(),
        vec![
            DecodeResult::NeedIdr,
            DecodeResult::NeedIdr,
            DecodeResult::NeedIdr,
            DecodeResult::Accepted
        ]
    );
    assert_eq!(
        results.iter().map(|outcome| outcome.outgoing_bytes).collect::<Vec<_>>(),
        vec![0, 0, 0, 123]
    );
    assert_eq!(plans[0], UnitPlan { pipeline: PipelineChange::Rebuild, action: UnitAction::RequestIdr });
    assert_eq!(plans[1], UnitPlan { pipeline: PipelineChange::Keep, action: UnitAction::RequestIdr });
    assert_eq!(plans[2], UnitPlan { pipeline: PipelineChange::Keep, action: UnitAction::RequestIdr });
    assert_eq!(
        plans[3],
        UnitPlan {
            pipeline: PipelineChange::Keep,
            action: UnitAction::Transcode {
                frame: concat(&[&SPS, &PPS, &SPS, &PPS, &IDR]),
                init: Some(InitRequest {
                    codec: InputCodec::H264,
                    width: 1920,
                    height: 1080,
                    fps: 60
                }),
            },
        }
    );
    assert_eq!(decoder.mode(), RelayMode::Active);

    let next = unit(FrameType::PFrame, &[&SLICE]);
    let plan = decoder.submit_decode_unit(Some(&settings), Some(setup()), "veryfast", &next);
    match plan.action {
        UnitAction::Transcode { frame, .. } => assert_eq!(frame, SLICE.to_vec()),
        other => panic!("unexpected action {:?}", other),
    }
}

#[test]
fn the_relay_walks_through_its_four_states() {
    let mut decoder = decoder();
    let settings = settings();
    assert_eq!(decoder.mode(), RelayMode::Passthrough);
    decoder.submit_decode_unit(Some(&settings), None, "fast", &unit(FrameType::PFrame, &[&SLICE]));
    assert_eq!(decoder.mode(), RelayMode::WaitingForIdr);
    decoder.submit_decode_unit(Some(&settings), None, "fast", &unit(FrameType::Idr, &[&IDR]));
    assert_eq!(decoder.mode(), RelayMode::InjectingHeaders);
    decoder.submit_decode_unit(Some(&settings), None, "fast", &keyframe_with_headers());
    assert_eq!(decoder.mode(), RelayMode::Active);
    decoder.submit_decode_unit(None, None, "fast", &unit(FrameType::PFrame, &[&SLICE]));
    assert_eq!(decoder.mode(), RelayMode::Passthrough);
}

#[test]
fn a_keyframe_by_type_ends_the_wait() {
    let mut decoder = decoder();
    decoder.cache_parameter_sets(&concat(&[&SPS, &PPS]));
    let unit = unit(FrameType::Idr, &[&SLICE]);
    let plan = decoder.submit_decode_unit(Some(&settings()), None, "fast", &unit);
    assert_eq!(
        plan.action,
        UnitAction::Transcode { frame: concat(&[&SPS, &PPS, &SLICE]), init: None }
    );
}

#[test]
fn a_keyframe_by_content_ends_the_wait() {
    let mut decoder = decoder();
    decoder.cache_parameter_sets(&concat(&[&SPS, &PPS]));
    let unit = unit(FrameType::PFrame, &[&IDR]);
    let plan = decoder.submit_decode_unit(Some(&settings()), None, "fast", &unit);
    assert_eq!(
        plan.action,
        UnitAction::Transcode { frame: concat(&[&SPS, &PPS, &IDR]), init: None }
    );
}

#[test]
fn a_unit_in_several_buffers_is_one_frame() {
    let mut decoder = decoder();
    let unit = unit(FrameType::Idr, &[&[0, 0], &[0, 1, 0x67], &[0x42, 0, 0, 0], &[1, 0x68, 0xce]]);
    assert_eq!(unit.frame(), concat(&[&SPS, &PPS]));
    let plan = decoder.submit_decode_unit(Some(&settings()), None, "fast", &unit);
    assert_eq!(
        plan.action,
        UnitAction::Transcode { frame: concat(&[&SPS, &PPS, &SPS, &PPS]), init: None }
    );
}

#[test]
fn with_only_the_sps_cached_nothing_goes_out() {
    let mut decoder = decoder();
    let unit = unit(FrameType::Idr, &[&SPS, &IDR]);
    let plan = decoder.submit_decode_unit(Some(&settings()), Some(setup()), "fast", &unit);
    assert_eq!(plan, UnitPlan { pipeline: PipelineChange::Rebuild, action: UnitAction::Skip });
    assert!(decoder.needs_headers());
    assert!(!decoder.waiting_for_idr());
    assert_eq!(decoder.cached_sps(), Some(&SPS.to_vec()));
    assert_eq!(decoder.cached_pps(), None);
    for event in [
        UnitEvent::Nothing,
        UnitEvent::Forwarded(Ok(DecodeResult::NeedIdr)),
        UnitEvent::Transcoded { outgoing_bytes: 9 },
    ] {
        assert_eq!(
            complete_decode_unit(&plan.action, unit.incoming_bytes(), event),
            UnitOutcome { result: DecodeResult::Accepted, outgoing_bytes: 0 }
        );
    }
}

#[test]
fn with_only_the_pps_cached_nothing_goes_out() {
    let mut decoder = decoder();
    let unit = unit(FrameType::Idr, &[&PPS, &IDR]);
    let plan = decoder.submit_decode_unit(Some(&settings()), Some(setup()), "fast", &unit);
    assert_eq!(plan.action, UnitAction::Skip);
}

#[test]
fn a_skipped_unit_is_made_up_for_by_the_next_parameter_sets() {
    let mut decoder = decoder();
    let settings = settings();
    let first = unit(FrameType::Idr, &[&SPS, &IDR]);
    assert_eq!(
        decoder.submit_decode_unit(Some(&settings), None, "fast", &first).action,
        UnitAction::Skip
    );
    let second = unit(FrameType::PFrame, &[&PPS, &SLICE]);
    assert_eq!(
        decoder.submit_decode_unit(Some(&settings), None, "fast", &second).action,
        UnitAction::Transcode { frame: concat(&[&SPS, &PPS, &PPS, &SLICE]), init: None }
    );
    assert!(!decoder.needs_headers());
}

#[test]
fn headers_go_out_once_per_start() {
    let mut decoder = decoder();
    let settings = settings();
    decoder.submit_decode_unit(Some(&settings), None, "fast", &keyframe_with_headers());
    for _ in 0..3 {
        let unit = keyframe_with_headers();
        let plan = decoder.submit_decode_unit(Some(&settings), None, "fast", &unit);
        assert_eq!(
            plan,
            UnitPlan {
                pipeline: PipelineChange::Keep,
                action: UnitAction::Transcode { frame: unit.frame(), init: None },
            }
        );
    }
}

#[test]
fn inject_headers_puts_sps_then_pps_in_front() {
    let mut decoder = decoder();
    assert_eq!(decoder.inject_headers_if_needed(&SLICE), None);
    assert!(decoder.needs_headers());
    decoder.cache_parameter_sets(&concat(&[&PPS, &SPS]));
    assert_eq!(decoder.inject_headers_if_needed(&SLICE), Some(concat(&[&SPS, &PPS, &SLICE])));
    assert!(!decoder.needs_headers());
    assert_eq!(decoder.inject_headers_if_needed(&SLICE), Some(SLICE.to_vec()));
}

fn started(settings: &ReencodeSettings, setup: Option<VideoSetup>, preset: &str) -> StreamVideoDecoder {
    let mut decoder = decoder();
    decoder.submit_decode_unit(Some(settings), setup, preset, &keyframe_with_headers());
    assert_eq!(decoder.mode(), RelayMode::Active);
    decoder
}

fn rebuilds(changed: &ReencodeSettings, setup: Option<VideoSetup>, preset: &str) -> bool {
    let mut decoder = started(&settings(), Some(self::setup()), "fast");
    let unit = unit(FrameType::PFrame, &[&SLICE]);
    let plan = decoder.submit_decode_unit(Some(changed), setup, preset, &unit);
    match plan.pipeline {
        PipelineChange::Rebuild => {
            assert_eq!(plan.action, UnitAction::RequestIdr);
            assert_eq!(decoder.mode(), RelayMode::WaitingForIdr);
            true
        }
        PipelineChange::Keep => {
            assert!(matches!(plan.action, UnitAction::Transcode { ref frame, .. } if *frame == SLICE.to_vec()));
            false
        }
        PipelineChange::Discard => panic!("the pipeline is not to be discarded"),
    }
}

#[test]
fn the_same_settings_keep_the_pipeline() {
    assert!(!rebuilds(&settings(), Some(setup()), "fast"));
}

#[test]
fn a_preset_equal_to_the_default_keeps_the_pipeline() {
    let named = ReencodeSettings { preset: Some("fast".to_string()), ..settings() };
    assert!(!rebuilds(&named, Some(setup()), "slow"));
}

#[test]
fn a_change_of_any_field_rebuilds_the_pipeline() {
    assert!(rebuilds(&ReencodeSettings { bitrate_kbps: 4001, ..settings() }, Some(setup()), "fast"));
    assert!(rebuilds(&ReencodeSettings { codec: ReencodeCodec::VP8, ..settings() }, Some(setup()), "fast"));
    assert!(rebuilds(&ReencodeSettings { threads: Some(2), ..settings() }, Some(setup()), "fast"));
    assert!(rebuilds(
        &ReencodeSettings { preset: Some("slow".to_string()), ..settings() },
        Some(setup()),
        "fast"
    ));
    assert!(rebuilds(&settings(), Some(setup()), "medium"));
    assert!(rebuilds(&settings(), Some(VideoSetup { redraw_rate: 30, ..setup() }), "fast"));
}

#[test]
fn a_stream_that_is_not_negotiated_counts_as_sixty_frames_per_second() {
    assert!(!rebuilds(&settings(), None, "fast"));
    assert!(rebuilds(&settings(), Some(VideoSetup { redraw_rate: 59, ..setup() }), "fast"));
}

#[test]
fn picture_size_and_format_do_not_rebuild_the_pipeline() {
    let other = VideoSetup { format: VideoFormat::H265, width: 640, height: 480, redraw_rate: 60 };
    assert!(!rebuilds(&settings(), Some(other), "fast"));
}

#[test]
fn after_a_rebuild_the_headers_go_out_again() {
    let mut decoder = started(&settings(), None, "fast");
    let changed = ReencodeSettings { bitrate_kbps: 8000, ..settings() };
    let plan = decoder.submit_decode_unit(Some(&changed), None, "fast", &unit(FrameType::Idr, &[&IDR]));
    assert_eq!(
        plan,
        UnitPlan {
            pipeline: PipelineChange::Rebuild,
            action: UnitAction::Transcode { frame: concat(&[&SPS, &PPS, &IDR]), init: None },
        }
    );
}

#[test]
fn switching_off_discards_the_pipeline() {
    let mut decoder = started(&settings(), None, "fast");
    let off = ReencodeSettings { enabled: false, ..settings() };
    let unit = unit(FrameType::PFrame, &[&SLICE]);
    let plan = decoder.submit_decode_unit(Some(&off), None, "fast", &unit);
    assert_eq!(plan, UnitPlan { pipeline: PipelineChange::Discard, action: UnitAction::Forward });
    assert!(decoder.pipeline().is_none());
    assert!(decoder.needs_headers());
    assert!(!decoder.waiting_for_idr());
    assert_eq!(decoder.cached_sps(), Some(&SPS.to_vec()));
    let plan = decoder.submit_decode_unit(None, None, "fast", &unit);
    assert_eq!(plan, UnitPlan { pipeline: PipelineChange::Keep, action: UnitAction::Forward });
}

#[test]
fn the_pipeline_is_configured_from_the_settings() {
    let decoder = started(&settings(), Some(VideoSetup { redraw_rate: 120, ..setup() }), "veryfast");
    assert_eq!(
        decoder.pipeline().unwrap().config,
        FfmpegPipelineConfig {
            encoder: "libx264".to_string(),
            preset: "veryfast".to_string(),
            bitrate_kbps: 4000,
            fps: 120,
            threads: None,
        }
    );
    assert!(!decoder.pipeline().unwrap().initialized);

    let vp8 = ReencodeSettings {
        enabled: true,
        codec: ReencodeCodec::VP8,
        bitrate_kbps: 1500,
        preset: Some("realtime".to_string()),
        threads: Some(4),
    };
    assert_eq!(
        vp8.pipeline_config(None, "veryfast"),
        FfmpegPipelineConfig {
            encoder: "libvpx".to_string(),
            preset: "realtime".to_string(),
            bitrate_kbps: 1500,
            fps: 60,
            threads: Some(4),
        }
    );
}

#[test]
fn the_codec_contexts_are_opened_once_the_stream_is_known() {
    let mut decoder = started(&settings(), None, "fast");
    let unit = unit(FrameType::PFrame, &[&SLICE]);
    let plan = decoder.submit_decode_unit(Some(&settings()), None, "fast", &unit);
    assert_eq!(plan.action, UnitAction::Transcode { frame: SLICE.to_vec(), init: None });

    let mut decoder = started(&settings(), Some(setup()), "fast");
    let request = Some(InitRequest { codec: InputCodec::H264, width: 1920, height: 1080, fps: 60 });
    let plan = decoder.submit_decode_unit(Some(&settings()), Some(setup()), "fast", &unit);
    assert_eq!(plan.action, UnitAction::Transcode { frame: SLICE.to_vec(), init: request });
    decoder.pipeline_initialized();
    assert!(decoder.pipeline().unwrap().initialized);
    let plan = decoder.submit_decode_unit(Some(&settings()), Some(setup()), "fast", &unit);
    assert_eq!(plan.action, UnitAction::Transcode { frame: SLICE.to_vec(), init: None });
}

#[test]
fn an_unsupported_format_opens_nothing() {
    let decoder = started(&settings(), None, "fast");
    let pipeline = decoder.pipeline().unwrap();
    let av1 = VideoSetup { format: VideoFormat::Av1Main8, ..setup() };
    assert_eq!(init_request(pipeline, Some(av1)), None);
    assert_eq!(init_request(pipeline, None), None);
    let hevc = VideoSetup { format: VideoFormat::H265Main10, width: 1280, height: 720, redraw_rate: 0 };
    assert_eq!(
        init_request(pipeline, Some(hevc)),
        Some(InitRequest { codec: InputCodec::Hevc, width: 1280, height: 720, fps: 60 })
    );
}

#[test]
fn a_frame_rate_of_zero_opens_the_codecs_with_one() {
    let decoder = started(&settings(), Some(VideoSetup { redraw_rate: 0, ..setup() }), "fast");
    assert_eq!(decoder.pipeline().unwrap().config.fps, 0);
    assert_eq!(
        init_request(decoder.pipeline().unwrap(), Some(setup())),
        Some(InitRequest { codec: InputCodec::H264, width: 1920, height: 1080, fps: 1 })
    );
}

#[test]
fn pipeline_initialized_without_pipeline_changes_nothing() {
    let mut decoder = decoder();
    decoder.pipeline_initialized();
    assert!(decoder.pipeline().is_none());
    assert_eq!(decoder.mode(), RelayMode::Passthrough);
}

#[test]
fn input_codecs_of_the_formats() {
    assert_eq!(map_input_codec(VideoFormat::H264), Some(InputCodec::H264));
    assert_eq!(map_input_codec(VideoFormat::H264High8_444), Some(InputCodec::H264));
    assert_eq!(map_input_codec(VideoFormat::H265), Some(InputCodec::Hevc));
    assert_eq!(map_input_codec(VideoFormat::H265Main10), Some(InputCodec::Hevc));
    assert_eq!(map_input_codec(VideoFormat::H265Rext8_444), None);
    assert_eq!(map_input_codec(VideoFormat::H265Rext10_444), None);
    assert_eq!(map_input_codec(VideoFormat::Av1Main8), None);
    assert_eq!(map_input_codec(VideoFormat::Av1Main10), None);
    assert_eq!(map_input_codec(VideoFormat::Av1High8_444), None);
    assert_eq!(map_input_codec(VideoFormat::Av1High10_444), None);
}

#[test]
fn incoming_bytes_are_the_sum_of_the_buffers() {
    assert_eq!(unit(FrameType::PFrame, &[]).incoming_bytes(), 0);
    assert_eq!(unit(FrameType::PFrame, &[&[], &[1], &[2, 3]]).incoming_bytes(), 3);
    assert_eq!(unit(FrameType::PFrame, &[]).frame(), Vec::<u8>::new());
    assert_eq!(unit(FrameType::PFrame, &[&[], &[1], &[2, 3]]).frame(), vec![1, 2, 3]);
}

#[test]
fn transcoded_packets_carry_the_rtp_timestamp() {
    let packets = vec![
        EncodedPacket { data: vec![1, 2, 3], keyframe: false },
        EncodedPacket { data: vec![], keyframe: false },
        EncodedPacket { data: vec![4], keyframe: true },
    ];
    let output = forward_transcoded(&unit(FrameType::PFrame, &[&SLICE]), &packets);
    assert_eq!(
        output.packets,
        vec![
            OutboundPacket::VideoUnit { payload: vec![1, 2, 3], timestamp: 90_000, is_keyframe: false },
            OutboundPacket::VideoUnit { payload: vec![], timestamp: 90_000, is_keyframe: false },
            OutboundPacket::VideoUnit { payload: vec![4], timestamp: 90_000, is_keyframe: true },
        ]
    );
    assert_eq!(output.outgoing_bytes, 4);

    let output = forward_transcoded(&unit(FrameType::Idr, &[&IDR]), &packets);
    assert!(output
        .packets
        .iter()
        .all(|packet| matches!(packet, OutboundPacket::VideoUnit { is_keyframe: true, .. })));

    let output = forward_transcoded(&unit(FrameType::Idr, &[&IDR]), &Vec::new());
    assert!(output.packets.is_empty());
    assert_eq!(output.outgoing_bytes, 0);
}

#[test]
fn a_forwarded_unit_passes_on_the_transport_answer() {
    let forward = UnitAction::Forward;
    assert_eq!(
        complete_decode_unit(&forward, 40, UnitEvent::Forwarded(Ok(DecodeResult::NeedIdr))),
        UnitOutcome { result: DecodeResult::NeedIdr, outgoing_bytes: 40 }
    );
    assert_eq!(
        complete_decode_unit(&forward, 40, UnitEvent::Forwarded(Ok(DecodeResult::Accepted))),
        UnitOutcome { result: DecodeResult::Accepted, outgoing_bytes: 40 }
    );
    assert_eq!(
        complete_decode_unit(&forward, 40, UnitEvent::Forwarded(Err(TransportError::Closed))),
        UnitOutcome { result: DecodeResult::Accepted, outgoing_bytes: 40 }
    );
}

#[test]
fn a_unit_that_waits_for_a_keyframe_asks_for_one() {
    assert_eq!(
        complete_decode_unit(&UnitAction::RequestIdr, 40, UnitEvent::Nothing),
        UnitOutcome { result: DecodeResult::NeedIdr, outgoing_bytes: 0 }
    );
}

#[test]
fn a_failed_transcode_falls_back_to_forwarding() {
    let transcode = UnitAction::Transcode { frame: vec![1], init: None };
    assert_eq!(
        complete_decode_unit(&transcode, 40, UnitEvent::Transcoded { outgoing_bytes: 7 }),
        UnitOutcome { result: DecodeResult::Accepted, outgoing_bytes: 7 }
    );
    assert_eq!(
        complete_decode_unit(&transcode, 40, UnitEvent::Forwarded(Ok(DecodeResult::NeedIdr))),
        UnitOutcome { result: DecodeResult::Accepted, outgoing_bytes: 40 }
    );
    assert_eq!(
        complete_decode_unit(&transcode, 40, UnitEvent::Forwarded(Err(TransportError::Closed))),
        UnitOutcome { result: DecodeResult::Accepted, outgoing_bytes: 0 }
    );
    assert_eq!(
        complete_decode_unit(&transcode, 40, UnitEvent::Nothing),
        UnitOutcome { result: DecodeResult::Accepted, outgoing_bytes: 0 }
    );
}

#[test]
fn settings_are_cloned_field_by_field() {
    let named = ReencodeSettings { preset: Some("slow".to_string()), threads: Some(3), ..settings() };
    assert_eq!(named.clone(), named);
    assert_eq!(settings().clone(), settings());
}

#[test]
fn what_the_pipeline_gave_goes_out_as_packets() {
    let packets = vec![
        EncodedPacket { data: vec![1, 2, 3], keyframe: true },
        EncodedPacket { data: vec![4, 5], keyframe: false },
    ];
    let unit = unit(FrameType::PFrame, &[&SLICE]);
    assert_eq!(
        deliver_transcoded(&unit, Some(&packets)),
        Delivery::Packets(TranscodedOutput {
            packets: vec![
                OutboundPacket::VideoUnit { payload: vec![1, 2, 3], timestamp: 90_000, is_keyframe: true },
                OutboundPacket::VideoUnit { payload: vec![4, 5], timestamp: 90_000, is_keyframe: false },
            ],
            outgoing_bytes: 5,
        })
    );
    assert_eq!(deliver_transcoded(&unit, Some(&packets)), Delivery::Packets(forward_transcoded(&unit, &packets)));
}

#[test]
fn a_pipeline_that_gave_no_packet_sends_nothing() {
    let unit = unit(FrameType::Idr, &[&IDR]);
    assert_eq!(
        deliver_transcoded(&unit, Some(&Vec::new())),
        Delivery::Packets(TranscodedOutput { packets: vec![], outgoing_bytes: 0 })
    );
}

#[test]
fn without_an_answer_of_the_pipeline_the_unit_is_forwarded() {
    assert_eq!(deliver_transcoded(&unit(FrameType::PFrame, &[&SLICE]), None), Delivery::ForwardUnit);
    assert_eq!(deliver_transcoded(&unit(FrameType::Idr, &[]), None), Delivery::ForwardUnit);
}
