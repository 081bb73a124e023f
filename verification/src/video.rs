//! The video relay: for each decode unit it decides whether the unit is
//! forwarded as it came, dropped until a keyframe arrives, or handed to the
//! transcode pipeline, with the parameter sets in front where they are due.

use vstd::prelude::*;
use crate::annexb::{
    annexb_nals, cached_after, frame_holds_idr, nal_has_type, slice_views, split_annexb_nals,
    start_code, NAL_IDR, NAL_PPS, NAL_SPS,
};
use crate::ffmpeg::{
    EncodedPacket, EncodedView, FfmpegPipeline, FfmpegPipelineConfig, PipelineConfigView,
    PipelineView,
};
use crate::stream::{
    saturated, Capabilities, DecodeResult, FrameType, SupportedVideoFormats, UnitView,
    VideoDecodeUnit, VideoFormat, VideoSetup,
};
use crate::transport::{OutboundPacket, OutboundView, TransportError};

verus! {

/// The codec that the relay encodes to.
#[derive(Clone, Copy, Debug, PartialEq, Eq, Structural)]
pub enum ReencodeCodec {
    H264,
    VP8,
}

/// The codec that the pipeline's decoder is opened for.
#[derive(Clone, Copy, Debug, PartialEq, Eq, Structural)]
pub enum InputCodec {
    H264,
    Hevc,
}

/// The re-encode settings, which may change at any time.
#[derive(Debug, PartialEq, Eq)]
pub struct ReencodeSettings {
    pub enabled: bool,
    pub codec: ReencodeCodec,
    pub bitrate_kbps: u32,
    pub preset: Option<String>,
    pub threads: Option<u16>,
}

/// Re-encode settings as plain values.
pub struct ReencodeView {
    pub enabled: bool,
    pub codec: ReencodeCodec,
    pub bitrate_kbps: u32,
    pub preset: Option<Seq<char>>,
    pub threads: Option<u16>,
}

impl View for ReencodeSettings {
    type V = ReencodeView;

    open spec fn view(&self) -> ReencodeView {
        ReencodeView {
            enabled: self.enabled,
            codec: self.codec,
            bitrate_kbps: self.bitrate_kbps,
            preset: match self.preset {
                Some(preset) => Some(preset@),
                None => None,
            },
            threads: self.threads,
        }
    }
}

/// The decoder for a negotiated format, where the pipeline has one.
pub open spec fn input_codec_of(format: VideoFormat) -> Option<InputCodec> {
    match format {
        VideoFormat::H264 | VideoFormat::H264High8_444 => Some(InputCodec::H264),
        VideoFormat::H265 | VideoFormat::H265Main10 => Some(InputCodec::Hevc),
        _ => None,
    }
}

/// The decoder for a negotiated format, where the pipeline has one.
pub fn map_input_codec(format: VideoFormat) -> (codec: Option<InputCodec>)
    ensures
        codec == input_codec_of(format),
{
    match format {
        VideoFormat::H264 | VideoFormat::H264High8_444 => Some(InputCodec::H264),
        VideoFormat::H265 | VideoFormat::H265Main10 => Some(InputCodec::Hevc),
        _ => None,
    }
}

/// The relay's state for one connection.
pub struct StreamVideoDecoder {
    supported_formats: SupportedVideoFormats,
    ffmpeg: Option<FfmpegPipeline>,
    cached_sps: Option<Vec<u8>>,
    cached_pps: Option<Vec<u8>>,
    needs_headers: bool,
    waiting_for_idr: bool,
}

/// The relay's state as plain values.
pub struct RelayView {
    pub supported_formats: SupportedVideoFormats,
    /// The pipeline, while re-encoding is on.
    pub pipeline: Option<PipelineView>,
    /// The last sequence parameter set seen, behind a four-byte start code.
    pub cached_sps: Option<Seq<u8>>,
    /// The last picture parameter set seen, behind a four-byte start code.
    pub cached_pps: Option<Seq<u8>>,
    /// No unit has had the parameter sets put in front of it since the
    /// pipeline was built.
    pub needs_headers: bool,
    /// No keyframe has come in since the pipeline was built.
    pub waiting_for_idr: bool,
}

/// The four states of the relay.
#[derive(Clone, Copy, Debug, PartialEq, Eq, Structural)]
pub enum RelayMode {
    /// Re-encoding is off: units are forwarded as they come.
    Passthrough,
    /// The pipeline is new and no keyframe has come in yet.
    WaitingForIdr,
    /// A keyframe has come in, the parameter sets have not gone out yet.
    InjectingHeaders,
    /// Units go to the pipeline as they come.
    Active,
}

impl RelayView {
    /// The combinations of flags that the relay can be in: without a pipeline
    /// it is ready to start over, and it never waits for a keyframe after
    /// the parameter sets have gone out.
    pub open spec fn wf(self) -> bool {
        &&& self.pipeline is None ==> self.needs_headers && !self.waiting_for_idr
        &&& self.waiting_for_idr ==> self.needs_headers
    }

    /// Which of its four states the relay is in.
    pub open spec fn mode(self) -> RelayMode {
        if self.pipeline is None {
            RelayMode::Passthrough
        } else if self.waiting_for_idr {
            RelayMode::WaitingForIdr
        } else if self.needs_headers {
            RelayMode::InjectingHeaders
        } else {
            RelayMode::Active
        }
    }

    /// Both parameter sets are cached.
    pub open spec fn headers_cached(self) -> bool {
        self.cached_sps is Some && self.cached_pps is Some
    }

    /// The state once the parameter sets of a frame have been cached.
    pub open spec fn scanned(self, frame: Seq<u8>) -> RelayView {
        RelayView {
            cached_sps: cached_after(self.cached_sps, annexb_nals(frame), NAL_SPS as int),
            cached_pps: cached_after(self.cached_pps, annexb_nals(frame), NAL_PPS as int),
            ..self
        }
    }
}

/// What a cache slot holds.
pub open spec fn cache_view(slot: Option<Vec<u8>>) -> Option<Seq<u8>> {
    match slot {
        Some(bytes) => Some(bytes@),
        None => None,
    }
}

/// What an optional pipeline holds.
pub open spec fn pipeline_view(slot: Option<FfmpegPipeline>) -> Option<PipelineView> {
    match slot {
        Some(pipeline) => Some(pipeline@),
        None => None,
    }
}

impl View for StreamVideoDecoder {
    type V = RelayView;

    closed spec fn view(&self) -> RelayView {
        RelayView {
            supported_formats: self.supported_formats,
            pipeline: pipeline_view(self.ffmpeg),
            cached_sps: cache_view(self.cached_sps),
            cached_pps: cache_view(self.cached_pps),
            needs_headers: self.needs_headers,
            waiting_for_idr: self.waiting_for_idr,
        }
    }
}

/// What is to become of the pipeline behind the relay before the unit is
/// handled.
#[derive(Clone, Copy, Debug, PartialEq, Eq, Structural)]
pub enum PipelineChange {
    /// It stays as it is.
    Keep,
    /// It is torn down: re-encoding is off.
    Discard,
    /// It is torn down and built anew from the relay's configuration.
    Rebuild,
}

/// What the pipeline's codec contexts are to be opened with.
#[derive(Clone, Copy, Debug, PartialEq, Eq, Structural)]
pub struct InitRequest {
    pub codec: InputCodec,
    pub width: u32,
    pub height: u32,
    pub fps: u32,
}

/// What is to be done with a unit.
#[derive(Debug, PartialEq, Eq)]
pub enum UnitAction {
    /// Forward the unit as it came.
    Forward,
    /// Drop the unit and ask for a keyframe.
    RequestIdr,
    /// Drop the unit: a parameter set is missing. The next unit is tried
    /// again.
    Skip,
    /// Hand `frame` to the pipeline, after opening its codec contexts where
    /// `init` says so.
    Transcode { frame: Vec<u8>, init: Option<InitRequest> },
}

/// A `UnitAction` as plain values.
pub enum ActionView {
    Forward,
    RequestIdr,
    Skip,
    Transcode { frame: Seq<u8>, init: Option<InitRequest> },
}

impl View for UnitAction {
    type V = ActionView;

    open spec fn view(&self) -> ActionView {
        match self {
            UnitAction::Forward => ActionView::Forward,
            UnitAction::RequestIdr => ActionView::RequestIdr,
            UnitAction::Skip => ActionView::Skip,
            UnitAction::Transcode { frame, init } => ActionView::Transcode {
                frame: frame@,
                init: *init,
            },
        }
    }
}

/// The relay's decision on one unit.
#[derive(Debug, PartialEq, Eq)]
pub struct UnitPlan {
    pub pipeline: PipelineChange,
    pub action: UnitAction,
}

/// A `UnitPlan` as plain values.
pub struct PlanView {
    pub pipeline: PipelineChange,
    pub action: ActionView,
}

impl View for UnitPlan {
    type V = PlanView;

    open spec fn view(&self) -> PlanView {
        PlanView { pipeline: self.pipeline, action: self.action@ }
    }
}

/// The settings that a unit is handled under, as plain values.
pub open spec fn settings_view(reencode: Option<&ReencodeSettings>) -> Option<ReencodeView> {
    match reencode {
        Some(settings) => Some(settings@),
        None => None,
    }
}

/// Re-encoding is on.
pub open spec fn reencode_enabled(reencode: Option<ReencodeView>) -> bool {
    reencode matches Some(settings) && settings.enabled
}

/// The name of the encoder for a codec.
pub open spec fn encoder_name(codec: ReencodeCodec) -> Seq<char> {
    match codec {
        ReencodeCodec::H264 => "libx264"@,
        ReencodeCodec::VP8 => "libvpx"@,
    }
}

/// The frame rate that the pipeline is built for: the negotiated one, and 60
/// while nothing is negotiated.
pub open spec fn frame_rate_of(setup: Option<VideoSetup>) -> u32 {
    match setup {
        Some(video) => video.redraw_rate,
        None => 60,
    }
}

/// The pipeline configuration that follows from the settings.
pub open spec fn derived_config(
    settings: ReencodeView,
    setup: Option<VideoSetup>,
    default_preset: Seq<char>,
) -> PipelineConfigView {
    PipelineConfigView {
        encoder: encoder_name(settings.codec),
        preset: match settings.preset {
            Some(preset) => preset,
            None => default_preset,
        },
        bitrate_kbps: settings.bitrate_kbps,
        fps: frame_rate_of(setup),
        threads: settings.threads,
    }
}

/// The pipeline has to be built: there is none, or it was built with another
/// configuration.
pub open spec fn needs_rebuild(pipeline: Option<PipelineView>, config: PipelineConfigView) -> bool {
    match pipeline {
        Some(current) => current.config != config,
        None => true,
    }
}

/// What the codec contexts of a pipeline are opened with, once the stream is
/// negotiated in a format that the pipeline can decode. A pipeline whose
/// codec library has been started is not opened again.
pub open spec fn init_request_of(pipeline: PipelineView, setup: Option<VideoSetup>) -> Option<
    InitRequest,
> {
    if pipeline.initialized {
        None
    } else {
        match setup {
            Some(video) => match input_codec_of(video.format) {
                Some(codec) => Some(
                    InitRequest {
                        codec,
                        width: video.width,
                        height: video.height,
                        fps: if pipeline.config.fps < 1 {
                            1
                        } else {
                            pipeline.config.fps
                        },
                    },
                ),
                None => None,
            },
            None => None,
        }
    }
}

/// The unit carries a keyframe: its frame holds an IDR picture, or the engine
/// says so.
pub open spec fn is_keyframe(unit: UnitView) -> bool {
    frame_holds_idr(unit.frame()) || unit.frame_type == FrameType::Idr
}

/// The relay's transition: its state after a unit, and what is to be done
/// with the unit.
pub open spec fn relay_step(
    state: RelayView,
    reencode: Option<ReencodeView>,
    setup: Option<VideoSetup>,
    default_preset: Seq<char>,
    unit: UnitView,
) -> (RelayView, PlanView) {
    if !reencode_enabled(reencode) {
        (
            RelayView { pipeline: None, needs_headers: true, waiting_for_idr: false, ..state },
            PlanView {
                pipeline: if state.pipeline is Some {
                    PipelineChange::Discard
                } else {
                    PipelineChange::Keep
                },
                action: ActionView::Forward,
            },
        )
    } else {
        let config = derived_config(reencode->0, setup, default_preset);
        let rebuild = needs_rebuild(state.pipeline, config);
        let pipeline = if rebuild {
            PipelineView { config, initialized: false }
        } else {
            state.pipeline->0
        };
        let change = if rebuild {
            PipelineChange::Rebuild
        } else {
            PipelineChange::Keep
        };
        let seen = RelayView {
            pipeline: Some(pipeline),
            needs_headers: rebuild || state.needs_headers,
            waiting_for_idr: rebuild || state.waiting_for_idr,
            ..state.scanned(unit.frame())
        };
        if seen.waiting_for_idr && !is_keyframe(unit) {
            (seen, PlanView { pipeline: change, action: ActionView::RequestIdr })
        } else if seen.needs_headers && !seen.headers_cached() {
            (
                RelayView { waiting_for_idr: false, ..seen },
                PlanView { pipeline: change, action: ActionView::Skip },
            )
        } else {
            (
                RelayView { waiting_for_idr: false, needs_headers: false, ..seen },
                PlanView {
                    pipeline: change,
                    action: ActionView::Transcode {
                        frame: if seen.needs_headers {
                            seen.cached_sps->0 + seen.cached_pps->0 + unit.frame()
                        } else {
                            unit.frame()
                        },
                        init: init_request_of(pipeline, setup),
                    },
                },
            )
        }
    }
}

impl Clone for ReencodeSettings {
    fn clone(&self) -> (copy: Self)
        ensures
            copy@ == self@,
    {
        ReencodeSettings {
            enabled: self.enabled,
            codec: self.codec,
            bitrate_kbps: self.bitrate_kbps,
            preset: match &self.preset {
                Some(preset) => Some(preset.clone()),
                None => None,
            },
            threads: self.threads,
        }
    }
}

impl ReencodeSettings {
    /// The configuration of the pipeline that these settings ask for: the
    /// encoder of the chosen codec, the settings' preset or else the
    /// session's, and the negotiated frame rate.
    pub fn pipeline_config(&self, setup: Option<VideoSetup>, default_preset: &str) -> (config:
        FfmpegPipelineConfig)
        ensures
            config@ == derived_config(self@, setup, default_preset@),
    {
        let encoder = match self.codec {
            ReencodeCodec::H264 => "libx264",
            ReencodeCodec::VP8 => "libvpx",
        };
        let fps: u32 = match setup {
            Some(video) => video.redraw_rate,
            None => 60,
        };
        let preset = match &self.preset {
            Some(preset) => preset.clone(),
            None => default_preset.to_owned(),
        };
        FfmpegPipelineConfig {
            encoder: encoder.to_owned(),
            preset,
            bitrate_kbps: self.bitrate_kbps,
            fps,
            threads: self.threads,
        }
    }
}

/// What the codec contexts of the pipeline are to be opened with, if they
/// are to be opened now.
pub fn init_request(pipeline: &FfmpegPipeline, setup: Option<VideoSetup>) -> (request: Option<
    InitRequest,
>)
    ensures
        request == init_request_of(pipeline@, setup),
{
    if pipeline.initialized {
        return None;
    }
    match setup {
        Some(video) => match map_input_codec(video.format) {
            Some(codec) => Some(
                InitRequest {
                    codec,
                    width: video.width,
                    height: video.height,
                    fps: if pipeline.config.fps < 1 {
                        1
                    } else {
                        pipeline.config.fps
                    },
                },
            ),
            None => None,
        },
        None => None,
    }
}

impl StreamVideoDecoder {
    /// A relay in passthrough, with nothing cached.
    pub fn new(supported_formats: SupportedVideoFormats) -> (decoder: Self)
        ensures
            decoder@ == (RelayView {
                supported_formats,
                pipeline: None,
                cached_sps: None,
                cached_pps: None,
                needs_headers: true,
                waiting_for_idr: false,
            }),
            decoder@.wf(),
    {
        StreamVideoDecoder {
            supported_formats,
            ffmpeg: None,
            cached_sps: None,
            cached_pps: None,
            needs_headers: true,
            waiting_for_idr: false,
        }
    }

    /// The formats that the transport behind the relay takes.
    pub fn supported_formats(&self) -> (formats: SupportedVideoFormats)
        ensures
            formats == self@.supported_formats,
    {
        self.supported_formats
    }

    /// The relay claims no capability.
    pub fn capabilities(&self) -> (capabilities: Capabilities)
        ensures
            capabilities.bits == 0,
    {
        Capabilities::empty()
    }

    /// Whether the parameter sets are still due.
    pub fn needs_headers(&self) -> (needed: bool)
        ensures
            needed == self@.needs_headers,
    {
        self.needs_headers
    }

    /// Whether the relay waits for a keyframe.
    pub fn waiting_for_idr(&self) -> (waiting: bool)
        ensures
            waiting == self@.waiting_for_idr,
    {
        self.waiting_for_idr
    }

    /// The cached sequence parameter set, behind its start code.
    pub fn cached_sps(&self) -> (cached: Option<&Vec<u8>>)
        ensures
            match cached {
                Some(bytes) => self@.cached_sps == Some(bytes@),
                None => self@.cached_sps is None,
            },
    {
        self.cached_sps.as_ref()
    }

    /// The cached picture parameter set, behind its start code.
    pub fn cached_pps(&self) -> (cached: Option<&Vec<u8>>)
        ensures
            match cached {
                Some(bytes) => self@.cached_pps == Some(bytes@),
                None => self@.cached_pps is None,
            },
    {
        self.cached_pps.as_ref()
    }

    /// The pipeline, while re-encoding is on.
    pub fn pipeline(&self) -> (pipeline: Option<&FfmpegPipeline>)
        ensures
            match pipeline {
                Some(current) => self@.pipeline == Some(current@),
                None => self@.pipeline is None,
            },
    {
        self.ffmpeg.as_ref()
    }

    /// Which of its four states the relay is in.
    pub fn mode(&self) -> (mode: RelayMode)
        ensures
            mode == self@.mode(),
    {
        if self.ffmpeg.is_none() {
            RelayMode::Passthrough
        } else if self.waiting_for_idr {
            RelayMode::WaitingForIdr
        } else if self.needs_headers {
            RelayMode::InjectingHeaders
        } else {
            RelayMode::Active
        }
    }

    /// Caches the parameter sets of a frame: the last sequence parameter set
    /// and the last picture parameter set in it, each behind a four-byte
    /// start code. What the frame does not hold stays as it was.
    pub fn cache_parameter_sets(&mut self, annexb: &[u8])
        ensures
            final(self)@ == old(self)@.scanned(annexb@),
    {
        let nals = split_annexb_nals(annexb);
        let ghost all = annexb_nals(annexb@);
        let mut k: usize = 0;
        assert(all.take(0) =~= Seq::<Seq<u8>>::empty());
        while k < nals.len()
            invariant
                k <= nals.len(),
                slice_views(nals@) == all,
                self@ == (RelayView {
                    cached_sps: cached_after(old(self)@.cached_sps, all.take(k as int), NAL_SPS as int),
                    cached_pps: cached_after(old(self)@.cached_pps, all.take(k as int), NAL_PPS as int),
                    ..old(self)@
                }),
            decreases nals.len() - k,
        {
            let nal: &[u8] = nals[k];
            proof {
                assert(nal@ == all[k as int]);
                assert(all.take(k + 1).drop_last() =~= all.take(k as int));
                assert(all.take(k + 1).last() == nal@);
            }
            if nal.len() > 0 {
                let header: u8 = nal[0];
                assert(header & 0x1f == header % 32) by (bit_vector);
                let nal_type: u8 = header & 0x1f;
                if nal_type == NAL_SPS || nal_type == NAL_PPS {
                    let mut with_start: Vec<u8> = Vec::new();
                    with_start.push(0);
                    with_start.push(0);
                    with_start.push(0);
                    with_start.push(1);
                    with_start.extend_from_slice(nal);
                    assert(with_start@ =~= start_code() + nal@);
                    if nal_type == NAL_SPS {
                        self.cached_sps = Some(with_start);
                    } else {
                        self.cached_pps = Some(with_start);
                    }
                }
            }
            k += 1;
        }
        assert(all.take(k as int) =~= all);
    }

    /// Whether the frame holds an IDR picture.
    pub fn frame_has_idr(&self, annexb: &[u8]) -> (found: bool)
        ensures
            found == frame_holds_idr(annexb@),
    {
        let nals = split_annexb_nals(annexb);
        let ghost all = annexb_nals(annexb@);
        let mut k: usize = 0;
        while k < nals.len()
            invariant
                k <= nals.len(),
                slice_views(nals@) == all,
                all == annexb_nals(annexb@),
                forall|j: int| 0 <= j < k ==> !nal_has_type(#[trigger] all[j], NAL_IDR as int),
            decreases nals.len() - k,
        {
            let nal: &[u8] = nals[k];
            assert(nal@ == all[k as int]);
            if nal.len() > 0 {
                let header: u8 = nal[0];
                assert(header & 0x1f == header % 32) by (bit_vector);
                if header & 0x1f == NAL_IDR {
                    assert(nal_has_type(all[k as int], NAL_IDR as int));
                    return true;
                }
            }
            k += 1;
        }
        false
    }

    /// Puts the cached parameter sets in front of a frame where they are
    /// still due, and notes that they have gone out. Where one of them is
    /// not cached yet, there is no frame to hand on.
    pub fn inject_headers_if_needed(&mut self, frame: &[u8]) -> (merged: Option<Vec<u8>>)
        ensures
            !old(self)@.needs_headers ==> final(self)@ == old(self)@ && cache_view(merged) == Some(
                frame@,
            ),
            old(self)@.needs_headers && !old(self)@.headers_cached() ==> final(self)@ == old(self)@
                && merged is None,
            old(self)@.needs_headers && old(self)@.headers_cached() ==> final(self)@ == (RelayView {
                needs_headers: false,
                ..old(self)@
            }) && cache_view(merged) == Some(
                old(self)@.cached_sps->0 + old(self)@.cached_pps->0 + frame@,
            ),
    {
        if !self.needs_headers {
            let mut copy: Vec<u8> = Vec::new();
            copy.extend_from_slice(frame);
            assert(copy@ =~= frame@);
            return Some(copy);
        }
        let mut merged: Vec<u8> = Vec::new();
        match (&self.cached_sps, &self.cached_pps) {
            (Some(sps), Some(pps)) => {
                merged.extend_from_slice(sps.as_slice());
                merged.extend_from_slice(pps.as_slice());
                merged.extend_from_slice(frame);
                assert(merged@ =~= sps@ + pps@ + frame@);
            },
            _ => {
                return None;
            },
        }
        self.needs_headers = false;
        Some(merged)
    }

    /// Decides what is to be done with a decode unit, and moves the relay to
    /// its next state. With re-encoding off the unit is forwarded. With it
    /// on, the pipeline is built anew where its configuration has changed;
    /// the unit's parameter sets are cached; until a keyframe has come in
    /// after a rebuild the unit is dropped and a keyframe asked for; and the
    /// first frame that goes to the pipeline has the parameter sets in front.
    pub fn submit_decode_unit(
        &mut self,
        reencode: Option<&ReencodeSettings>,
        setup: Option<VideoSetup>,
        default_preset: &str,
        unit: &VideoDecodeUnit,
    ) -> (plan: UnitPlan)
        ensures
            (final(self)@, plan@) == relay_step(
                old(self)@,
                settings_view(reencode),
                setup,
                default_preset@,
                unit@,
            ),
            old(self)@.wf() ==> final(self)@.wf(),
    {
        let settings: &ReencodeSettings = match reencode {
            Some(settings) if settings.enabled => settings,
            _ => {
                let change = if self.ffmpeg.is_some() {
                    PipelineChange::Discard
                } else {
                    PipelineChange::Keep
                };
                self.ffmpeg = None;
                self.needs_headers = true;
                self.waiting_for_idr = false;
                return UnitPlan { pipeline: change, action: UnitAction::Forward };
            },
        };
        let config = settings.pipeline_config(setup, default_preset);
        let rebuild = match &self.ffmpeg {
            Some(pipeline) => !pipeline.config.same_as(&config),
            None => true,
        };
        let change = if rebuild {
            self.ffmpeg = Some(FfmpegPipeline::new(config));
            self.needs_headers = true;
            self.waiting_for_idr = true;
            PipelineChange::Rebuild
        } else {
            PipelineChange::Keep
        };

        let full_frame = unit.frame();
        self.cache_parameter_sets(full_frame.as_slice());
        let has_idr = self.frame_has_idr(full_frame.as_slice()) || unit.frame_type
            == FrameType::Idr;
        if self.waiting_for_idr && !has_idr {
            return UnitPlan { pipeline: change, action: UnitAction::RequestIdr };
        }
        self.waiting_for_idr = false;

        let action = match self.inject_headers_if_needed(full_frame.as_slice()) {
            Some(frame) => {
                let init = match &self.ffmpeg {
                    Some(pipeline) => init_request(pipeline, setup),
                    None => None,
                };
                UnitAction::Transcode { frame, init }
            },
            None => UnitAction::Skip,
        };
        UnitPlan { pipeline: change, action }
    }

    /// Notes that the codec library behind the pipeline has been started, so
    /// that its codec contexts are not opened a second time.
    pub fn pipeline_initialized(&mut self)
        ensures
            final(self)@ == (RelayView {
                pipeline: match old(self)@.pipeline {
                    Some(pipeline) => Some(PipelineView { initialized: true, ..pipeline }),
                    None => None,
                },
                ..old(self)@
            }),
    {
        match self.ffmpeg.take() {
            Some(mut pipeline) => {
                pipeline.init();
                self.ffmpeg = Some(pipeline);
            },
            None => {},
        }
    }
}

/// What encoded packets hold.
pub open spec fn encoded_views(packets: Seq<EncodedPacket>) -> Seq<EncodedView> {
    Seq::new(packets.len(), |i: int| packets[i]@)
}

/// What outbound packets hold.
pub open spec fn packet_views(packets: Seq<OutboundPacket>) -> Seq<OutboundView> {
    Seq::new(packets.len(), |i: int| packets[i]@)
}

/// The video packet that an encoded packet is sent as: it carries the
/// unit's RTP timestamp, and it counts as a keyframe where the encoder says
/// so or the unit was one.
pub open spec fn transcoded_packet(unit: UnitView, packet: EncodedView) -> OutboundView {
    OutboundView::VideoUnit {
        payload: packet.data,
        timestamp: unit.rtp_timestamp,
        is_keyframe: packet.keyframe || unit.frame_type == FrameType::Idr,
    }
}

/// The video packets that the encoder's packets are sent as, in the
/// encoder's order.
pub open spec fn transcoded_packets(unit: UnitView, packets: Seq<EncodedView>) -> Seq<
    OutboundView,
> {
    Seq::new(packets.len(), |i: int| transcoded_packet(unit, packets[i]))
}

/// The number of bytes in the encoder's packets.
pub open spec fn encoded_len(packets: Seq<EncodedView>) -> nat
    decreases packets.len(),
{
    if packets.len() == 0 {
        0
    } else {
        encoded_len(packets.drop_last()) + packets.last().data.len()
    }
}

/// The packets to send for a transcoded unit, and their size.
#[derive(Debug, PartialEq, Eq)]
pub struct TranscodedOutput {
    pub packets: Vec<OutboundPacket>,
    pub outgoing_bytes: u64,
}

/// Turns what the pipeline gave for a unit into the packets to send.
pub fn forward_transcoded(unit: &VideoDecodeUnit, packets: &Vec<EncodedPacket>) -> (output:
    TranscodedOutput)
    ensures
        packet_views(output.packets@) == transcoded_packets(unit@, encoded_views(packets@)),
        output.outgoing_bytes == saturated(encoded_len(encoded_views(packets@)) as int),
{
    let ghost all = encoded_views(packets@);
    let source_is_keyframe = unit.frame_type == FrameType::Idr;
    let mut out: Vec<OutboundPacket> = Vec::new();
    let mut outgoing_bytes: u64 = 0;
    let mut k: usize = 0;
    assert(all.take(0) =~= Seq::<EncodedView>::empty());
    while k < packets.len()
        invariant
            k <= packets.len(),
            all == encoded_views(packets@),
            source_is_keyframe == (unit@.frame_type == FrameType::Idr),
            out@.len() == k,
            forall|i: int| 0 <= i < k ==> (#[trigger] out@[i])@ == transcoded_packet(unit@, all[i]),
            outgoing_bytes == saturated(encoded_len(all.take(k as int)) as int),
        decreases packets.len() - k,
    {
        let packet = &packets[k];
        proof {
            assert(all.take(k + 1).drop_last() =~= all.take(k as int));
            assert(all.take(k + 1).last() == packet@);
        }
        outgoing_bytes = outgoing_bytes.saturating_add(packet.data.len() as u64);
        let mut payload: Vec<u8> = Vec::new();
        payload.extend_from_slice(packet.data.as_slice());
        assert(payload@ =~= packet.data@);
        out.push(
            OutboundPacket::VideoUnit {
                payload,
                timestamp: unit.rtp_timestamp,
                is_keyframe: packet.keyframe || source_is_keyframe,
            },
        );
        k += 1;
    }
    assert(all.take(k as int) =~= all);
    assert(packet_views(out@) =~= transcoded_packets(unit@, all));
    TranscodedOutput { packets: out, outgoing_bytes }
}

/// What goes out for a unit whose frame was handed to the pipeline.
#[derive(Debug, PartialEq, Eq)]
pub enum Delivery {
    /// The pipeline's packets, as video packets.
    Packets(TranscodedOutput),
    /// The unit as it came: the pipeline gave nothing for it.
    ForwardUnit,
}

/// Decides what goes out for a unit once the pipeline has been asked. What
/// the pipeline gave goes out as video packets, also where it gave no packet
/// at all. Where there is no pipeline that could take the frame, or the
/// pipeline failed, the unit is forwarded as it came.
pub fn deliver_transcoded(unit: &VideoDecodeUnit, result: Option<&Vec<EncodedPacket>>) -> (delivery:
    Delivery)
    ensures
        match result {
            Some(packets) => delivery matches Delivery::Packets(output) && packet_views(
                output.packets@,
            ) == transcoded_packets(unit@, encoded_views(packets@)) && output.outgoing_bytes
                == saturated(encoded_len(encoded_views(packets@)) as int),
            None => delivery is ForwardUnit,
        },
{
    match result {
        Some(packets) => Delivery::Packets(forward_transcoded(unit, packets)),
        None => Delivery::ForwardUnit,
    }
}

/// What became of a unit outside the relay.
#[derive(Clone, Copy, Debug)]
pub enum UnitEvent {
    /// Nothing was sent.
    Nothing,
    /// The unit was handed to the transport as it came, which answered.
    Forwarded(Result<DecodeResult, TransportError>),
    /// The pipeline took the frame, and its packets of this size were sent.
    Transcoded { outgoing_bytes: u64 },
}

/// What the engine is told about a unit, and how many bytes went out for
/// it.
#[derive(Clone, Copy, Debug, PartialEq, Eq, Structural)]
pub struct UnitOutcome {
    pub result: DecodeResult,
    pub outgoing_bytes: u64,
}

/// The outcome of a unit. A forwarded unit counts with the bytes that came
/// in, and the engine hears what the transport answered. A unit that waits
/// for a keyframe has the engine ask for one. A transcoded unit counts with
/// the bytes of its packets. Where the pipeline failed and the unit was
/// forwarded instead, it counts with the bytes that came in if it went out.
/// Everything else counts for nothing.
pub open spec fn unit_outcome(action: ActionView, incoming_bytes: u64, event: UnitEvent)
    -> UnitOutcome {
    match action {
        ActionView::Forward => UnitOutcome {
            result: match event {
                UnitEvent::Forwarded(Ok(answer)) => answer,
                _ => DecodeResult::Accepted,
            },
            outgoing_bytes: incoming_bytes,
        },
        ActionView::RequestIdr => UnitOutcome {
            result: DecodeResult::NeedIdr,
            outgoing_bytes: 0,
        },
        ActionView::Skip => UnitOutcome { result: DecodeResult::Accepted, outgoing_bytes: 0 },
        ActionView::Transcode { .. } => UnitOutcome {
            result: DecodeResult::Accepted,
            outgoing_bytes: match event {
                UnitEvent::Transcoded { outgoing_bytes } => outgoing_bytes,
                UnitEvent::Forwarded(Ok(_)) => incoming_bytes,
                _ => 0,
            },
        },
    }
}

/// Settles a unit once the work outside the relay is done.
pub fn complete_decode_unit(action: &UnitAction, incoming_bytes: u64, event: UnitEvent) -> (outcome:
    UnitOutcome)
    ensures
        outcome == unit_outcome(action@, incoming_bytes, event),
{
    match action {
        UnitAction::Forward => UnitOutcome {
            result: match event {
                UnitEvent::Forwarded(Ok(answer)) => answer,
                _ => DecodeResult::Accepted,
            },
            outgoing_bytes: incoming_bytes,
        },
        UnitAction::RequestIdr => UnitOutcome {
            result: DecodeResult::NeedIdr,
            outgoing_bytes: 0,
        },
        UnitAction::Skip => UnitOutcome { result: DecodeResult::Accepted, outgoing_bytes: 0 },
        UnitAction::Transcode { .. } => UnitOutcome {
            result: DecodeResult::Accepted,
            outgoing_bytes: match event {
                UnitEvent::Transcoded { outgoing_bytes } => outgoing_bytes,
                UnitEvent::Forwarded(Ok(_)) => incoming_bytes,
                _ => 0,
            },
        },
    }
}

} // verus!
