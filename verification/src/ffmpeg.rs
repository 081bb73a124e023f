//! What the relay knows of its transcode pipeline: the configuration it was
//! built with, its lifecycle, and the encoder parameters that follow from the
//! configuration.

use vstd::prelude::*;

verus! {

/// The configuration that a transcode pipeline is built with.
#[derive(Debug, PartialEq, Eq)]
pub struct FfmpegPipelineConfig {
    pub encoder: String,
    pub preset: String,
    pub bitrate_kbps: u32,
    pub fps: u32,
    pub threads: Option<u16>,
}

/// A pipeline configuration as plain values.
pub struct PipelineConfigView {
    pub encoder: Seq<char>,
    pub preset: Seq<char>,
    pub bitrate_kbps: u32,
    pub fps: u32,
    pub threads: Option<u16>,
}

impl View for FfmpegPipelineConfig {
    type V = PipelineConfigView;

    open spec fn view(&self) -> PipelineConfigView {
        PipelineConfigView {
            encoder: self.encoder@,
            preset: self.preset@,
            bitrate_kbps: self.bitrate_kbps,
            fps: self.fps,
            threads: self.threads,
        }
    }
}

impl Clone for FfmpegPipelineConfig {
    fn clone(&self) -> (copy: Self)
        ensures
            copy@ == self@,
    {
        FfmpegPipelineConfig {
            encoder: self.encoder.clone(),
            preset: self.preset.clone(),
            bitrate_kbps: self.bitrate_kbps,
            fps: self.fps,
            threads: self.threads,
        }
    }
}

impl FfmpegPipelineConfig {
    /// Two configurations are equal when all their fields are.
    pub fn same_as(&self, other: &FfmpegPipelineConfig) -> (same: bool)
        ensures
            same == (self@ == other@),
    {
        let threads_equal = match (self.threads, other.threads) {
            (Some(a), Some(b)) => a == b,
            (None, None) => true,
            _ => false,
        };
        let same = self.bitrate_kbps == other.bitrate_kbps && self.encoder == other.encoder
            && self.fps == other.fps && self.preset == other.preset && threads_equal;
        proof {
            if same {
                assert(self@.encoder =~= other@.encoder);
                assert(self@.preset =~= other@.preset);
            }
        }
        same
    }
}

/// One packet that the encoder gave out.
#[derive(Debug, PartialEq, Eq)]
pub struct EncodedPacket {
    pub data: Vec<u8>,
    pub keyframe: bool,
}

/// An encoded packet as plain values.
pub struct EncodedView {
    pub data: Seq<u8>,
    pub keyframe: bool,
}

impl View for EncodedPacket {
    type V = EncodedView;

    open spec fn view(&self) -> EncodedView {
        EncodedView { data: self.data@, keyframe: self.keyframe }
    }
}

/// The encoder's tuning: no frame is held back.
pub const ENCODER_TUNE: &'static str = "zerolatency";

/// The encoder's profile: the one every decoder understands.
pub const ENCODER_PROFILE: &'static str = "baseline";

/// The parameters that the encoder is opened with.
#[derive(Debug, PartialEq, Eq)]
pub struct EncoderSettings {
    pub width: u32,
    pub height: u32,
    /// Constant target bitrate, in bits per second.
    pub bit_rate: u64,
    /// Frames per second: the time base is its inverse.
    pub fps: u32,
    /// Frames from one keyframe to the next.
    pub gop: u32,
    pub max_b_frames: u32,
    /// Number of frame threads, where the configuration overrides the
    /// encoder's own choice.
    pub threads: Option<u16>,
    pub preset: String,
    /// Parameter sets are repeated in front of every keyframe.
    pub repeat_headers: bool,
}

/// Encoder parameters as plain values.
pub struct EncoderSettingsView {
    pub width: u32,
    pub height: u32,
    pub bit_rate: u64,
    pub fps: u32,
    pub gop: u32,
    pub max_b_frames: u32,
    pub threads: Option<u16>,
    pub preset: Seq<char>,
    pub repeat_headers: bool,
}

impl View for EncoderSettings {
    type V = EncoderSettingsView;

    open spec fn view(&self) -> EncoderSettingsView {
        EncoderSettingsView {
            width: self.width,
            height: self.height,
            bit_rate: self.bit_rate,
            fps: self.fps,
            gop: self.gop,
            max_b_frames: self.max_b_frames,
            threads: self.threads,
            preset: self.preset@,
            repeat_headers: self.repeat_headers,
        }
    }
}

/// The encoder parameters for a configuration and a picture size: a constant
/// bitrate, one keyframe per second, no B-frames, parameter sets with every
/// keyframe, and a thread count only where the configuration names a positive
/// one.
pub open spec fn encoder_settings_of(
    config: PipelineConfigView,
    width: u32,
    height: u32,
    fps: u32,
) -> EncoderSettingsView {
    EncoderSettingsView {
        width,
        height,
        bit_rate: (config.bitrate_kbps * 1000) as u64,
        fps,
        gop: if fps < 1 {
            1
        } else {
            fps
        },
        max_b_frames: 0,
        threads: match config.threads {
            Some(count) if count > 0 => Some(count),
            _ => None,
        },
        preset: config.preset,
        repeat_headers: true,
    }
}

/// The lifecycle of a transcode pipeline: the configuration it was built
/// with, and whether the codec library behind it has been started.
#[derive(Debug, PartialEq, Eq)]
pub struct FfmpegPipeline {
    pub config: FfmpegPipelineConfig,
    pub initialized: bool,
}

/// A pipeline as plain values.
pub struct PipelineView {
    pub config: PipelineConfigView,
    pub initialized: bool,
}

impl View for FfmpegPipeline {
    type V = PipelineView;

    open spec fn view(&self) -> PipelineView {
        PipelineView { config: self.config@, initialized: self.initialized }
    }
}

impl FfmpegPipeline {
    /// A pipeline that has not been started yet.
    pub fn new(config: FfmpegPipelineConfig) -> (pipeline: Self)
        ensures
            pipeline@ == (PipelineView { config: config@, initialized: false }),
    {
        FfmpegPipeline { config, initialized: false }
    }

    /// Notes that the codec library has been started.
    pub fn init(&mut self)
        ensures
            final(self)@ == (PipelineView { config: old(self)@.config, initialized: true }),
    {
        self.initialized = true;
    }

    /// The parameters to open the encoder with, for pictures of the given
    /// size at `fps` frames per second.
    pub fn encoder_settings(&self, width: u32, height: u32, fps: u32) -> (settings:
        EncoderSettings)
        ensures
            settings@ == encoder_settings_of(self@.config, width, height, fps),
    {
        let threads = match self.config.threads {
            Some(count) => if count > 0 {
                Some(count)
            } else {
                None
            },
            None => None,
        };
        let kbps: u64 = self.config.bitrate_kbps as u64;
        EncoderSettings {
            width,
            height,
            bit_rate: kbps * 1000,
            fps,
            gop: if fps < 1 {
                1
            } else {
                fps
            },
            max_b_frames: 0,
            threads,
            preset: self.config.preset.clone(),
            repeat_headers: true,
        }
    }
}

} // verus!
