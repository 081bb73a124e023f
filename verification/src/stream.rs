//! What the streaming engine hands to the relay and takes back from it:
//! decode units, the negotiated stream, and sets of video formats.

use vstd::prelude::*;

verus! {

/// Whether a decode unit holds a frame that decodes on its own.
#[derive(Clone, Copy, Debug, PartialEq, Eq, Structural)]
pub enum FrameType {
    Idr,
    PFrame,
}

/// What the streaming engine is told about a unit it submitted.
#[derive(Clone, Copy, Debug, PartialEq, Eq, Structural)]
pub enum DecodeResult {
    /// The unit was taken.
    Accepted,
    /// The engine is to ask its source for a fresh keyframe.
    NeedIdr,
}

/// The format of the stream that the engine negotiated.
#[allow(non_camel_case_types)]
#[derive(Clone, Copy, Debug, PartialEq, Eq, Structural)]
pub enum VideoFormat {
    H264,
    H264High8_444,
    H265,
    H265Main10,
    H265Rext8_444,
    H265Rext10_444,
    Av1Main8,
    Av1Main10,
    Av1High8_444,
    Av1High10_444,
}

/// The stream as the engine negotiated it.
#[derive(Clone, Copy, Debug, PartialEq, Eq, Structural)]
pub struct VideoSetup {
    pub format: VideoFormat,
    pub width: u32,
    pub height: u32,
    pub redraw_rate: u32,
}

/// One decode unit: a frame in one or more buffers, with its timing.
#[derive(Debug, PartialEq, Eq)]
pub struct VideoDecodeUnit {
    pub buffers: Vec<Vec<u8>>,
    pub frame_type: FrameType,
    /// Presentation time, in microseconds.
    pub presentation_time_us: u64,
    pub rtp_timestamp: u32,
    /// How long the host took to produce the frame, in nanoseconds, where it
    /// says so.
    pub frame_processing_latency: Option<u64>,
}

/// A decode unit as plain values.
pub struct UnitView {
    pub buffers: Seq<Seq<u8>>,
    pub frame_type: FrameType,
    pub presentation_time_us: u64,
    pub rtp_timestamp: u32,
    pub frame_processing_latency: Option<u64>,
}

impl View for VideoDecodeUnit {
    type V = UnitView;

    open spec fn view(&self) -> UnitView {
        UnitView {
            buffers: self.buffers.deep_view(),
            frame_type: self.frame_type,
            presentation_time_us: self.presentation_time_us,
            rtp_timestamp: self.rtp_timestamp,
            frame_processing_latency: self.frame_processing_latency,
        }
    }
}

/// The buffers of a unit, one behind the other.
pub open spec fn concat_buffers(buffers: Seq<Seq<u8>>) -> Seq<u8>
    decreases buffers.len(),
{
    if buffers.len() == 0 {
        Seq::empty()
    } else {
        concat_buffers(buffers.drop_last()) + buffers.last()
    }
}

/// A byte count as the relay keeps it: it stops at the largest `u64`.
pub open spec fn saturated(count: int) -> u64 {
    if count > u64::MAX {
        u64::MAX
    } else {
        count as u64
    }
}

impl UnitView {
    /// The frame that the unit holds.
    pub open spec fn frame(self) -> Seq<u8> {
        concat_buffers(self.buffers)
    }

    /// The number of bytes that came in with the unit.
    pub open spec fn incoming_bytes(self) -> u64 {
        saturated(self.frame().len() as int)
    }
}

impl VideoDecodeUnit {
    /// The unit's buffers as one contiguous frame.
    pub fn frame(&self) -> (frame: Vec<u8>)
        ensures
            frame@ == self@.frame(),
    {
        let mut frame: Vec<u8> = Vec::new();
        let mut k: usize = 0;
        while k < self.buffers.len()
            invariant
                k <= self.buffers.len(),
                frame@ == concat_buffers(self@.buffers.take(k as int)),
            decreases self.buffers.len() - k,
        {
            let ghost before = frame@;
            frame.extend_from_slice(self.buffers[k].as_slice());
            proof {
                let taken = self@.buffers.take(k + 1);
                assert(taken.drop_last() =~= self@.buffers.take(k as int));
                assert(taken.last() == self.buffers@[k as int]@);
                assert(frame@ =~= before + self.buffers@[k as int]@);
            }
            k += 1;
        }
        assert(self@.buffers.take(k as int) =~= self@.buffers);
        frame
    }

    /// The number of bytes that came in with the unit.
    pub fn incoming_bytes(&self) -> (bytes: u64)
        ensures
            bytes == self@.incoming_bytes(),
    {
        let mut bytes: u64 = 0;
        let mut k: usize = 0;
        while k < self.buffers.len()
            invariant
                k <= self.buffers.len(),
                bytes == saturated(concat_buffers(self@.buffers.take(k as int)).len() as int),
            decreases self.buffers.len() - k,
        {
            proof {
                let taken = self@.buffers.take(k + 1);
                assert(taken.drop_last() =~= self@.buffers.take(k as int));
                assert(taken.last() == self.buffers@[k as int]@);
            }
            bytes = bytes.saturating_add(self.buffers[k].len() as u64);
            k += 1;
        }
        assert(self@.buffers.take(k as int) =~= self@.buffers);
        bytes
    }
}

/// Bit of the H.264 format in a set of video formats.
pub const VIDEO_FORMAT_H264: u32 = 0x0001;

/// Bit of the H.264 High 4:4:4 format.
pub const VIDEO_FORMAT_H264_HIGH8_444: u32 = 0x0004;

/// Bit of the H.265 format.
pub const VIDEO_FORMAT_H265: u32 = 0x0100;

/// Bit of the H.265 Main10 format.
pub const VIDEO_FORMAT_H265_MAIN10: u32 = 0x0200;

/// Bit of the H.265 range-extension 8-bit 4:4:4 format.
pub const VIDEO_FORMAT_H265_REXT8_444: u32 = 0x0400;

/// Bit of the H.265 range-extension 10-bit 4:4:4 format.
pub const VIDEO_FORMAT_H265_REXT10_444: u32 = 0x0800;

/// Bit of the AV1 Main 8-bit format.
pub const VIDEO_FORMAT_AV1_MAIN8: u32 = 0x1000;

/// Bit of the AV1 Main 10-bit format.
pub const VIDEO_FORMAT_AV1_MAIN10: u32 = 0x2000;

/// Bit of the AV1 High 8-bit 4:4:4 format.
pub const VIDEO_FORMAT_AV1_HIGH8_444: u32 = 0x4000;

/// Bit of the AV1 High 10-bit 4:4:4 format.
pub const VIDEO_FORMAT_AV1_HIGH10_444: u32 = 0x8000;

/// Every bit that names a video format.
pub const VIDEO_FORMAT_MASK: u32 = 0xff05;

/// A set of video formats, one bit each.
#[derive(Clone, Copy, Debug, PartialEq, Eq, Structural)]
pub struct SupportedVideoFormats {
    pub bits: u32,
}

impl SupportedVideoFormats {
    /// The bits name video formats and nothing else.
    pub open spec fn known(bits: u32) -> bool {
        bits & !VIDEO_FORMAT_MASK == 0
    }

    /// The set with H.264 alone.
    pub fn h264() -> (formats: Self)
        ensures
            formats.bits == VIDEO_FORMAT_H264,
    {
        SupportedVideoFormats { bits: VIDEO_FORMAT_H264 }
    }

    /// The set that the bits stand for, unless one of them names no format.
    pub fn from_bits(bits: u32) -> (formats: Option<Self>)
        ensures
            formats == if Self::known(bits) {
                Some(SupportedVideoFormats { bits })
            } else {
                None
            },
    {
        if bits & !VIDEO_FORMAT_MASK == 0 {
            Some(SupportedVideoFormats { bits })
        } else {
            None
        }
    }
}

/// What the decoder can do beyond decoding: a set of bits, none of which the
/// relay sets.
#[derive(Clone, Copy, Debug, PartialEq, Eq, Structural)]
pub struct Capabilities {
    pub bits: u32,
}

impl Capabilities {
    /// No capability at all.
    pub fn empty() -> (capabilities: Self)
        ensures
            capabilities.bits == 0,
    {
        Capabilities { bits: 0 }
    }
}

} // verus!
