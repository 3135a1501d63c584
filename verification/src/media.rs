//! What the muxer reads of the source streams.

use vstd::prelude::*;

verus! {

/// Kind of a stream's content.
#[allow(missing_docs)]
#[derive(Debug, Clone, Copy, PartialEq, Eq, Structural)]
pub enum MediaType {
    Unknown,
    Video,
    Audio,
    Data,
    Subtitle,
    Attachment,
}

/// Codec of a source video stream, as far as the choice of the encoder
/// depends on it.
#[allow(missing_docs)]
#[derive(Debug, Clone, Copy, PartialEq, Eq, Structural)]
pub enum VideoCodec {
    H264,
    HEVC,
    AV1,
    /// Any other codec.
    Other,
}

/// A time base: `num / den` seconds.
#[allow(missing_docs)]
#[derive(Debug, Clone, Copy, PartialEq, Eq, Structural)]
pub struct Rational {
    pub num: i32,
    pub den: i32,
}

/// The source video stream parameters the encoder settings depend on.
#[derive(Debug, Clone)]
pub struct VideoSource {
    /// Codec of the stream.
    pub codec: VideoCodec,
    /// Name of the codec id, as FFmpeg's `codec::Id` prints it.
    pub codec_name: String,
    /// Bitrate of the stream.
    pub bit_rate: i64,
    /// Frame width.
    pub width: i32,
    /// Frame height.
    pub height: i32,
}

/// The source audio stream parameters the encoder settings depend on.
#[derive(Debug, Clone)]
pub struct AudioSource {
    /// Name of the codec id, as FFmpeg's `codec::Id` prints it.
    pub codec_name: String,
    /// Sample rate of the stream.
    pub sample_rate: i32,
}

} // verus!
