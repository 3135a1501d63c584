//! Error types

use vstd::prelude::*;

verus! {

/// `errno` value that FFmpeg reports, wrapped as `AVERROR(EAGAIN)`, when a
/// codec has nothing to hand back until it gets more input (POSIX `EAGAIN`
/// on Linux).
pub const EAGAIN: i32 = 11;

/// The errors FFmpeg reports, one variant for each named `AVERROR` code and
/// `Other` for a wrapped POSIX `errno`.
#[derive(Debug, Clone, Copy, PartialEq, Eq, Structural)]
pub enum FfmpegError {
    Bug,
    Bug2,
    Unknown,
    Experimental,
    BufferTooSmall,
    Eof,
    Exit,
    External,
    InvalidData,
    PatchWelcome,
    InputChanged,
    OutputChanged,
    BsfNotFound,
    DecoderNotFound,
    DemuxerNotFound,
    EncoderNotFound,
    OptionNotFound,
    MuxerNotFound,
    FilterNotFound,
    ProtocolNotFound,
    StreamNotFound,
    HttpBadRequest,
    HttpUnauthorized,
    HttpForbidden,
    HttpNotFound,
    HttpOther4xx,
    HttpServerError,
    /// `AVERROR(errno)` for a POSIX error code.
    Other { errno: i32 },
}

/// A path that cannot become a C string: it holds a NUL byte.
#[derive(Debug, Clone, PartialEq, Eq)]
pub struct NulError {
    /// Byte position of the first NUL.
    pub position: usize,
    /// The bytes that were to become the C string.
    pub bytes: Vec<u8>,
}

/// Errors of the muxer.
#[derive(Debug)]
pub enum AVMuxError {
    /// An error reported by FFmpeg.
    Ffmpeg(FfmpegError),
    /// A file url that holds a NUL byte.
    Ffi(NulError),
    /// A decoder or encoder that is missing or not supported.
    CodecNotFound(String),
    /// Source media parameters invalid.
    Invalid,
}

/// `e` says that a codec has nothing more to give: end of stream, or
/// "try again after more input".
pub open spec fn ffmpeg_drained(e: FfmpegError) -> bool {
    e == FfmpegError::Eof || e == (FfmpegError::Other { errno: EAGAIN })
}

/// `e` ends a drain loop rather than the muxing.
pub open spec fn is_drained(e: AVMuxError) -> bool {
    match e {
        AVMuxError::Ffmpeg(f) => ffmpeg_drained(f),
        _ => false,
    }
}

/// Whether an FFmpeg error only reports that the codec is drained.
pub fn ffmpeg_error_drained(e: &FfmpegError) -> (r: bool)
    ensures
        r == ffmpeg_drained(*e),
{
    match e {
        FfmpegError::Eof => true,
        FfmpegError::Other { errno } => *errno == EAGAIN,
        _ => false,
    }
}

/// `true` when the codec only reported "nothing to hand back yet" or "fully
/// flushed", the two conditions that terminate a drain loop.
pub fn drained(e: &AVMuxError) -> (r: bool)
    ensures
        r == is_drained(*e),
{
    match e {
        AVMuxError::Ffmpeg(f) => ffmpeg_error_drained(f),
        _ => false,
    }
}

impl FfmpegError {
    /// Wraps the error as an error of the muxer.
    pub fn into_mux_error(self) -> (r: AVMuxError)
        ensures
            r == AVMuxError::Ffmpeg(self),
    {
        AVMuxError::Ffmpeg(self)
    }
}

} // verus!
