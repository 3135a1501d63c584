//! Merging a video file and an audio file into one output file.
//!
//! The library holds what the muxer decides: the stream selection, the
//! encoder settings, the error classification and the state machines that
//! drive the decoders, encoders and the audio sample FIFO. The media work
//! itself is carried out by FFmpeg around these decisions.

pub mod error;

pub use error::{AVMuxError, FfmpegError, NulError};
pub mod codec;

pub use codec::{AConf, AFormat, CodecConfig, VConf, VFormat};
pub mod file;

pub use file::{AFile, AVFile, VFile};
pub mod convert;
pub mod media;
pub mod plan;
pub mod fifo;
pub mod demux;
pub mod mux;
