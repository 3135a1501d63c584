use avmux::error::{drained, ffmpeg_error_drained, EAGAIN};
use avmux::{AVMuxError, FfmpegError, NulError};

#[test]
fn end_of_stream_and_again_are_drained() {
    assert!(drained(&AVMuxError::Ffmpeg(FfmpegError::Eof)));
    assert!(drained(&AVMuxError::Ffmpeg(FfmpegError::Other { errno: EAGAIN })));
    assert!(ffmpeg_error_drained(&FfmpegError::Eof));
}

#[test]
fn other_errors_are_not_drained() {
    assert!(!drained(&AVMuxError::Ffmpeg(FfmpegError::Other { errno: 12 })));
    assert!(!drained(&AVMuxError::Ffmpeg(FfmpegError::InvalidData)));
    assert!(!drained(&AVMuxError::Invalid));
    assert!(!drained(&AVMuxError::CodecNotFound("x".to_string())));
    assert!(!drained(&AVMuxError::Ffi(NulError { position: 0, bytes: vec![0] })));
}

#[test]
fn ffmpeg_error_wraps() {
    assert!(matches!(
        FfmpegError::Exit.into_mux_error(),
        AVMuxError::Ffmpeg(FfmpegError::Exit)
    ));
}
