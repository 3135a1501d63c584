use avmux::convert::{ConvertAction, ConvertEvent, Converter, Phase};
use avmux::error::EAGAIN;
use avmux::{AVMuxError, FfmpegError};

fn eof() -> ConvertEvent {
    ConvertEvent::Failure(AVMuxError::Ffmpeg(FfmpegError::Eof))
}

fn again() -> ConvertEvent {
    ConvertEvent::Failure(AVMuxError::Ffmpeg(FfmpegError::Other { errno: EAGAIN }))
}

fn show(a: ConvertAction) -> String {
    format!("{:?}", a)
}

#[test]
fn audio_samples_are_rechunked_into_frames_with_running_pts() {
    let mut c = Converter::audio(1, 4);
    // A packet: two decoded frames of 3 samples each.
    assert_eq!(show(c.begin(false)), "SendPacket");
    assert_eq!(show(c.step(ConvertEvent::Success)), "ReceiveFrame");
    assert_eq!(show(c.step(ConvertEvent::Frame(3))), "ReceiveFrame");
    assert_eq!(show(c.step(ConvertEvent::Frame(3))), "ReadSamples { pts: 0, samples: 4 }");
    assert_eq!(show(c.step(ConvertEvent::Success)), "ReceivePacket");
    assert_eq!(show(c.step(ConvertEvent::Success)), "WritePacket { index: 1 }");
    assert_eq!(show(c.step(ConvertEvent::Success)), "ReceivePacket");
    assert_eq!(show(c.step(eof())), "SendFrame");
    assert_eq!(show(c.step(ConvertEvent::Success)), "ReceiveFrame");
    assert_eq!(show(c.step(again())), "Yield");
    assert_eq!(c.state().phase, Phase::Idle);
    assert_eq!(c.state().audio.unwrap().buffered, 2);
    // The end of input: one more frame of 3 samples, then the flush.
    assert_eq!(show(c.begin(true)), "SendDecoderEof");
    assert_eq!(show(c.step(ConvertEvent::Success)), "ReceiveFrame");
    assert_eq!(show(c.step(ConvertEvent::Frame(3))), "ReadSamples { pts: 4, samples: 4 }");
    assert_eq!(show(c.step(ConvertEvent::Success)), "ReceivePacket");
    assert_eq!(show(c.step(again())), "SendFrame");
    assert_eq!(show(c.step(ConvertEvent::Success)), "ReceiveFrame");
    assert_eq!(show(c.step(eof())), "ReadSamples { pts: 8, samples: 1 }");
    assert_eq!(show(c.step(ConvertEvent::Success)), "ReceivePacket");
    assert_eq!(show(c.step(eof())), "SendFrame");
    assert_eq!(show(c.step(ConvertEvent::Success)), "ReceivePacket");
    assert_eq!(show(c.step(eof())), "SendEncoderEof");
    assert_eq!(show(c.step(ConvertEvent::Success)), "ReceivePacket");
    assert_eq!(show(c.step(ConvertEvent::Success)), "WritePacket { index: 1 }");
    assert_eq!(show(c.step(ConvertEvent::Success)), "ReceivePacket");
    assert_eq!(show(c.step(eof())), "Finish");
    assert_eq!(c.state().phase, Phase::Finished);
    assert_eq!(c.state().audio.unwrap().next_pts, 9);
    assert_eq!(c.state().audio.unwrap().buffered, 0);
}

#[test]
fn audio_without_a_remainder_flushes_the_encoder_directly() {
    let mut c = Converter::audio(0, 2);
    assert_eq!(show(c.begin(true)), "SendDecoderEof");
    assert_eq!(show(c.step(ConvertEvent::Success)), "ReceiveFrame");
    assert_eq!(show(c.step(ConvertEvent::Frame(2))), "ReadSamples { pts: 0, samples: 2 }");
    assert_eq!(show(c.step(ConvertEvent::Success)), "ReceivePacket");
    assert_eq!(show(c.step(eof())), "SendFrame");
    assert_eq!(show(c.step(ConvertEvent::Success)), "ReceiveFrame");
    assert_eq!(show(c.step(eof())), "ReceivePacket");
    assert_eq!(show(c.step(again())), "SendEncoderEof");
    assert_eq!(show(c.step(ConvertEvent::Success)), "ReceivePacket");
    assert_eq!(show(c.step(eof())), "Finish");
}

#[test]
fn one_large_frame_fills_several_encoder_frames() {
    let mut c = Converter::audio(0, 1024);
    c.begin(false);
    c.step(ConvertEvent::Success);
    assert_eq!(show(c.step(ConvertEvent::Frame(2500))), "ReadSamples { pts: 0, samples: 1024 }");
    c.step(ConvertEvent::Success);
    assert_eq!(show(c.step(eof())), "SendFrame");
    assert_eq!(show(c.step(ConvertEvent::Success)), "ReadSamples { pts: 1024, samples: 1024 }");
    c.step(ConvertEvent::Success);
    c.step(again());
    assert_eq!(show(c.step(ConvertEvent::Success)), "ReceiveFrame");
    assert_eq!(c.state().audio.unwrap().buffered, 452);
}

#[test]
fn video_frames_go_to_the_encoder_one_by_one() {
    let mut c = Converter::video(0);
    assert_eq!(show(c.begin(false)), "SendPacket");
    assert_eq!(show(c.step(ConvertEvent::Success)), "ReceiveFrame");
    assert_eq!(show(c.step(ConvertEvent::Frame(0))), "ReceivePacket");
    assert_eq!(show(c.step(again())), "SendFrame");
    assert_eq!(show(c.step(ConvertEvent::Success)), "ReceiveFrame");
    assert_eq!(show(c.step(again())), "Yield");
    assert_eq!(show(c.begin(true)), "SendDecoderEof");
    assert_eq!(show(c.step(ConvertEvent::Success)), "ReceiveFrame");
    assert_eq!(show(c.step(eof())), "ReceivePacket");
    assert_eq!(show(c.step(eof())), "SendEncoderEof");
    assert_eq!(show(c.step(ConvertEvent::Success)), "ReceivePacket");
    assert_eq!(show(c.step(eof())), "Finish");
}

#[test]
fn a_real_error_ends_the_conversion_with_that_error() {
    let mut c = Converter::video(3);
    c.begin(false);
    c.step(ConvertEvent::Success);
    let a = c.step(ConvertEvent::Failure(AVMuxError::Ffmpeg(FfmpegError::InvalidData)));
    assert!(matches!(a, ConvertAction::Fail(AVMuxError::Ffmpeg(FfmpegError::InvalidData))));
    assert_eq!(c.state().phase, Phase::Failed);
}

#[test]
fn a_failed_write_ends_the_conversion() {
    let mut c = Converter::audio(0, 4);
    c.begin(false);
    c.step(ConvertEvent::Success);
    c.step(ConvertEvent::Frame(4));
    c.step(ConvertEvent::Success);
    assert_eq!(show(c.step(ConvertEvent::Success)), "WritePacket { index: 0 }");
    let a = c.step(ConvertEvent::Failure(AVMuxError::Ffmpeg(FfmpegError::Other { errno: 5 })));
    assert!(matches!(a, ConvertAction::Fail(AVMuxError::Ffmpeg(FfmpegError::Other { errno: 5 }))));
}

#[test]
fn a_decoder_that_refuses_the_packet_fails() {
    let mut c = Converter::audio(0, 4);
    c.begin(false);
    let a = c.step(again());
    assert!(matches!(a, ConvertAction::Fail(_)));
}
