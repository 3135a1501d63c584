use avmux::demux::{LoopAction, LoopEvent, LoopMode, LoopPhase, PacketLoop};
use avmux::media::MediaType;
use avmux::plan::{select_streams, Selection};
use avmux::{AVMuxError, FfmpegError};

fn show(a: LoopAction) -> String {
    format!("{:?}", a)
}

#[test]
fn copy_loop_routes_packets_to_their_output() {
    let map = select_streams(
        Selection::Copy,
        &vec![MediaType::Video, MediaType::Data, MediaType::Audio],
        0,
    );
    let mut l = PacketLoop::new(LoopMode::Copy, map);
    assert_eq!(show(l.step(LoopEvent::Packet { stream: 2 })), "WritePacket { input: 2, output: 1 }");
    assert_eq!(show(l.step(LoopEvent::Success)), "ReadPacket");
    assert_eq!(show(l.step(LoopEvent::Packet { stream: 1 })), "ReadPacket");
    assert_eq!(show(l.step(LoopEvent::Packet { stream: 7 })), "ReadPacket");
    assert_eq!(show(l.step(LoopEvent::Packet { stream: 0 })), "WritePacket { input: 0, output: 0 }");
    assert_eq!(show(l.step(LoopEvent::Success)), "ReadPacket");
    assert_eq!(show(l.step(LoopEvent::EndOfInput)), "Done");
    assert_eq!(l.phase(), LoopPhase::Done);
}

#[test]
fn transcode_loop_flushes_every_converter_in_order() {
    let map = select_streams(
        Selection::Audio,
        &vec![MediaType::Audio, MediaType::Video, MediaType::Audio],
        1,
    );
    let mut l = PacketLoop::new(LoopMode::Transcode, map);
    assert_eq!(show(l.step(LoopEvent::Packet { stream: 2 })), "Convert { input: 2 }");
    assert_eq!(show(l.step(LoopEvent::Success)), "ReadPacket");
    assert_eq!(show(l.step(LoopEvent::Packet { stream: 1 })), "ReadPacket");
    assert_eq!(show(l.step(LoopEvent::EndOfInput)), "Flush { input: 0 }");
    assert_eq!(show(l.step(LoopEvent::Success)), "Flush { input: 2 }");
    assert_eq!(show(l.step(LoopEvent::Success)), "Done");
}

#[test]
fn transcode_loop_without_selected_streams_is_done_at_end() {
    let map = select_streams(Selection::Video, &vec![MediaType::Audio], 0);
    let mut l = PacketLoop::new(LoopMode::Transcode, map);
    assert_eq!(show(l.step(LoopEvent::Packet { stream: 0 })), "ReadPacket");
    assert_eq!(show(l.step(LoopEvent::EndOfInput)), "Done");
}

#[test]
fn loop_errors_end_the_loop() {
    let map = select_streams(Selection::Copy, &vec![MediaType::Video], 0);
    let mut l = PacketLoop::new(LoopMode::Copy, map);
    let a = l.step(LoopEvent::Failure(AVMuxError::Ffmpeg(FfmpegError::InvalidData)));
    assert!(matches!(a, LoopAction::Fail(AVMuxError::Ffmpeg(FfmpegError::InvalidData))));
    assert_eq!(l.phase(), LoopPhase::Failed);
}

#[test]
fn failed_flush_ends_the_loop() {
    let map = select_streams(Selection::Video, &vec![MediaType::Video, MediaType::Video], 0);
    let mut l = PacketLoop::new(LoopMode::Transcode, map);
    assert_eq!(show(l.step(LoopEvent::EndOfInput)), "Flush { input: 0 }");
    let a = l.step(LoopEvent::Failure(AVMuxError::Invalid));
    assert!(matches!(a, LoopAction::Fail(AVMuxError::Invalid)));
}
