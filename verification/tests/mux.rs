use avmux::demux::LoopMode;
use avmux::media::MediaType;
use avmux::mux::{Mux, MuxSession, SessionAction, SessionEvent, Source, Stage};
use avmux::{AFile, AVMuxError, CodecConfig, FfmpegError, VConf, VFile, VFormat};

/// Drives a run the way the muxer does when every FFmpeg call succeeds, the
/// video file holding a video and an audio stream and the audio file one
/// audio stream; returns the steps taken.
fn run_to_end(session: &mut MuxSession) -> Vec<String> {
    let mut steps = Vec::new();
    let mut action = session.begin();
    loop {
        steps.push(format!("{:?}", action));
        let event = match &action {
            SessionAction::OpenOutput => SessionEvent::Success,
            SessionAction::OpenInput { source: Source::Video } => {
                SessionEvent::Opened(vec![MediaType::Video, MediaType::Audio])
            }
            SessionAction::OpenInput { source: Source::Audio } => {
                SessionEvent::Opened(vec![MediaType::Audio])
            }
            SessionAction::AddStream { .. } => SessionEvent::Success,
            SessionAction::WriteHeader => SessionEvent::Success,
            SessionAction::Run => SessionEvent::Ran { video: Ok(()), audio: Ok(()) },
            SessionAction::WriteTrailer => SessionEvent::Success,
            SessionAction::Done => return steps,
            SessionAction::Fail(e) => panic!("run failed: {:?}", e),
        };
        action = session.step(event);
    }
}

#[test]
fn test_av_file_mux() {
    let file1 = AFile::new("testa.mp3");
    let file2 = VFile::new("testv.mp4");
    let output = VFile::new("output1.mp4");
    let mut session = (file1, file2).mux(output, CodecConfig::default());
    assert_eq!(session.video().path_url, "testv.mp4");
    assert_eq!(session.audio().path_url, "testa.mp3");
    run_to_end(&mut session);
    assert_eq!(session.stage(), Stage::Done);
    assert_eq!(session.into_output().path_url, "output1.mp4");

    let file1 = AFile::new("testa.mp3");
    let file2 = VFile::new("testv.mp4");
    let output = VFile::new("output2.mp4");
    let mut session = (file1, file2).mux(
        output,
        CodecConfig::builder()
            .vconf(VConf::builder().format(VFormat::H264).build())
            .build(),
    );
    assert_eq!(session.conf().unwrap().vconf().format(), Some(VFormat::H264));
    run_to_end(&mut session);
    assert_eq!(session.stage(), Stage::Done);
    assert_eq!(session.into_output().path_url, "output2.mp4");
}

#[test]
fn transcoding_run_takes_video_of_one_file_and_audio_of_the_other() {
    let mut session = (VFile::new("v.mp4"), AFile::new("a.mp3"))
        .mux(VFile::new("out.mp4"), CodecConfig::default());
    assert_eq!(session.loop_mode(), LoopMode::Transcode);
    let steps = run_to_end(&mut session);
    assert_eq!(
        steps,
        vec![
            "OpenOutput",
            "OpenInput { source: Video }",
            "AddStream { source: Video, input: 0, output: 0 }",
            "OpenInput { source: Audio }",
            "AddStream { source: Audio, input: 0, output: 1 }",
            "WriteHeader",
            "Run",
            "WriteTrailer",
            "Done",
        ]
    );
    assert_eq!(session.video_map().target(0), Some(0));
    assert_eq!(session.video_map().target(1), None);
    assert_eq!(session.audio_map().target(0), Some(1));
}

#[test]
fn copying_run_takes_every_stream_in_order() {
    let mut session = (AFile::new("a.mp3"), VFile::new("v.mp4")).simple_mux(VFile::new("out.mp4"));
    assert_eq!(session.loop_mode(), LoopMode::Copy);
    assert_eq!(session.video().path_url, "v.mp4");
    let steps = run_to_end(&mut session);
    assert_eq!(
        steps,
        vec![
            "OpenOutput",
            "OpenInput { source: Video }",
            "AddStream { source: Video, input: 0, output: 0 }",
            "AddStream { source: Video, input: 1, output: 1 }",
            "OpenInput { source: Audio }",
            "AddStream { source: Audio, input: 0, output: 2 }",
            "WriteHeader",
            "Run",
            "WriteTrailer",
            "Done",
        ]
    );
}

#[test]
fn copying_skips_data_streams() {
    let mut session = (VFile::new("v.mkv"), AFile::new("a.mka")).simple_mux(VFile::new("o.mkv"));
    assert!(matches!(session.begin(), SessionAction::OpenOutput));
    assert!(matches!(
        session.step(SessionEvent::Success),
        SessionAction::OpenInput { source: Source::Video }
    ));
    let a = session.step(SessionEvent::Opened(vec![
        MediaType::Data,
        MediaType::Subtitle,
        MediaType::Attachment,
        MediaType::Video,
    ]));
    assert!(matches!(a, SessionAction::AddStream { source: Source::Video, input: 1, output: 0 }));
    let a = session.step(SessionEvent::Success);
    assert!(matches!(a, SessionAction::AddStream { source: Source::Video, input: 3, output: 1 }));
    let a = session.step(SessionEvent::Success);
    assert!(matches!(a, SessionAction::OpenInput { source: Source::Audio }));
    let a = session.step(SessionEvent::Opened(vec![MediaType::Unknown]));
    assert!(matches!(a, SessionAction::WriteHeader));
}

#[test]
fn video_error_takes_precedence_over_audio_error() {
    let mut session = (VFile::new("v.mp4"), AFile::new("a.mp3")).simple_mux(VFile::new("o.mp4"));
    session.begin();
    session.step(SessionEvent::Success);
    session.step(SessionEvent::Opened(vec![]));
    session.step(SessionEvent::Opened(vec![]));
    let a = session.step(SessionEvent::Success);
    assert!(matches!(a, SessionAction::Run));
    let a = session.step(SessionEvent::Ran {
        video: Err(AVMuxError::Invalid),
        audio: Err(AVMuxError::Ffmpeg(FfmpegError::Exit)),
    });
    assert!(matches!(a, SessionAction::Fail(AVMuxError::Invalid)));
    assert_eq!(session.stage(), Stage::Failed);
}

#[test]
fn audio_error_fails_the_run_after_a_good_video() {
    let mut session = (VFile::new("v.mp4"), AFile::new("a.mp3")).simple_mux(VFile::new("o.mp4"));
    session.begin();
    session.step(SessionEvent::Success);
    session.step(SessionEvent::Opened(vec![]));
    session.step(SessionEvent::Opened(vec![]));
    session.step(SessionEvent::Success);
    let a = session.step(SessionEvent::Ran {
        video: Ok(()),
        audio: Err(AVMuxError::Ffmpeg(FfmpegError::Exit)),
    });
    assert!(matches!(a, SessionAction::Fail(AVMuxError::Ffmpeg(FfmpegError::Exit))));
}

#[test]
fn failed_step_ends_the_run_with_its_error() {
    let mut session = (VFile::new("v.mp4"), AFile::new("a.mp3")).mux(VFile::new("o.mp4"), CodecConfig::default());
    session.begin();
    let a = session.step(SessionEvent::Failure(AVMuxError::CodecNotFound("x".to_string())));
    match a {
        SessionAction::Fail(AVMuxError::CodecNotFound(m)) => assert_eq!(m, "x"),
        other => panic!("unexpected {:?}", other),
    }
    assert_eq!(session.stage(), Stage::Failed);
}

#[test]
fn file_order_does_not_change_the_run() {
    let mut one = (VFile::new("v.mp4"), AFile::new("a.mp3")).mux(VFile::new("o.mp4"), CodecConfig::default());
    let mut other = (AFile::new("a.mp3"), VFile::new("v.mp4")).mux(VFile::new("o.mp4"), CodecConfig::default());
    assert_eq!(one.video().path_url, other.video().path_url);
    assert_eq!(one.audio().path_url, other.audio().path_url);
    assert_eq!(run_to_end(&mut one), run_to_end(&mut other));
}
