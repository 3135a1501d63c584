use avmux::codec::{AConf, VConf};
use avmux::media::{AudioSource, MediaType, Rational, VideoCodec, VideoSource};
use avmux::plan::{
    audio_encoder_not_found, decoder_not_found, first_sample_format, nvenc_encoder, plan_audio_encoder,
    plan_video_encoder, select_streams, unsupported_video, video_encoder_not_found, AudioCodec,
    ChannelLayoutChoice, NvencEncoder, Selection,
};
use avmux::{AFormat, AVMuxError, VFormat};

fn source(codec: VideoCodec) -> VideoSource {
    VideoSource {
        codec,
        codec_name: format!("{:?}", codec),
        bit_rate: 4_000_000,
        width: 1920,
        height: 1080,
    }
}

#[test]
fn copy_selection_takes_video_audio_and_subtitles() {
    let media = vec![
        MediaType::Video,
        MediaType::Data,
        MediaType::Audio,
        MediaType::Subtitle,
        MediaType::Attachment,
        MediaType::Unknown,
    ];
    let map = select_streams(Selection::Copy, &media, 2);
    assert_eq!(map.len(), 6);
    assert_eq!(map.added(), 3);
    assert_eq!(map.target(0), Some(2));
    assert_eq!(map.target(1), None);
    assert_eq!(map.target(2), Some(3));
    assert_eq!(map.target(3), Some(4));
    assert_eq!(map.target(4), None);
    assert_eq!(map.target(5), None);
    assert_eq!(map.target(6), None);
}

#[test]
fn transcode_selection_takes_one_kind() {
    let media = vec![MediaType::Audio, MediaType::Video, MediaType::Video];
    let v = select_streams(Selection::Video, &media, 0);
    assert_eq!(v.added(), 2);
    assert_eq!(v.target(1), Some(0));
    assert_eq!(v.target(2), Some(1));
    assert_eq!(v.target(0), None);
    let a = select_streams(Selection::Audio, &media, 2);
    assert_eq!(a.added(), 1);
    assert_eq!(a.target(0), Some(2));
}

#[test]
fn encoder_follows_configured_format() {
    assert_eq!(nvenc_encoder(Some(VFormat::H264), VideoCodec::Other), Some(NvencEncoder::H264));
    assert_eq!(nvenc_encoder(Some(VFormat::HEVC), VideoCodec::H264), Some(NvencEncoder::Hevc));
    assert_eq!(nvenc_encoder(Some(VFormat::AV1), VideoCodec::HEVC), Some(NvencEncoder::Av1));
    assert_eq!(nvenc_encoder(None, VideoCodec::HEVC), Some(NvencEncoder::Hevc));
    assert_eq!(nvenc_encoder(None, VideoCodec::AV1), Some(NvencEncoder::Av1));
    assert_eq!(nvenc_encoder(None, VideoCodec::Other), None);
    assert_eq!(NvencEncoder::H264.name(), "h264_nvenc");
    assert_eq!(NvencEncoder::Hevc.name(), "hevc_nvenc");
    assert_eq!(NvencEncoder::Av1.name(), "av1_nvenc");
}

#[test]
fn video_plan_keeps_source_properties_by_default() {
    let s = plan_video_encoder(&VConf::default(), &source(VideoCodec::H264), "v.mp4").unwrap();
    assert_eq!(s.encoder, NvencEncoder::H264);
    assert_eq!(s.bit_rate, 4_000_000);
    assert_eq!(s.gop_size, -1);
    assert_eq!((s.width, s.height), (1920, 1080));
}

#[test]
fn video_plan_takes_configured_properties() {
    let conf = VConf::builder().bitrate(1000).size((640, 360)).gop(30).format(VFormat::AV1).build();
    let s = plan_video_encoder(&conf, &source(VideoCodec::Other), "v.mp4").unwrap();
    assert_eq!(s.encoder, NvencEncoder::Av1);
    assert_eq!(s.bit_rate, 1000);
    assert_eq!(s.gop_size, 30);
    assert_eq!((s.width, s.height), (640, 360));
}

#[test]
fn video_plan_rejects_unsupported_codec() {
    let mut src = source(VideoCodec::Other);
    src.codec_name = "MPEG4".to_string();
    match plan_video_encoder(&VConf::default(), &src, "in.avi") {
        Err(AVMuxError::CodecNotFound(m)) => assert_eq!(
            m,
            "Encoder codec id MPEG4 of video (in.avi) is not supported by NVIDIA\n\n                            The default output codec is the same as the source video, please set output format in CodecConf"
        ),
        other => panic!("unexpected {:?}", other),
    }
    assert!(matches!(unsupported_video("VP9", "x"), AVMuxError::CodecNotFound(_)));
}

#[test]
fn error_messages() {
    match decoder_not_found("H264", false, "v.mp4") {
        AVMuxError::CodecNotFound(m) => assert_eq!(m, "Decoder id H264 not found for video v.mp4"),
        other => panic!("unexpected {:?}", other),
    }
    match decoder_not_found("MP3", true, "a.mp3") {
        AVMuxError::CodecNotFound(m) => assert_eq!(m, "Decoder id MP3 not found for audio a.mp3"),
        other => panic!("unexpected {:?}", other),
    }
    match video_encoder_not_found(NvencEncoder::Hevc, "v.mp4") {
        AVMuxError::CodecNotFound(m) => assert_eq!(m, "Encoder hevc_nvenc not found for video v.mp4"),
        other => panic!("unexpected {:?}", other),
    }
    let src = AudioSource { codec_name: "MP3".to_string(), sample_rate: 44100 };
    match audio_encoder_not_found(AudioCodec::Source, &src, "a.mp3") {
        AVMuxError::CodecNotFound(m) => assert_eq!(m, "Encoder id MP3 not found for audio a.mp3"),
        other => panic!("unexpected {:?}", other),
    }
    match audio_encoder_not_found(AudioCodec::Flac, &src, "a.mp3") {
        AVMuxError::CodecNotFound(m) => assert_eq!(m, "Encoder id FLAC not found for audio a.mp3"),
        other => panic!("unexpected {:?}", other),
    }
}

#[test]
fn audio_plan_counts_time_in_samples() {
    let s = plan_audio_encoder(&AConf::default(), 44100);
    assert_eq!(s.codec, AudioCodec::Source);
    assert_eq!(s.sample_rate, 44100);
    assert_eq!(s.channels, ChannelLayoutChoice::Source);
    assert_eq!(s.time_base, Rational { num: 1, den: 44100 });
    let conf = AConf::builder().nb_channels(1).sample_rate(48000).format(AFormat::AAC).build();
    let s = plan_audio_encoder(&conf, 44100);
    assert_eq!(s.codec, AudioCodec::Aac);
    assert_eq!(s.sample_rate, 48000);
    assert_eq!(s.channels, ChannelLayoutChoice::Default { channels: 1 });
    assert_eq!(s.time_base, Rational { num: 1, den: 48000 });
}

#[test]
fn sample_format_is_the_first_supported() {
    assert_eq!(first_sample_format(Some(3)).unwrap(), 3);
    assert!(matches!(first_sample_format::<i32>(None), Err(AVMuxError::Invalid)));
}
