//! The streams the output takes, and the settings of its encoders.

use vstd::prelude::*;
use vstd::string::StringExecFns;

use crate::codec::{AConf, AConfSpec, AFormat, VConf, VConfSpec, VFormat};
use crate::error::AVMuxError;
use crate::media::{AudioSource, MediaType, Rational, VideoCodec, VideoSource};

verus! {

/// Which source streams go to the output.
#[derive(Debug, Clone, Copy, PartialEq, Eq, Structural)]
pub enum Selection {
    /// Copying without re-encoding: video, audio and subtitle streams.
    Copy,
    /// Re-encoding the video file: its video streams.
    Video,
    /// Re-encoding the audio file: its audio streams.
    Audio,
}

/// Whether a stream of kind `m` goes to the output under `sel`.
pub open spec fn selects(sel: Selection, m: MediaType) -> bool {
    match sel {
        Selection::Copy => m is Video || m is Audio || m is Subtitle,
        Selection::Video => m is Video,
        Selection::Audio => m is Audio,
    }
}

/// Number of the streams of `media` that go to the output under `sel`.
pub open spec fn count_selected(sel: Selection, media: Seq<MediaType>) -> nat
    decreases media.len(),
{
    if media.len() == 0 {
        0
    } else {
        count_selected(sel, media.drop_last()) + if selects(sel, media.last()) {
            1nat
        } else {
            0nat
        }
    }
}

/// The output stream of each source stream: the selected streams take the
/// output indices from `first` on, one each, in the order of the source.
pub open spec fn selection_target(sel: Selection, media: Seq<MediaType>, first: int, i: int) -> Option<
    usize,
> {
    if selects(sel, media[i]) {
        Some((first + count_selected(sel, media.take(i))) as usize)
    } else {
        None
    }
}

/// Which output stream each stream of one source file goes to.
#[derive(Debug, Clone)]
pub struct StreamMap {
    targets: Vec<Option<usize>>,
    added: usize,
}

impl View for StreamMap {
    type V = Seq<Option<usize>>;

    closed spec fn view(&self) -> Seq<Option<usize>> {
        self.targets@
    }
}

/// One more stream counts once more if it is selected.
pub proof fn lemma_count_take_step(sel: Selection, media: Seq<MediaType>, i: int)
    requires
        0 <= i < media.len(),
    ensures
        count_selected(sel, media.take(i + 1)) == count_selected(sel, media.take(i)) + if selects(
            sel,
            media[i],
        ) {
            1nat
        } else {
            0nat
        },
{
    assert(media.take(i + 1).drop_last() =~= media.take(i));
}

/// A longer prefix counts at least as many and at most as many more streams
/// as it is longer.
pub proof fn lemma_count_take_mono(sel: Selection, media: Seq<MediaType>, i: int, j: int)
    requires
        0 <= i <= j <= media.len(),
    ensures
        count_selected(sel, media.take(i)) <= count_selected(sel, media.take(j)),
        count_selected(sel, media.take(j)) <= count_selected(sel, media.take(i)) + (j - i),
    decreases j - i,
{
    if i < j {
        lemma_count_take_step(sel, media, j - 1);
        lemma_count_take_mono(sel, media, i, j - 1);
    }
}

/// The map of the streams of a source file with kinds `media`, whose
/// selected streams take output indices from `first` on.
pub fn select_streams(sel: Selection, media: &Vec<MediaType>, first: usize) -> (m: StreamMap)
    requires
        first + media.len() <= usize::MAX,
    ensures
        m@.len() == media@.len(),
        forall|i: int| 0 <= i < media@.len() ==> #[trigger] m@[i] == selection_target(sel, media@, first as int, i),
        m.spec_added() == count_selected(sel, media@),
        forall|i: int|
            0 <= i < media@.len() ==> (#[trigger] m@[i] is Some <==> match sel {
                Selection::Copy => media@[i] == MediaType::Video || media@[i] == MediaType::Audio
                    || media@[i] == MediaType::Subtitle,
                Selection::Video => media@[i] == MediaType::Video,
                Selection::Audio => media@[i] == MediaType::Audio,
            }),
{
    let n = media.len();
    let mut targets: Vec<Option<usize>> = Vec::new();
    let mut k: usize = 0;
    for i in 0..n
        invariant
            n == media@.len(),
            first + n <= usize::MAX,
            targets@.len() == i,
            k == count_selected(sel, media@.take(i as int)),
            k <= i,
            forall|j: int| 0 <= j < i ==> #[trigger] targets@[j] == selection_target(sel, media@, first as int, j),
    {
        proof {
            lemma_count_take_step(sel, media@, i as int);
        }
        let m = media[i];
        let chosen = match sel {
            Selection::Copy => m == MediaType::Video || m == MediaType::Audio || m == MediaType::Subtitle,
            Selection::Video => m == MediaType::Video,
            Selection::Audio => m == MediaType::Audio,
        };
        if chosen {
            targets.push(Some(first + k));
            k = k + 1;
        } else {
            targets.push(None);
        }
    }
    proof {
        assert(media@.take(n as int) =~= media@);
    }
    StreamMap { targets, added: k }
}

impl StreamMap {
    /// The map of a file not opened yet: no streams.
    pub fn empty() -> (m: StreamMap)
        ensures
            m@ == Seq::<Option<usize>>::empty(),
            m.spec_added() == 0,
    {
        StreamMap { targets: Vec::new(), added: 0 }
    }

    /// Number of output streams the map adds.
    pub closed spec fn spec_added(&self) -> nat {
        self.added as nat
    }

    /// Number of output streams the map adds.
    pub fn added(&self) -> (r: usize)
        ensures
            r == self.spec_added(),
    {
        self.added
    }

    /// Number of streams of the source file.
    pub fn len(&self) -> (r: usize)
        ensures
            r == self@.len(),
    {
        self.targets.len()
    }

    /// The output stream of source stream `input`, if it goes to the output.
    pub fn target(&self, input: usize) -> (r: Option<usize>)
        ensures
            r == (if input < self@.len() {
                self@[input as int]
            } else {
                None
            }),
    {
        if input < self.targets.len() {
            self.targets[input]
        } else {
            None
        }
    }
}

/// A source stream goes to the output exactly when its kind is one the
/// selection takes: video, audio or subtitles when copying; only video from
/// the video file and only audio from the audio file when re-encoding.
pub proof fn law_selection_by_kind(sel: Selection, media: Seq<MediaType>, first: int, i: int)
    requires
        0 <= i < media.len(),
    ensures
        sel is Copy ==> (selection_target(sel, media, first, i) is Some <==> (media[i]
            == MediaType::Video || media[i] == MediaType::Audio || media[i] == MediaType::Subtitle)),
        sel is Video ==> (selection_target(sel, media, first, i) is Some <==> media[i]
            == MediaType::Video),
        sel is Audio ==> (selection_target(sel, media, first, i) is Some <==> media[i]
            == MediaType::Audio),
{
}

/// Two source streams never share an output stream: the selected streams
/// take strictly increasing output indices, in the order of the source.
pub proof fn law_targets_increase(sel: Selection, media: Seq<MediaType>, first: int, i: int, j: int)
    requires
        0 <= first,
        first + media.len() <= usize::MAX,
        0 <= i < j < media.len(),
        selects(sel, media[i]),
        selects(sel, media[j]),
    ensures
        selection_target(sel, media, first, i)->0 < selection_target(sel, media, first, j)->0,
{
    lemma_count_take_step(sel, media, i);
    lemma_count_take_mono(sel, media, i + 1, j);
    lemma_count_take_mono(sel, media, 0, j);
    lemma_count_take_mono(sel, media, 0, i);
}

/// The output streams a source file fills are exactly `first ..
/// first + count`: each of them is the target of one selected stream.
pub proof fn law_targets_fill_range(sel: Selection, media: Seq<MediaType>, first: int, o: int)
    requires
        0 <= first,
        first + media.len() <= usize::MAX,
        first <= o < first + count_selected(sel, media),
    ensures
        exists|i: int| 0 <= i < media.len() && #[trigger] selection_target(sel, media, first, i) == Some(o as usize),
    decreases media.len(),
{
    let n = media.len() as int;
    assert(media.take(n) =~= media);
    let prefix = media.drop_last();
    lemma_count_take_step(sel, media, n - 1);
    assert(media.take(n - 1) =~= prefix);
    if o < first + count_selected(sel, prefix) {
        law_targets_fill_range(sel, prefix, first, o);
        let i = choose|i: int| 0 <= i < prefix.len() && #[trigger] selection_target(sel, prefix, first, i) == Some(o as usize);
        assert(prefix.take(i) =~= media.take(i));
        assert(selection_target(sel, media, first, i) == Some(o as usize));
    } else {
        lemma_count_take_mono(sel, media, 0, n - 1);
        assert(selection_target(sel, media, first, n - 1) == Some(o as usize));
    }
}

/// The NVENC encoders video is re-encoded with.
#[derive(Debug, Clone, Copy, PartialEq, Eq, Structural)]
pub enum NvencEncoder {
    H264,
    Hevc,
    Av1,
}

/// FFmpeg's name of an NVENC encoder.
pub open spec fn nvenc_name(e: NvencEncoder) -> Seq<char> {
    match e {
        NvencEncoder::H264 => "h264_nvenc"@,
        NvencEncoder::Hevc => "hevc_nvenc"@,
        NvencEncoder::Av1 => "av1_nvenc"@,
    }
}

impl NvencEncoder {
    /// FFmpeg's name of the encoder.
    pub fn name(&self) -> (r: &'static str)
        ensures
            r@ == nvenc_name(*self),
    {
        match self {
            NvencEncoder::H264 => "h264_nvenc",
            NvencEncoder::Hevc => "hevc_nvenc",
            NvencEncoder::Av1 => "av1_nvenc",
        }
    }
}

/// The encoder for the output video: the one of the configured format, or,
/// without one, the one of the source's codec, if NVENC has it.
pub open spec fn spec_nvenc_encoder(format: Option<VFormat>, codec: VideoCodec) -> Option<NvencEncoder> {
    match format {
        Some(VFormat::H264) => Some(NvencEncoder::H264),
        Some(VFormat::HEVC) => Some(NvencEncoder::Hevc),
        Some(VFormat::AV1) => Some(NvencEncoder::Av1),
        None => match codec {
            VideoCodec::H264 => Some(NvencEncoder::H264),
            VideoCodec::HEVC => Some(NvencEncoder::Hevc),
            VideoCodec::AV1 => Some(NvencEncoder::Av1),
            VideoCodec::Other => None,
        },
    }
}

/// Chooses the encoder for the output video.
pub fn nvenc_encoder(format: Option<VFormat>, codec: VideoCodec) -> (r: Option<NvencEncoder>)
    ensures
        r == spec_nvenc_encoder(format, codec),
        format == Some(VFormat::H264) ==> r == Some(NvencEncoder::H264),
        format == Some(VFormat::HEVC) ==> r == Some(NvencEncoder::Hevc),
        format == Some(VFormat::AV1) ==> r == Some(NvencEncoder::Av1),
{
    match format {
        Some(VFormat::H264) => Some(NvencEncoder::H264),
        Some(VFormat::HEVC) => Some(NvencEncoder::Hevc),
        Some(VFormat::AV1) => Some(NvencEncoder::Av1),
        None => match codec {
            VideoCodec::H264 => Some(NvencEncoder::H264),
            VideoCodec::HEVC => Some(NvencEncoder::Hevc),
            VideoCodec::AV1 => Some(NvencEncoder::Av1),
            VideoCodec::Other => None,
        },
    }
}

/// A configured output format alone decides the encoder, whatever the
/// source's codec: H.264 gives `h264_nvenc`, HEVC `hevc_nvenc`, AV1
/// `av1_nvenc`; without one the source's codec decides, and only H.264, HEVC
/// and AV1 sources have an encoder.
pub proof fn law_format_decides_encoder(f: VFormat, c1: VideoCodec, c2: VideoCodec)
    ensures
        spec_nvenc_encoder(Some(f), c1) == spec_nvenc_encoder(Some(f), c2),
        spec_nvenc_encoder(Some(f), c1) is Some,
        nvenc_name(spec_nvenc_encoder(Some(f), c1)->0) == match f {
            VFormat::H264 => "h264_nvenc"@,
            VFormat::HEVC => "hevc_nvenc"@,
            VFormat::AV1 => "av1_nvenc"@,
        },
        spec_nvenc_encoder(None, c1) is Some <==> c1 != VideoCodec::Other,
        c1 == VideoCodec::H264 ==> spec_nvenc_encoder(None, c1) == Some(NvencEncoder::H264),
        c1 == VideoCodec::HEVC ==> spec_nvenc_encoder(None, c1) == Some(NvencEncoder::Hevc),
        c1 == VideoCodec::AV1 ==> spec_nvenc_encoder(None, c1) == Some(NvencEncoder::Av1),
{
}

/// The text of a missing decoder: `Decoder id {id} not found for {kind} {url}`.
pub open spec fn decoder_missing_text(codec_name: Seq<char>, kind: Seq<char>, url: Seq<char>) -> Seq<char> {
    "Decoder id "@ + codec_name + " not found for "@ + kind + " "@ + url
}

/// The error for a source stream whose codec has no decoder; `audio` tells
/// an audio stream from a video one.
pub fn decoder_not_found(codec_name: &str, audio: bool, url: &str) -> (r: AVMuxError)
    ensures
        r matches AVMuxError::CodecNotFound(msg) && msg@ == decoder_missing_text(
            codec_name@,
            if audio {
                "audio"@
            } else {
                "video"@
            },
            url@,
        ),
{
    let mut msg = "Decoder id ".to_owned();
    msg.append(codec_name);
    msg.append(" not found for ");
    if audio {
        msg.append("audio");
    } else {
        msg.append("video");
    }
    msg.append(" ");
    msg.append(url);
    AVMuxError::CodecNotFound(msg)
}

/// The text of a video codec NVENC cannot encode.
pub open spec fn unsupported_video_text(codec_name: Seq<char>, url: Seq<char>) -> Seq<char> {
    "Encoder codec id "@ + codec_name + " of video ("@ + url
        + ") is not supported by NVIDIA\n\n                            The default output codec is the same as the source video, please set output format in CodecConf"@
}

/// The error for a source video whose codec NVENC cannot encode while no
/// output format is configured.
pub fn unsupported_video(codec_name: &str, url: &str) -> (r: AVMuxError)
    ensures
        r matches AVMuxError::CodecNotFound(msg) && msg@ == unsupported_video_text(codec_name@, url@),
{
    let mut msg = "Encoder codec id ".to_owned();
    msg.append(codec_name);
    msg.append(" of video (");
    msg.append(url);
    msg.append(
        ") is not supported by NVIDIA\n\n                            The default output codec is the same as the source video, please set output format in CodecConf",
    );
    AVMuxError::CodecNotFound(msg)
}

/// The text of a missing video encoder: `Encoder {name} not found for video {url}`.
pub open spec fn video_encoder_missing_text(e: NvencEncoder, url: Seq<char>) -> Seq<char> {
    "Encoder "@ + nvenc_name(e) + " not found for video "@ + url
}

/// The error for an NVENC encoder that FFmpeg does not have.
pub fn video_encoder_not_found(e: NvencEncoder, url: &str) -> (r: AVMuxError)
    ensures
        r matches AVMuxError::CodecNotFound(msg) && msg@ == video_encoder_missing_text(e, url@),
{
    let mut msg = "Encoder ".to_owned();
    msg.append(e.name());
    msg.append(" not found for video ");
    msg.append(url);
    AVMuxError::CodecNotFound(msg)
}

/// `o`'s value, or `d` without one.
pub open spec fn or_else<T>(o: Option<T>, d: T) -> T {
    match o {
        Some(v) => v,
        None => d,
    }
}

/// The settings of the video encoder.
#[derive(Debug, Clone, Copy, PartialEq, Eq, Structural)]
pub struct VideoEncoderSettings {
    /// The encoder.
    pub encoder: NvencEncoder,
    /// Output bitrate.
    pub bit_rate: i64,
    /// Output gop size; `-1` leaves it to the encoder.
    pub gop_size: i32,
    /// Output frame width.
    pub width: i32,
    /// Output frame height.
    pub height: i32,
}

/// The settings of the encoder for a source video stream under `conf`: each
/// configured property, else the source's; a gop size left to the encoder.
pub open spec fn video_settings(conf: VConfSpec, source: VideoSource, e: NvencEncoder) -> VideoEncoderSettings {
    let (width, height) = or_else(conf.size, (source.width, source.height));
    VideoEncoderSettings {
        encoder: e,
        bit_rate: or_else(conf.bitrate, source.bit_rate),
        gop_size: or_else(conf.gop, -1i32),
        width,
        height,
    }
}

/// Decides the video encoder and its settings for the source stream
/// `source` of the video file at `url`.
pub fn plan_video_encoder(conf: &VConf, source: &VideoSource, url: &str) -> (r: Result<
    VideoEncoderSettings,
    AVMuxError,
>)
    ensures
        match spec_nvenc_encoder(conf@.format, source.codec) {
            Some(e) => r == Ok::<VideoEncoderSettings, AVMuxError>(video_settings(conf@, *source, e)),
            None => r matches Err(AVMuxError::CodecNotFound(msg)) && msg@ == unsupported_video_text(
                source.codec_name@,
                url@,
            ),
        },
{
    let e = match nvenc_encoder(conf.format(), source.codec) {
        Some(e) => e,
        None => return Err(unsupported_video(source.codec_name.as_str(), url)),
    };
    let (width, height) = match conf.size() {
        Some(size) => size,
        None => (source.width, source.height),
    };
    let bit_rate = match conf.bitrate() {
        Some(b) => b,
        None => source.bit_rate,
    };
    let gop_size = match conf.gop() {
        Some(g) => g,
        None => -1,
    };
    Ok(VideoEncoderSettings { encoder: e, bit_rate, gop_size, width, height })
}

/// The codec the audio is encoded with.
#[derive(Debug, Clone, Copy, PartialEq, Eq, Structural)]
pub enum AudioCodec {
    /// The codec of the source stream.
    Source,
    /// AAC.
    Aac,
    /// FLAC.
    Flac,
}

/// The channel layout of the output audio.
#[derive(Debug, Clone, Copy, PartialEq, Eq, Structural)]
pub enum ChannelLayoutChoice {
    /// FFmpeg's default layout for this number of channels.
    Default { channels: i32 },
    /// The layout of the source stream.
    Source,
}

/// The settings of the audio encoder.
#[derive(Debug, Clone, Copy, PartialEq, Eq, Structural)]
pub struct AudioEncoderSettings {
    /// The codec.
    pub codec: AudioCodec,
    /// Output sample rate.
    pub sample_rate: i32,
    /// Output channel layout.
    pub channels: ChannelLayoutChoice,
    /// Time base of the encoder and the output stream: one sample.
    pub time_base: Rational,
}

/// The settings of the encoder for a source audio stream with sample rate
/// `source_rate` under `conf`: each configured property, else the source's,
/// and a clock that counts samples.
pub open spec fn audio_settings(conf: AConfSpec, source_rate: i32) -> AudioEncoderSettings {
    let rate = or_else(conf.sample_rate, source_rate);
    AudioEncoderSettings {
        codec: match conf.format {
            Some(AFormat::AAC) => AudioCodec::Aac,
            Some(AFormat::FLAC) => AudioCodec::Flac,
            None => AudioCodec::Source,
        },
        sample_rate: rate,
        channels: match conf.nb_channels {
            Some(n) => ChannelLayoutChoice::Default { channels: n },
            None => ChannelLayoutChoice::Source,
        },
        time_base: Rational { num: 1, den: rate },
    }
}

/// Decides the settings of the audio encoder for a source stream with
/// sample rate `source_rate`.
pub fn plan_audio_encoder(conf: &AConf, source_rate: i32) -> (r: AudioEncoderSettings)
    ensures
        r == audio_settings(conf@, source_rate),
        conf@.format == Some(AFormat::FLAC) ==> r.codec == AudioCodec::Flac,
        conf@.format == Some(AFormat::AAC) ==> r.codec == AudioCodec::Aac,
        conf@.format is None ==> r.codec == AudioCodec::Source,
        r.time_base == (Rational { num: 1, den: r.sample_rate }),
{
    let codec = match conf.format() {
        Some(AFormat::AAC) => AudioCodec::Aac,
        Some(AFormat::FLAC) => AudioCodec::Flac,
        None => AudioCodec::Source,
    };
    let sample_rate = match conf.sample_rate() {
        Some(r) => r,
        None => source_rate,
    };
    let channels = match conf.nb_channels() {
        Some(n) => ChannelLayoutChoice::Default { channels: n },
        None => ChannelLayoutChoice::Source,
    };
    AudioEncoderSettings { codec, sample_rate, channels, time_base: Rational { num: 1, den: sample_rate } }
}

/// The audio is encoded in the configured format, or in the source's codec
/// without one; at the configured sample rate, or the source's; with the
/// default layout of the configured number of channels, or the source's
/// layout; and its clock counts one sample per tick.
pub proof fn law_audio_settings_follow_config(conf: AConfSpec, source_rate: i32)
    ensures
        ({
            let r = audio_settings(conf, source_rate);
            &&& conf.format == Some(AFormat::FLAC) ==> r.codec == AudioCodec::Flac
            &&& conf.format == Some(AFormat::AAC) ==> r.codec == AudioCodec::Aac
            &&& conf.format is None ==> r.codec == AudioCodec::Source
            &&& conf.sample_rate matches Some(n) ==> r.sample_rate == n
            &&& conf.sample_rate is None ==> r.sample_rate == source_rate
            &&& conf.nb_channels matches Some(n) ==> r.channels == (ChannelLayoutChoice::Default { channels: n })
            &&& conf.nb_channels is None ==> r.channels == ChannelLayoutChoice::Source
            &&& r.time_base.num == 1 && r.time_base.den == r.sample_rate
        }),
{
}

/// The name of the codec id the audio is encoded with, as FFmpeg's
/// `codec::Id` prints it.
pub open spec fn audio_codec_name(codec: AudioCodec, source_name: Seq<char>) -> Seq<char> {
    match codec {
        AudioCodec::Source => source_name,
        AudioCodec::Aac => "AAC"@,
        AudioCodec::Flac => "FLAC"@,
    }
}

/// The text of a missing audio encoder: `Encoder id {id} not found for audio {url}`.
pub open spec fn audio_encoder_missing_text(codec_name: Seq<char>, url: Seq<char>) -> Seq<char> {
    "Encoder id "@ + codec_name + " not found for audio "@ + url
}

/// The error for an audio codec that FFmpeg has no encoder for.
pub fn audio_encoder_not_found(codec: AudioCodec, source: &AudioSource, url: &str) -> (r: AVMuxError)
    ensures
        r matches AVMuxError::CodecNotFound(msg) && msg@ == audio_encoder_missing_text(
            audio_codec_name(codec, source.codec_name@),
            url@,
        ),
{
    let mut msg = "Encoder id ".to_owned();
    match codec {
        AudioCodec::Source => msg.append(source.codec_name.as_str()),
        AudioCodec::Aac => msg.append("AAC"),
        AudioCodec::Flac => msg.append("FLAC"),
    }
    msg.append(" not found for audio ");
    msg.append(url);
    AVMuxError::CodecNotFound(msg)
}

/// The sample format of the audio encoder: the first it supports; an
/// encoder that names none makes the source invalid.
pub fn first_sample_format<T>(first: Option<T>) -> (r: Result<T, AVMuxError>)
    ensures
        match first {
            Some(f) => r == Ok::<T, AVMuxError>(f),
            None => r matches Err(AVMuxError::Invalid),
        },
{
    match first {
        Some(f) => Ok(f),
        None => Err(AVMuxError::Invalid),
    }
}

} // verus!
