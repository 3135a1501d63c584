//! Mux trait

use vstd::prelude::*;

use crate::codec::{CodecConfig, CodecConfigSpec};
use crate::demux::{lemma_next_mapped, next_mapped, LoopMode};
use crate::error::AVMuxError;
use crate::file::{AFile, VFile};
use crate::media::MediaType;
use crate::plan::{count_selected, select_streams, selection_target, Selection, StreamMap};

verus! {

/// One of the two source files.
#[derive(Debug, Clone, Copy, PartialEq, Eq, Structural)]
pub enum Source {
    /// The file that provides the video.
    Video,
    /// The file that provides the audio.
    Audio,
}

/// Where a muxing run stands.
#[derive(Debug, Clone, Copy, PartialEq, Eq, Structural)]
pub enum Stage {
    /// Nothing done yet.
    Start,
    /// Waiting for the output file to be opened.
    OpeningOutput,
    /// Waiting for a source file to be opened.
    OpeningInput { source: Source },
    /// Waiting for the output stream of source stream `input` to be added.
    Adding { source: Source, input: usize },
    /// Waiting for the output header to be written.
    WritingHeader,
    /// Waiting for both source files to be read and muxed.
    Running,
    /// Waiting for the output trailer to be written.
    WritingTrailer,
    /// The output is complete.
    Done,
    /// A step failed; the run is over.
    Failed,
}

/// The next step of a muxing run.
#[derive(Debug)]
pub enum SessionAction {
    /// Open the output file for writing.
    OpenOutput,
    /// Open a source file for reading, and report the kinds of its streams.
    OpenInput { source: Source },
    /// Add output stream `output` for source stream `input`: with the
    /// source's parameters when copying, else with a decoder and an encoder
    /// set up as the plan says.
    AddStream { source: Source, input: usize, output: usize },
    /// Write the output header.
    WriteHeader,
    /// Read both source files, each on its own thread, each with a packet
    /// loop over its stream map, and report how both went.
    Run,
    /// Write the output trailer.
    WriteTrailer,
    /// The output file is complete.
    Done,
    /// The run failed with this error.
    Fail(AVMuxError),
}

/// How the last step went.
#[derive(Debug)]
pub enum SessionEvent {
    /// The step succeeded.
    Success,
    /// The source file was opened; its streams have these kinds, in order.
    Opened(Vec<MediaType>),
    /// Both source files were read: how the video one and the audio one went.
    Ran { video: Result<(), AVMuxError>, audio: Result<(), AVMuxError> },
    /// The step failed.
    Failure(AVMuxError),
}

/// The state of a muxing run as the specification sees it.
pub struct SessionState {
    pub stage: Stage,
    /// Number of output streams set so far.
    pub outputs: int,
    /// Output stream of each stream of the video file.
    pub video_map: Seq<Option<usize>>,
    /// Output stream of each stream of the audio file.
    pub audio_map: Seq<Option<usize>>,
}

/// The streams of `source` that a run selects: copyable ones, or, when
/// re-encoding, the video of the video file and the audio of the audio file.
pub open spec fn selection_of(transcode: bool, source: Source) -> Selection {
    if !transcode {
        Selection::Copy
    } else {
        match source {
            Source::Video => Selection::Video,
            Source::Audio => Selection::Audio,
        }
    }
}

/// The map of `source`.
pub open spec fn map_of(s: SessionState, source: Source) -> Seq<Option<usize>> {
    match source {
        Source::Video => s.video_map,
        Source::Audio => s.audio_map,
    }
}

/// Adds the output stream of the next selected stream of `source` from
/// `from` on; after the last one, opens the audio file or writes the header.
pub open spec fn add_from(s: SessionState, source: Source, from: int) -> (SessionState, SessionAction) {
    let map = map_of(s, source);
    let j = next_mapped(map, from);
    if j < map.len() {
        (
            SessionState { stage: Stage::Adding { source, input: j as usize }, ..s },
            SessionAction::AddStream { source, input: j as usize, output: map[j]->0 },
        )
    } else {
        match source {
            Source::Video => (
                SessionState { stage: Stage::OpeningInput { source: Source::Audio }, ..s },
                SessionAction::OpenInput { source: Source::Audio },
            ),
            Source::Audio => (
                SessionState { stage: Stage::WritingHeader, ..s },
                SessionAction::WriteHeader,
            ),
        }
    }
}

/// The state once `source`, whose streams have kinds `media`, is open: its
/// selected streams take the next output streams, in order.
pub open spec fn opened(transcode: bool, s: SessionState, source: Source, media: Seq<MediaType>) -> SessionState {
    let sel = selection_of(transcode, source);
    let map = Seq::new(media.len(), |i: int| selection_target(sel, media, s.outputs, i));
    SessionState {
        outputs: s.outputs + count_selected(sel, media),
        video_map: if source is Video { map } else { s.video_map },
        audio_map: if source is Audio { map } else { s.audio_map },
        ..s
    }
}

/// The transition of a muxing run on the outcome of its last step.
pub open spec fn session_transition(transcode: bool, s: SessionState, ev: SessionEvent) -> (
    SessionState,
    SessionAction,
) {
    match ev {
        SessionEvent::Failure(e) => (SessionState { stage: Stage::Failed, ..s }, SessionAction::Fail(e)),
        SessionEvent::Opened(media) => match s.stage {
            Stage::OpeningInput { source } => add_from(opened(transcode, s, source, media@), source, 0),
            _ => (s, SessionAction::Done),
        },
        SessionEvent::Ran { video, audio } => match video {
            Err(e) => (SessionState { stage: Stage::Failed, ..s }, SessionAction::Fail(e)),
            Ok(()) => match audio {
                Err(e) => (SessionState { stage: Stage::Failed, ..s }, SessionAction::Fail(e)),
                Ok(()) => (SessionState { stage: Stage::WritingTrailer, ..s }, SessionAction::WriteTrailer),
            },
        },
        SessionEvent::Success => match s.stage {
            Stage::OpeningOutput => (
                SessionState { stage: Stage::OpeningInput { source: Source::Video }, ..s },
                SessionAction::OpenInput { source: Source::Video },
            ),
            Stage::Adding { source, input } => add_from(s, source, input + 1),
            Stage::WritingHeader => (SessionState { stage: Stage::Running, ..s }, SessionAction::Run),
            Stage::WritingTrailer => (SessionState { stage: Stage::Done, ..s }, SessionAction::Done),
            _ => (s, SessionAction::Done),
        },
    }
}

/// The events a run in stage `stage` takes.
pub open spec fn session_answers(stage: Stage, ev: SessionEvent) -> bool {
    match ev {
        SessionEvent::Success => stage is OpeningOutput || stage is Adding || stage is WritingHeader
            || stage is WritingTrailer,
        SessionEvent::Opened(_) => stage is OpeningInput,
        SessionEvent::Ran { .. } => stage is Running,
        SessionEvent::Failure(_) => !(stage is Start || stage is Done || stage is Failed),
    }
}

/// A muxing run as the specification sees it.
pub struct SessionModel {
    /// The file that provides the video.
    pub video: VFile,
    /// The file that provides the audio.
    pub audio: AFile,
    /// The output file.
    pub output: VFile,
    /// The codec configuration when re-encoding; `None` when copying.
    pub conf: Option<CodecConfigSpec>,
    pub state: SessionState,
}

impl SessionModel {
    /// A run not started yet.
    pub open spec fn initial(video: VFile, audio: AFile, output: VFile, conf: Option<CodecConfigSpec>) -> SessionModel {
        SessionModel {
            video,
            audio,
            output,
            conf,
            state: SessionState {
                stage: Stage::Start,
                outputs: 0,
                video_map: Seq::empty(),
                audio_map: Seq::empty(),
            },
        }
    }

    /// The invariant of a run: the output streams set so far fit in a
    /// `usize`, and the stream being added is one of its file.
    pub open spec fn sound(self) -> bool {
        &&& 0 <= self.state.outputs <= usize::MAX
        &&& self.state.stage matches Stage::Adding { source, input } ==> input < map_of(
            self.state,
            source,
        ).len()
    }
}

/// A run of the muxer: what it does, step by step, to merge the video of
/// one file and the audio of another into an output file.
pub struct MuxSession {
    video: VFile,
    audio: AFile,
    output: VFile,
    conf: Option<CodecConfig>,
    stage: Stage,
    outputs: usize,
    video_map: StreamMap,
    audio_map: StreamMap,
}

impl View for MuxSession {
    type V = SessionModel;

    closed spec fn view(&self) -> SessionModel {
        SessionModel {
            video: self.video,
            audio: self.audio,
            output: self.output,
            conf: match self.conf {
                Some(c) => Some(c@),
                None => None,
            },
            state: SessionState {
                stage: self.stage,
                outputs: self.outputs as int,
                video_map: self.video_map@,
                audio_map: self.audio_map@,
            },
        }
    }
}

impl MuxSession {
    /// A run that copies the streams of `video` and `audio` into `output`,
    /// or, given `conf`, re-encodes the video of `video` and the audio of
    /// `audio`.
    pub fn new(video: VFile, audio: AFile, output: VFile, conf: Option<CodecConfig>) -> (s: MuxSession)
        ensures
            s@ == SessionModel::initial(
                video,
                audio,
                output,
                match conf {
                    Some(c) => Some(c@),
                    None => None,
                },
            ),
            s@.sound(),
    {
        MuxSession {
            video,
            audio,
            output,
            conf,
            stage: Stage::Start,
            outputs: 0,
            video_map: StreamMap::empty(),
            audio_map: StreamMap::empty(),
        }
    }

    /// Whether the run re-encodes.
    pub open spec fn transcodes(self) -> bool {
        self@.conf is Some
    }

    /// The file that provides the video.
    pub fn video(&self) -> (r: &VFile)
        ensures
            *r == self@.video,
    {
        &self.video
    }

    /// The file that provides the audio.
    pub fn audio(&self) -> (r: &AFile)
        ensures
            *r == self@.audio,
    {
        &self.audio
    }

    /// The output file.
    pub fn output(&self) -> (r: &VFile)
        ensures
            *r == self@.output,
    {
        &self.output
    }

    /// The codec configuration; `None` when copying.
    pub fn conf(&self) -> (r: Option<CodecConfig>)
        ensures
            match r {
                Some(c) => self@.conf == Some(c@),
                None => self@.conf is None,
            },
    {
        self.conf
    }

    /// Where the run stands.
    pub fn stage(&self) -> (r: Stage)
        ensures
            r == self@.state.stage,
    {
        self.stage
    }

    /// The output stream of each stream of the video file.
    pub fn video_map(&self) -> (r: &StreamMap)
        ensures
            r@ == self@.state.video_map,
    {
        &self.video_map
    }

    /// The output stream of each stream of the audio file.
    pub fn audio_map(&self) -> (r: &StreamMap)
        ensures
            r@ == self@.state.audio_map,
    {
        &self.audio_map
    }

    /// What the packet loops of the run do with the packets.
    pub fn loop_mode(&self) -> (r: LoopMode)
        ensures
            r == (if self@.conf is Some {
                LoopMode::Transcode
            } else {
                LoopMode::Copy
            }),
    {
        if self.conf.is_some() {
            LoopMode::Transcode
        } else {
            LoopMode::Copy
        }
    }

    /// The output file of a complete run.
    pub fn into_output(self) -> (r: VFile)
        ensures
            r == self@.output,
    {
        self.output
    }

    /// Starts the run: the output file is opened first.
    pub fn begin(&mut self) -> (a: SessionAction)
        requires
            old(self)@.state.stage is Start,
        ensures
            final(self)@ == (SessionModel {
                state: SessionState { stage: Stage::OpeningOutput, ..old(self)@.state },
                ..old(self)@
            }),
            a is OpenOutput,
            old(self)@.sound() ==> final(self)@.sound(),
    {
        self.stage = Stage::OpeningOutput;
        SessionAction::OpenOutput
    }

    /// Adds the output stream of the next selected stream of `source` from
    /// `from` on, or moves to the next stage.
    fn add_from(&mut self, source: Source, from: usize) -> (a: SessionAction)
        ensures
            (final(self)@.state, a) == add_from(old(self)@.state, source, from as int),
            final(self)@.video == old(self)@.video,
            final(self)@.audio == old(self)@.audio,
            final(self)@.output == old(self)@.output,
            final(self)@.conf == old(self)@.conf,
            old(self)@.sound() ==> final(self)@.sound(),
    {
        let n = self.map_for(source).len();
        proof {
            if from <= n {
                lemma_next_mapped(map_of(self@.state, source), from as int);
            }
        }
        let ghost map = map_of(self@.state, source);
        if from > n {
            proof {
                assert(next_mapped(map, from as int) == map.len());
            }
            return self.after_streams(source);
        }
        let mut j = from;
        while j < n && self.map_for(source).target(j).is_none()
            invariant
                n == map.len(),
                map == map_of(self@.state, source),
                from <= j <= n,
                next_mapped(map, from as int) == next_mapped(map, j as int),
            decreases n - j,
        {
            j = j + 1;
        }
        let target = self.map_for(source).target(j);
        match target {
            Some(output) => {
                self.stage = Stage::Adding { source, input: j };
                SessionAction::AddStream { source, input: j, output }
            },
            None => self.after_streams(source),
        }
    }

    /// The stream map of `source`.
    pub fn map_for(&self, source: Source) -> (r: &StreamMap)
        ensures
            r@ == map_of(self@.state, source),
    {
        match source {
            Source::Video => &self.video_map,
            Source::Audio => &self.audio_map,
        }
    }

    /// All output streams of `source` are set: opens the audio file after
    /// the video file, writes the header after the audio file.
    fn after_streams(&mut self, source: Source) -> (a: SessionAction)
        ensures
            (final(self)@.state, a) == (match source {
                Source::Video => (
                    SessionState { stage: Stage::OpeningInput { source: Source::Audio }, ..old(self)@.state },
                    SessionAction::OpenInput { source: Source::Audio },
                ),
                Source::Audio => (
                    SessionState { stage: Stage::WritingHeader, ..old(self)@.state },
                    SessionAction::WriteHeader,
                ),
            }),
            final(self)@.video == old(self)@.video,
            final(self)@.audio == old(self)@.audio,
            final(self)@.output == old(self)@.output,
            final(self)@.conf == old(self)@.conf,
    {
        match source {
            Source::Video => {
                self.stage = Stage::OpeningInput { source: Source::Audio };
                SessionAction::OpenInput { source: Source::Audio }
            },
            Source::Audio => {
                self.stage = Stage::WritingHeader;
                SessionAction::WriteHeader
            },
        }
    }

    /// Takes the outcome of the last step and gives the next step.
    pub fn step(&mut self, event: SessionEvent) -> (a: SessionAction)
        requires
            session_answers(old(self)@.state.stage, event),
            old(self)@.sound(),
            event matches SessionEvent::Opened(media) ==> old(self)@.state.outputs + media@.len()
                <= usize::MAX,
        ensures
            (final(self)@.state, a) == session_transition(
                old(self)@.conf is Some,
                old(self)@.state,
                event,
            ),
            final(self)@.video == old(self)@.video,
            final(self)@.audio == old(self)@.audio,
            final(self)@.output == old(self)@.output,
            final(self)@.conf == old(self)@.conf,
            final(self)@.sound(),
    {
        let transcode = self.conf.is_some();
        match event {
            SessionEvent::Failure(e) => {
                self.stage = Stage::Failed;
                SessionAction::Fail(e)
            },
            SessionEvent::Opened(media) => match self.stage {
                Stage::OpeningInput { source } => {
                    let sel = if !transcode {
                        Selection::Copy
                    } else {
                        match source {
                            Source::Video => Selection::Video,
                            Source::Audio => Selection::Audio,
                        }
                    };
                    let map = select_streams(sel, &media, self.outputs);
                    let added = map.added();
                    let ghost expected = Seq::new(
                        media@.len(),
                        |i: int| selection_target(sel, media@, self.outputs as int, i),
                    );
                    proof {
                        assert(map@ =~= expected);
                        lemma_count_at_most(sel, media@);
                    }
                    self.outputs = self.outputs + added;
                    match source {
                        Source::Video => self.video_map = map,
                        Source::Audio => self.audio_map = map,
                    }
                    self.add_from(source, 0)
                },
                _ => SessionAction::Done,
            },
            SessionEvent::Ran { video, audio } => match video {
                Err(e) => {
                    self.stage = Stage::Failed;
                    SessionAction::Fail(e)
                },
                Ok(()) => match audio {
                    Err(e) => {
                        self.stage = Stage::Failed;
                        SessionAction::Fail(e)
                    },
                    Ok(()) => {
                        self.stage = Stage::WritingTrailer;
                        SessionAction::WriteTrailer
                    },
                },
            },
            SessionEvent::Success => match self.stage {
                Stage::OpeningOutput => {
                    self.stage = Stage::OpeningInput { source: Source::Video };
                    SessionAction::OpenInput { source: Source::Video }
                },
                Stage::Adding { source, input } => {
                    let _n = self.map_for(source).len();
                    self.add_from(source, input + 1)
                },
                Stage::WritingHeader => {
                    self.stage = Stage::Running;
                    SessionAction::Run
                },
                Stage::WritingTrailer => {
                    self.stage = Stage::Done;
                    SessionAction::Done
                },
                _ => SessionAction::Done,
            },
        }
    }
}

/// No more streams are selected than the file has.
proof fn lemma_count_at_most(sel: Selection, media: Seq<MediaType>)
    ensures
        count_selected(sel, media) <= media.len(),
    decreases media.len(),
{
    if media.len() > 0 {
        lemma_count_at_most(sel, media.drop_last());
    }
}

/// Trait for merging multiple media files into one.
///
/// A merge is a [`MuxSession`]: the run of the muxer, step by step, which
/// the caller drives with FFmpeg.
pub trait Mux: Sized {
    /// The file that provides the video.
    spec fn video_file(self) -> VFile;

    /// The file that provides the audio.
    spec fn audio_file(self) -> AFile;

    /// Simply mux two media files into a single output file.
    fn simple_mux(self, output: VFile) -> (s: MuxSession)
        ensures
            s@ == SessionModel::initial(self.video_file(), self.audio_file(), output, None),
    ;

    /// Encode and mux two media files into a single output file.
    fn mux(self, output: VFile, conf: CodecConfig) -> (s: MuxSession)
        ensures
            s@ == SessionModel::initial(self.video_file(), self.audio_file(), output, Some(conf@)),
    ;
}

impl Mux for (VFile, AFile) {
    open spec fn video_file(self) -> VFile {
        self.0
    }

    open spec fn audio_file(self) -> AFile {
        self.1
    }

    fn simple_mux(self, output: VFile) -> (s: MuxSession) {
        MuxSession::new(self.0, self.1, output, None)
    }

    fn mux(self, output: VFile, conf: CodecConfig) -> (s: MuxSession) {
        MuxSession::new(self.0, self.1, output, Some(conf))
    }
}

impl Mux for (AFile, VFile) {
    open spec fn video_file(self) -> VFile {
        self.1
    }

    open spec fn audio_file(self) -> AFile {
        self.0
    }

    fn simple_mux(self, output: VFile) -> (s: MuxSession) {
        (self.1, self.0).simple_mux(output)
    }

    fn mux(self, output: VFile, conf: CodecConfig) -> (s: MuxSession) {
        (self.1, self.0).mux(output, conf)
    }
}

/// Whichever order the two files are given in, the run is the same.
pub proof fn law_file_order_irrelevant(v: VFile, a: AFile, output: VFile, conf: Option<CodecConfigSpec>)
    ensures
        SessionModel::initial((v, a).video_file(), (v, a).audio_file(), output, conf)
            == SessionModel::initial((a, v).video_file(), (a, v).audio_file(), output, conf),
{
}

/// The two source files are read only once the output is open, both files
/// are open and the header is written; the trailer is written only once
/// both were read without error, the video file's error taking precedence;
/// the run is done only once the trailer is written.
pub proof fn law_run_order(transcode: bool, s: SessionState, ev: SessionEvent)
    requires
        session_answers(s.stage, ev),
    ensures
        ({
            let (t, a) = session_transition(transcode, s, ev);
            &&& a is Run ==> s.stage is WritingHeader && ev is Success
            &&& a is WriteHeader ==> s.stage is OpeningInput || s.stage is Adding
            &&& a is WriteTrailer <==> (ev matches SessionEvent::Ran { video, audio } && video is Ok
                && audio is Ok)
            &&& a is Done ==> s.stage is WritingTrailer && ev is Success && t.stage is Done
            &&& a is OpenOutput ==> false
        }),
        ev matches SessionEvent::Ran { video, audio } ==> match video {
            Err(e) => session_transition(transcode, s, ev).1 == SessionAction::Fail(e),
            Ok(()) => match audio {
                Err(e) => session_transition(transcode, s, ev).1 == SessionAction::Fail(e),
                Ok(()) => true,
            },
        },
        ev matches SessionEvent::Failure(e) ==> session_transition(transcode, s, ev).1
            == SessionAction::Fail(e),
{
}

/// The source file opened takes the next output streams, one for each of
/// its selected streams, right after those of the files opened before.
pub proof fn law_output_streams_follow(
    transcode: bool,
    s: SessionState,
    source: Source,
    media: Seq<MediaType>,
    i: int,
)
    requires
        0 <= s.outputs,
        s.outputs + media.len() <= usize::MAX,
        0 <= i < media.len(),
    ensures
        ({
            let t = opened(transcode, s, source, media);
            let sel = selection_of(transcode, source);
            &&& t.outputs == s.outputs + count_selected(sel, media)
            &&& map_of(t, source)[i] matches Some(o) ==> s.outputs <= o < t.outputs
            &&& (map_of(t, source)[i] is Some <==> crate::plan::selects(sel, media[i]))
        }),
{
    let sel = selection_of(transcode, source);
    crate::plan::lemma_count_take_mono(sel, media, i + 1, media.len() as int);
    crate::plan::lemma_count_take_mono(sel, media, 0, i);
    crate::plan::lemma_count_take_step(sel, media, i);
    assert(media.take(media.len() as int) =~= media);
    assert(media.take(0) =~= Seq::<MediaType>::empty());
    let t = opened(transcode, s, source, media);
    assert(map_of(t, source)[i] == selection_target(sel, media, s.outputs, i));
}

/// Opening a source file gives an output stream to exactly the streams of
/// the kinds the run takes from it: when re-encoding, the video streams of
/// the video file and the audio streams of the audio file; when copying,
/// the video, audio and subtitle streams of either.
pub proof fn law_streams_chosen_by_kind(
    transcode: bool,
    s: SessionState,
    source: Source,
    media: Vec<MediaType>,
    i: int,
)
    requires
        s.stage == (Stage::OpeningInput { source }),
        0 <= s.outputs,
        s.outputs + media@.len() <= usize::MAX,
        0 <= i < media@.len(),
    ensures
        ({
            let t = session_transition(transcode, s, SessionEvent::Opened(media)).0;
            let k = media@[i];
            &&& transcode && source is Video ==> (t.video_map[i] is Some <==> k == MediaType::Video)
            &&& transcode && source is Audio ==> (t.audio_map[i] is Some <==> k == MediaType::Audio)
            &&& !transcode ==> (map_of(t, source)[i] is Some <==> (k == MediaType::Video || k
                == MediaType::Audio || k == MediaType::Subtitle))
        }),
{
    let o = opened(transcode, s, source, media@);
    let r = add_from(o, source, 0);
    assert(map_of(r.0, source) == map_of(o, source));
    crate::plan::law_selection_by_kind(selection_of(transcode, source), media@, s.outputs, i);
}

} // verus!
