//! Driving one output stream: decoder, audio sample FIFO and encoder.
//!
//! A [`Converter`] decides, one step at a time, which call the muxer makes
//! next on the decoder, the FIFO, the encoder and the output, given how the
//! previous call went. Each demuxed packet starts a round with
//! [`Converter::begin`]; the end of the input starts the last round, which
//! flushes the decoder, the FIFO and the encoder.

use vstd::prelude::*;

use crate::error::{drained, is_drained, AVMuxError};

verus! {

/// What the converter waits for after the flush of the encoder's packets.
#[derive(Debug, Clone, Copy, PartialEq, Eq, Structural)]
pub enum Then {
    /// Submit the current frame; `last` marks the final, partial audio frame.
    SendFrame { last: bool },
    /// Signal the end of input to the encoder.
    SendEof,
    /// The stream is complete.
    Finish,
}

/// Where the converter stands.
#[derive(Debug, Clone, Copy, PartialEq, Eq, Structural)]
pub enum Phase {
    /// Between two rounds: waiting for the next packet or the end of input.
    Idle,
    /// Waiting for the decoder to accept the packet or the end of input.
    Decoding,
    /// Waiting for a decoded frame.
    Receiving,
    /// Waiting for samples to be read out of the FIFO.
    Reading { last: bool },
    /// Waiting for an encoded packet.
    Draining { then: Then },
    /// Waiting for an encoded packet to be written.
    Writing { then: Then },
    /// Waiting for the encoder to accept a frame.
    Submitting { last: bool },
    /// Waiting for the encoder to accept the end of input.
    Closing,
    /// The stream has been flushed completely.
    Finished,
    /// A call failed; the conversion is over.
    Failed,
}

/// The audio FIFO and the running sample clock.
#[derive(Debug, Clone, Copy, PartialEq, Eq, Structural)]
pub struct AudioCursor {
    /// Number of samples in each frame the encoder takes.
    pub frame_size: i32,
    /// Number of samples in the FIFO.
    pub buffered: i32,
    /// Presentation timestamp of the next frame, counted in samples.
    pub next_pts: i64,
}

/// The state of a converter.
#[derive(Debug, Clone, Copy, PartialEq, Eq, Structural)]
pub struct ConvState {
    /// Where the converter stands.
    pub phase: Phase,
    /// The current round is the last one: the input has ended.
    pub eof: bool,
    /// Index of the output stream the encoded packets go to.
    pub index: usize,
    /// The FIFO, for an audio stream; `None` for a video stream.
    pub audio: Option<AudioCursor>,
}

/// The next call the muxer makes for the stream.
#[derive(Debug)]
pub enum ConvertAction {
    /// Hand the demuxed packet to the decoder.
    SendPacket,
    /// Signal the end of input to the decoder.
    SendDecoderEof,
    /// Pull the next decoded frame: for video, scale it into the frame the
    /// encoder takes; for audio, resample it and append it to the FIFO.
    ReceiveFrame,
    /// Pull the next encoded packet.
    ReceivePacket,
    /// Write the packet just received to the output, on stream `index`.
    WritePacket { index: usize },
    /// Read `samples` samples out of the FIFO into a new frame stamped `pts`.
    ReadSamples { pts: i64, samples: i32 },
    /// Hand the current frame to the encoder.
    SendFrame,
    /// Signal the end of input to the encoder.
    SendEncoderEof,
    /// The round is over; the next packet may come.
    Yield,
    /// The stream is complete.
    Finish,
    /// The conversion failed with this error.
    Fail(AVMuxError),
}

/// How the last call went.
#[derive(Debug)]
pub enum ConvertEvent {
    /// The call succeeded (for `ReceivePacket`: a packet was received).
    Success,
    /// `ReceiveFrame` succeeded; for audio, `samples` samples went into the FIFO.
    Frame(i32),
    /// The call failed.
    Failure(AVMuxError),
}

/// The states in which a step is expected.
pub open spec fn awaits(p: Phase) -> bool {
    !(p is Idle || p is Finished || p is Failed)
}

/// `ev` answers the call made in phase `p`: a frame answers `ReceiveFrame`
/// and nothing else does.
pub open spec fn answers(p: Phase, ev: ConvertEvent) -> bool {
    match ev {
        ConvertEvent::Frame(_) => p is Receiving,
        ConvertEvent::Success => !(p is Receiving),
        ConvertEvent::Failure(_) => true,
    }
}

/// The state after a failure, and the failure reported.
pub open spec fn fail(s: ConvState, e: AVMuxError) -> (ConvState, ConvertAction) {
    (ConvState { phase: Phase::Failed, ..s }, ConvertAction::Fail(e))
}

/// After a frame has been taken care of: take a full frame out of the FIFO
/// if it holds one, else pull the next decoded frame.
pub open spec fn next_frame(s: ConvState) -> (ConvState, ConvertAction) {
    match s.audio {
        Some(c) => if c.buffered >= c.frame_size {
            (
                ConvState {
                    phase: Phase::Reading { last: false },
                    audio: Some(
                        AudioCursor {
                            buffered: (c.buffered - c.frame_size) as i32,
                            next_pts: (c.next_pts + c.frame_size) as i64,
                            ..c
                        },
                    ),
                    ..s
                },
                ConvertAction::ReadSamples { pts: c.next_pts, samples: c.frame_size },
            )
        } else {
            (ConvState { phase: Phase::Receiving, ..s }, ConvertAction::ReceiveFrame)
        },
        None => (ConvState { phase: Phase::Receiving, ..s }, ConvertAction::ReceiveFrame),
    }
}

/// The decoder has nothing more for this round. Within the stream the round
/// ends; at the end of input what is left in the FIFO becomes a last, short
/// frame, and then the encoder is flushed.
pub open spec fn decoded_all(s: ConvState) -> (ConvState, ConvertAction) {
    if !s.eof {
        (ConvState { phase: Phase::Idle, ..s }, ConvertAction::Yield)
    } else {
        match s.audio {
            Some(c) => if c.buffered > 0 {
                (
                    ConvState {
                        phase: Phase::Reading { last: true },
                        audio: Some(
                            AudioCursor {
                                buffered: 0,
                                next_pts: (c.next_pts + c.buffered) as i64,
                                ..c
                            },
                        ),
                        ..s
                    },
                    ConvertAction::ReadSamples { pts: c.next_pts, samples: c.buffered },
                )
            } else {
                (
                    ConvState { phase: Phase::Draining { then: Then::SendEof }, ..s },
                    ConvertAction::ReceivePacket,
                )
            },
            None => (
                ConvState { phase: Phase::Draining { then: Then::SendEof }, ..s },
                ConvertAction::ReceivePacket,
            ),
        }
    }
}

/// The encoder has no packet to give: go on with what was waiting.
pub open spec fn drained_then(s: ConvState, then: Then) -> (ConvState, ConvertAction) {
    match then {
        Then::SendFrame { last } => (
            ConvState { phase: Phase::Submitting { last }, ..s },
            ConvertAction::SendFrame,
        ),
        Then::SendEof => (ConvState { phase: Phase::Closing, ..s }, ConvertAction::SendEncoderEof),
        Then::Finish => (ConvState { phase: Phase::Finished, ..s }, ConvertAction::Finish),
    }
}

/// The transition of a converter on the outcome of its last call: the next
/// state and the next call.
pub open spec fn transition(s: ConvState, ev: ConvertEvent) -> (ConvState, ConvertAction) {
    match ev {
        ConvertEvent::Failure(e) => match s.phase {
            Phase::Receiving => if is_drained(e) {
                decoded_all(s)
            } else {
                fail(s, e)
            },
            Phase::Draining { then } => if is_drained(e) {
                drained_then(s, then)
            } else {
                fail(s, e)
            },
            _ => fail(s, e),
        },
        ConvertEvent::Frame(n) => match s.audio {
            Some(c) => next_frame(
                ConvState {
                    audio: Some(AudioCursor { buffered: (c.buffered + n) as i32, ..c }),
                    ..s
                },
            ),
            None => (
                ConvState { phase: Phase::Draining { then: Then::SendFrame { last: false } }, ..s },
                ConvertAction::ReceivePacket,
            ),
        },
        ConvertEvent::Success => match s.phase {
            Phase::Decoding => (ConvState { phase: Phase::Receiving, ..s }, ConvertAction::ReceiveFrame),
            Phase::Reading { last } => (
                ConvState { phase: Phase::Draining { then: Then::SendFrame { last } }, ..s },
                ConvertAction::ReceivePacket,
            ),
            Phase::Draining { then } => (
                ConvState { phase: Phase::Writing { then }, ..s },
                ConvertAction::WritePacket { index: s.index },
            ),
            Phase::Writing { then } => (
                ConvState { phase: Phase::Draining { then }, ..s },
                ConvertAction::ReceivePacket,
            ),
            Phase::Submitting { last } => if last {
                (
                    ConvState { phase: Phase::Draining { then: Then::SendEof }, ..s },
                    ConvertAction::ReceivePacket,
                )
            } else {
                next_frame(s)
            },
            Phase::Closing => (
                ConvState { phase: Phase::Draining { then: Then::Finish }, ..s },
                ConvertAction::ReceivePacket,
            ),
            _ => (s, ConvertAction::Yield),
        },
    }
}

/// Total number of samples of `chunks`, each a `(pts, samples)` pair.
pub open spec fn total_samples(chunks: Seq<(int, int)>) -> int
    decreases chunks.len(),
{
    if chunks.len() == 0 {
        0
    } else {
        total_samples(chunks.drop_last()) + chunks.last().1
    }
}

/// Every frame is stamped with the number of samples before it.
pub open spec fn pts_contiguous(chunks: Seq<(int, int)>) -> bool {
    forall|k: int| 0 <= k < chunks.len() ==> #[trigger] chunks[k].0 == total_samples(chunks.take(k))
}

/// The phases after the last, short audio frame was taken from the FIFO.
pub open spec fn flushing(p: Phase) -> bool {
    match p {
        Phase::Reading { last } => last,
        Phase::Submitting { last } => last,
        Phase::Draining { then } => then != (Then::SendFrame { last: false }),
        Phase::Writing { then } => then != (Then::SendFrame { last: false }),
        Phase::Closing => true,
        Phase::Finished => true,
        _ => false,
    }
}

/// A converter as the specification sees it: its state, the number of
/// samples that went into the FIFO, and the `(pts, samples)` of every frame
/// read out of it, in order.
pub struct ConverterModel {
    pub state: ConvState,
    pub decoded: int,
    pub chunks: Seq<(int, int)>,
    /// The encoder has accepted the end of input.
    pub encoder_closed: bool,
}

impl ConverterModel {
    /// The frames read out of the FIFO, their timestamps and the sample count
    /// agree: stamps run on without gap from 0, every frame is full but a
    /// last one at the end of input, and every sample that went into the FIFO
    /// is either in it or was read out of it.
    pub open spec fn sound(self) -> bool {
        &&& flushing(self.state.phase) ==> self.state.eof
        &&& (self.state.phase is Finished || self.state.phase == (Phase::Draining { then: Then::Finish })
            || self.state.phase == (Phase::Writing { then: Then::Finish })) ==> self.encoder_closed
        &&& self.encoder_closed ==> (self.state.phase is Finished || self.state.phase is Failed
            || self.state.phase == (Phase::Draining { then: Then::Finish })
            || self.state.phase == (Phase::Writing { then: Then::Finish }))
        &&& self.state.phase is Idle ==> !self.state.eof
        &&& match self.state.audio {
            None => self.decoded == 0 && self.chunks.len() == 0,
            Some(c) => {
                &&& c.frame_size > 0
                &&& 0 <= c.buffered
                &&& self.decoded <= i64::MAX
                &&& c.next_pts == total_samples(self.chunks)
                &&& self.decoded == total_samples(self.chunks) + c.buffered
                &&& pts_contiguous(self.chunks)
                &&& forall|k: int|
                    0 <= k < self.chunks.len() ==> {
                        ||| #[trigger] self.chunks[k].1 == c.frame_size
                        ||| (k == self.chunks.len() - 1 && 0 < self.chunks[k].1 < c.frame_size
                            && self.state.eof && (flushing(self.state.phase)
                            || self.state.phase is Failed))
                    }
                &&& (self.state.phase is Idle || self.state.phase is Decoding
                    || self.state.phase is Receiving) ==> c.buffered < c.frame_size
                &&& flushing(self.state.phase) ==> c.buffered == 0
            },
        }
    }
}

/// Drives the calls for one output stream.
pub struct Converter {
    state: ConvState,
    decoded: Ghost<int>,
    chunks: Ghost<Seq<(int, int)>>,
    encoder_closed: Ghost<bool>,
}

impl View for Converter {
    type V = ConverterModel;

    closed spec fn view(&self) -> ConverterModel {
        ConverterModel {
            state: self.state,
            decoded: self.decoded@,
            chunks: self.chunks@,
            encoder_closed: self.encoder_closed@,
        }
    }
}

/// Reading a frame of `x.1` samples adds them to the total.
proof fn lemma_total_push(chunks: Seq<(int, int)>, x: (int, int))
    ensures
        total_samples(chunks.push(x)) == total_samples(chunks) + x.1,
{
    assert(chunks.push(x).drop_last() =~= chunks);
}

/// A frame stamped with the total before it keeps the stamps contiguous.
proof fn lemma_contiguous_push(chunks: Seq<(int, int)>, x: (int, int))
    requires
        pts_contiguous(chunks),
        x.0 == total_samples(chunks),
    ensures
        pts_contiguous(chunks.push(x)),
{
    let c2 = chunks.push(x);
    assert forall|k: int| 0 <= k < c2.len() implies #[trigger] c2[k].0 == total_samples(c2.take(k)) by {
        if k < chunks.len() {
            assert(c2.take(k) =~= chunks.take(k));
        } else {
            assert(c2.take(k) =~= chunks);
        }
    }
}

/// The amount `ev` puts into the FIFO: the samples of an audio frame.
pub open spec fn pushed(s: ConvState, ev: ConvertEvent) -> int {
    match ev {
        ConvertEvent::Frame(n) => if s.audio is Some { n as int } else { 0 },
        _ => 0,
    }
}

/// The frames read out of the FIFO after `a`.
pub open spec fn chunks_after(chunks: Seq<(int, int)>, a: ConvertAction) -> Seq<(int, int)> {
    match a {
        ConvertAction::ReadSamples { pts, samples } => chunks.push((pts as int, samples as int)),
        _ => chunks,
    }
}

/// The outcome `ev` can be taken by a converter in state `m`: it answers
/// the call made, and the samples of an audio frame fit the FIFO (whose
/// size is a C `int`) and the 64-bit sample clock.
pub open spec fn acceptable(m: ConverterModel, ev: ConvertEvent) -> bool {
    &&& awaits(m.state.phase)
    &&& answers(m.state.phase, ev)
    &&& match (ev, m.state.audio) {
        (ConvertEvent::Frame(n), Some(c)) => 0 <= n && c.buffered + n <= i32::MAX && m.decoded + n
            <= i64::MAX,
        _ => true,
    }
}

impl Converter {
    /// A converter for a video stream whose packets go to output stream `index`.
    pub fn video(index: usize) -> (c: Converter)
        ensures
            c@.state == (ConvState { phase: Phase::Idle, eof: false, index, audio: None }),
            c@.decoded == 0,
            c@.chunks == Seq::<(int, int)>::empty(),
            !c@.encoder_closed,
            c@.sound(),
    {
        Converter {
            state: ConvState { phase: Phase::Idle, eof: false, index, audio: None },
            decoded: Ghost(0),
            chunks: Ghost(Seq::empty()),
            encoder_closed: Ghost(false),
        }
    }

    /// A converter for an audio stream whose packets go to output stream
    /// `index`, whose encoder takes frames of `frame_size` samples.
    pub fn audio(index: usize, frame_size: i32) -> (c: Converter)
        requires
            frame_size > 0,
        ensures
            c@.state == (ConvState {
                phase: Phase::Idle,
                eof: false,
                index,
                audio: Some(AudioCursor { frame_size, buffered: 0, next_pts: 0 }),
            }),
            c@.decoded == 0,
            c@.chunks == Seq::<(int, int)>::empty(),
            !c@.encoder_closed,
            c@.sound(),
    {
        let c = Converter {
            state: ConvState {
                phase: Phase::Idle,
                eof: false,
                index,
                audio: Some(AudioCursor { frame_size, buffered: 0, next_pts: 0 }),
            },
            decoded: Ghost(0),
            chunks: Ghost(Seq::empty()),
            encoder_closed: Ghost(false),
        };
        assert(total_samples(c.chunks@) == 0);
        c
    }

    /// The state of the converter.
    pub fn state(&self) -> (s: ConvState)
        ensures
            s == self@.state,
    {
        self.state
    }

    /// Starts a round: for the next demuxed packet, or, with `eof`, for the
    /// end of the input.
    pub fn begin(&mut self, eof: bool) -> (a: ConvertAction)
        requires
            old(self)@.state.phase is Idle,
            old(self)@.sound(),
        ensures
            final(self)@ == (ConverterModel {
                state: ConvState { phase: Phase::Decoding, eof, ..old(self)@.state },
                ..old(self)@
            }),
            a == (if eof {
                ConvertAction::SendDecoderEof
            } else {
                ConvertAction::SendPacket
            }),
            final(self)@.sound(),
    {
        self.state = ConvState { phase: Phase::Decoding, eof, ..self.state };
        if eof {
            ConvertAction::SendDecoderEof
        } else {
            ConvertAction::SendPacket
        }
    }

    /// Takes a full frame out of the FIFO if it holds one, else asks for
    /// the next decoded frame.
    fn next_frame(&mut self) -> (a: ConvertAction)
        requires
            old(self).state.audio matches Some(c) ==> c.frame_size > 0 && c.buffered >= 0
                && c.next_pts + c.buffered <= i64::MAX,
        ensures
            (final(self).state, a) == next_frame(old(self).state),
            final(self).decoded == old(self).decoded,
            final(self).encoder_closed == old(self).encoder_closed,
            final(self).chunks@ == chunks_after(old(self).chunks@, a),
    {
        match self.state.audio {
            Some(c) => {
                if c.buffered >= c.frame_size {
                    let pts = c.next_pts;
                    self.chunks = Ghost(self.chunks@.push((pts as int, c.frame_size as int)));
                    self.state = ConvState {
                        phase: Phase::Reading { last: false },
                        audio: Some(
                            AudioCursor {
                                buffered: c.buffered - c.frame_size,
                                next_pts: c.next_pts + c.frame_size as i64,
                                ..c
                            },
                        ),
                        ..self.state
                    };
                    ConvertAction::ReadSamples { pts, samples: c.frame_size }
                } else {
                    self.state = ConvState { phase: Phase::Receiving, ..self.state };
                    ConvertAction::ReceiveFrame
                }
            },
            None => {
                self.state = ConvState { phase: Phase::Receiving, ..self.state };
                ConvertAction::ReceiveFrame
            },
        }
    }

    /// The decoder has nothing more for this round.
    fn decoded_all(&mut self) -> (a: ConvertAction)
        requires
            old(self).state.audio matches Some(c) ==> c.buffered >= 0 && c.next_pts + c.buffered
                <= i64::MAX,
        ensures
            (final(self).state, a) == decoded_all(old(self).state),
            final(self).decoded == old(self).decoded,
            final(self).encoder_closed == old(self).encoder_closed,
            final(self).chunks@ == chunks_after(old(self).chunks@, a),
    {
        if !self.state.eof {
            self.state = ConvState { phase: Phase::Idle, ..self.state };
            return ConvertAction::Yield;
        }
        match self.state.audio {
            Some(c) => {
                if c.buffered > 0 {
                    let pts = c.next_pts;
                    self.chunks = Ghost(self.chunks@.push((pts as int, c.buffered as int)));
                    self.state = ConvState {
                        phase: Phase::Reading { last: true },
                        audio: Some(
                            AudioCursor { buffered: 0, next_pts: c.next_pts + c.buffered as i64, ..c },
                        ),
                        ..self.state
                    };
                    ConvertAction::ReadSamples { pts, samples: c.buffered }
                } else {
                    self.state = ConvState { phase: Phase::Draining { then: Then::SendEof }, ..self.state };
                    ConvertAction::ReceivePacket
                }
            },
            None => {
                self.state = ConvState { phase: Phase::Draining { then: Then::SendEof }, ..self.state };
                ConvertAction::ReceivePacket
            },
        }
    }

    /// The encoder has no packet to give: goes on with `then`.
    fn drained_then(&mut self, then: Then) -> (a: ConvertAction)
        ensures
            (final(self).state, a) == drained_then(old(self).state, then),
            final(self).decoded == old(self).decoded,
            final(self).encoder_closed == old(self).encoder_closed,
            final(self).chunks == old(self).chunks,
    {
        match then {
            Then::SendFrame { last } => {
                self.state = ConvState { phase: Phase::Submitting { last }, ..self.state };
                ConvertAction::SendFrame
            },
            Then::SendEof => {
                self.state = ConvState { phase: Phase::Closing, ..self.state };
                ConvertAction::SendEncoderEof
            },
            Then::Finish => {
                self.state = ConvState { phase: Phase::Finished, ..self.state };
                ConvertAction::Finish
            },
        }
    }

    /// A call failed: the conversion ends with its error.
    fn fail(&mut self, e: AVMuxError) -> (a: ConvertAction)
        ensures
            (final(self).state, a) == fail(old(self).state, e),
            final(self).decoded == old(self).decoded,
            final(self).encoder_closed == old(self).encoder_closed,
            final(self).chunks == old(self).chunks,
    {
        self.state = ConvState { phase: Phase::Failed, ..self.state };
        ConvertAction::Fail(e)
    }

    /// Takes the outcome of the last call and gives the next call.
    pub fn step(&mut self, event: ConvertEvent) -> (a: ConvertAction)
        requires
            acceptable(old(self)@, event),
            old(self)@.sound(),
        ensures
            (final(self)@.state, a) == transition(old(self)@.state, event),
            final(self)@.decoded == old(self)@.decoded + pushed(old(self)@.state, event),
            final(self)@.encoder_closed == (old(self)@.encoder_closed || (old(self)@.state.phase is Closing
                && event is Success)),
            final(self)@.chunks == chunks_after(old(self)@.chunks, a),
            final(self)@.sound(),
    {
        let ghost old_m = self@;
        let a = match event {
            ConvertEvent::Failure(e) => match self.state.phase {
                Phase::Receiving => {
                    if drained(&e) {
                        self.decoded_all()
                    } else {
                        self.fail(e)
                    }
                },
                Phase::Draining { then } => {
                    if drained(&e) {
                        self.drained_then(then)
                    } else {
                        self.fail(e)
                    }
                },
                _ => self.fail(e),
            },
            ConvertEvent::Frame(n) => match self.state.audio {
                Some(c) => {
                    self.decoded = Ghost(self.decoded@ + n);
                    self.state = ConvState {
                        audio: Some(AudioCursor { buffered: c.buffered + n, ..c }),
                        ..self.state
                    };
                    self.next_frame()
                },
                None => {
                    self.state = ConvState {
                        phase: Phase::Draining { then: Then::SendFrame { last: false } },
                        ..self.state
                    };
                    ConvertAction::ReceivePacket
                },
            },
            ConvertEvent::Success => match self.state.phase {
                Phase::Decoding => {
                    self.state = ConvState { phase: Phase::Receiving, ..self.state };
                    ConvertAction::ReceiveFrame
                },
                Phase::Reading { last } => {
                    self.state = ConvState {
                        phase: Phase::Draining { then: Then::SendFrame { last } },
                        ..self.state
                    };
                    ConvertAction::ReceivePacket
                },
                Phase::Draining { then } => {
                    self.state = ConvState { phase: Phase::Writing { then }, ..self.state };
                    ConvertAction::WritePacket { index: self.state.index }
                },
                Phase::Writing { then } => {
                    self.state = ConvState { phase: Phase::Draining { then }, ..self.state };
                    ConvertAction::ReceivePacket
                },
                Phase::Submitting { last } => {
                    if last {
                        self.state = ConvState {
                            phase: Phase::Draining { then: Then::SendEof },
                            ..self.state
                        };
                        ConvertAction::ReceivePacket
                    } else {
                        self.next_frame()
                    }
                },
                Phase::Closing => {
                    self.encoder_closed = Ghost(true);
                    self.state = ConvState { phase: Phase::Draining { then: Then::Finish }, ..self.state };
                    ConvertAction::ReceivePacket
                },
                _ => ConvertAction::Yield,
            },
        };
        proof {
            match a {
                ConvertAction::ReadSamples { pts, samples } => {
                    lemma_total_push(old_m.chunks, (pts as int, samples as int));
                    lemma_contiguous_push(old_m.chunks, (pts as int, samples as int));
                },
                _ => {},
            }
        }
        a
    }
}

/// Once a stream is finished, every sample that went into the FIFO was
/// read out of it, in frames of the encoder's frame size but for a last,
/// shorter one, stamped with the number of samples before them.
pub proof fn law_finished_stream_loses_no_sample(m: ConverterModel)
    requires
        m.sound(),
        m.state.phase is Finished,
        m.state.audio is Some,
    ensures
        m.decoded == total_samples(m.chunks),
        pts_contiguous(m.chunks),
        forall|k: int|
            0 <= k < m.chunks.len() - 1 ==> #[trigger] m.chunks[k].1 == m.state.audio->0.frame_size,
{
    let c = m.state.audio->0;
    assert forall|k: int| 0 <= k < m.chunks.len() - 1 implies #[trigger] m.chunks[k].1
        == c.frame_size by {
        assert(m.chunks[k].1 == c.frame_size || k == m.chunks.len() - 1);
    }
}

/// A frame read out of the FIFO never asks for more samples than it holds,
/// and is stamped with the number of samples read before it.
pub proof fn law_reads_stay_within_fifo(m: ConverterModel, ev: ConvertEvent)
    requires
        m.sound(),
        acceptable(m, ev),
        transition(m.state, ev).1 is ReadSamples,
    ensures
        ({
            let a = transition(m.state, ev).1;
            let c = m.state.audio->0;
            &&& m.state.audio is Some
            &&& 0 < a->samples <= c.buffered + pushed(m.state, ev)
            &&& a->pts == total_samples(m.chunks)
        }),
{
}

/// An error that does not only report a drained codec ends the conversion
/// with that very error; a drained codec never ends it.
pub proof fn law_errors_propagate(s: ConvState, e: AVMuxError)
    requires
        awaits(s.phase),
    ensures
        !is_drained(e) ==> transition(s, ConvertEvent::Failure(e)) == fail(s, e),
        is_drained(e) && (s.phase is Receiving || s.phase is Draining) ==> !(transition(
            s,
            ConvertEvent::Failure(e),
        ).1 is Fail),
{
}

/// The encoder is told that the input has ended only at the end of input,
/// once the FIFO is empty; afterwards it is given no frame and no second
/// end of input.
pub proof fn law_encoder_closed_once(m: ConverterModel, ev: ConvertEvent)
    requires
        m.sound(),
        acceptable(m, ev),
    ensures
        transition(m.state, ev).1 is SendEncoderEof ==> m.state.eof && (m.state.audio matches Some(
            c,
        ) ==> c.buffered == 0),
        (m.state.phase is Closing || m.state.phase == (Phase::Draining { then: Then::Finish })
            || m.state.phase == (Phase::Writing { then: Then::Finish })) ==> {
            let a = transition(m.state, ev).1;
            !(a is SendFrame || a is ReadSamples || a is SendEncoderEof || a is ReceiveFrame)
        },
{
}

/// A round for a packet ends by yielding; only the round for the end of
/// input finishes the stream.
pub proof fn law_only_end_of_input_finishes(m: ConverterModel, ev: ConvertEvent)
    requires
        m.sound(),
        acceptable(m, ev),
    ensures
        transition(m.state, ev).1 is Finish ==> m.state.eof,
        transition(m.state, ev).1 is Yield ==> !m.state.eof,
{
}

/// The stream finishes only once the encoder has accepted the end of input
/// (the answer to `SendEncoderEof`) and then has no packet left to give.
pub proof fn law_finish_only_after_encoder_closed(m: ConverterModel, ev: ConvertEvent)
    requires
        m.sound(),
        acceptable(m, ev),
    ensures
        transition(m.state, ev).1 is Finish ==> {
            &&& m.encoder_closed
            &&& m.state.eof
            &&& m.state.phase == (Phase::Draining { then: Then::Finish })
            &&& ev matches ConvertEvent::Failure(e) && is_drained(e)
        },
        transition(m.state, ev).0.phase is Finished ==> transition(m.state, ev).1 is Finish,
{
}

/// The encoder is told that the input has ended exactly when the converter
/// starts waiting for it to accept that; and once it has accepted, every
/// packet it still gives is written before the stream finishes.
pub proof fn law_closing_follows_send_eof(m: ConverterModel, ev: ConvertEvent)
    requires
        m.sound(),
        acceptable(m, ev),
    ensures
        (transition(m.state, ev).0.phase is Closing) <==> (transition(m.state, ev).1 is SendEncoderEof),
        m.state.phase is Closing && ev is Success ==> transition(m.state, ev).1 is ReceivePacket,
{
}

/// Writing an encoded packet never ends a drain of the encoder: after the
/// write the converter asks for the next packet, whatever it was draining for.
pub proof fn law_write_returns_to_draining(m: ConverterModel, then: Then)
    requires
        m.sound(),
        m.state.phase == (Phase::Writing { then }),
    ensures
        transition(m.state, ConvertEvent::Success).1 is ReceivePacket,
        transition(m.state, ConvertEvent::Success).0.phase == (Phase::Draining { then }),
        transition(m.state, ConvertEvent::Success).0.audio == m.state.audio,
{
}

/// A finished stream's encoder has accepted the end of input.
pub proof fn law_finished_stream_closed_encoder(m: ConverterModel)
    requires
        m.sound(),
        m.state.phase is Finished,
    ensures
        m.encoder_closed,
        m.state.eof,
{
}

} // verus!
