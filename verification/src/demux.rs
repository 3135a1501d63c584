//! Reading one source file packet by packet.
//!
//! Each source file is read on its own thread. A [`PacketLoop`] decides
//! what happens to every packet read: copied to its output stream, handed
//! to the converter of its stream, or skipped; and, at the end of the file,
//! which converters are flushed.

use vstd::prelude::*;

use crate::error::AVMuxError;
use crate::plan::StreamMap;

verus! {

/// What is done with the packets of the selected streams.
#[derive(Debug, Clone, Copy, PartialEq, Eq, Structural)]
pub enum LoopMode {
    /// Packets are copied to the output as they are.
    Copy,
    /// Packets go through the converter of their stream.
    Transcode,
}

/// Where a packet loop stands.
#[derive(Debug, Clone, Copy, PartialEq, Eq, Structural)]
pub enum LoopPhase {
    /// Waiting for the next packet.
    Reading,
    /// Waiting for a packet to be written or converted.
    Forwarding,
    /// Waiting for the converter of source stream `input` to be flushed.
    Flushing { input: usize },
    /// The file has been read and every converter flushed.
    Done,
    /// A call failed; the loop is over.
    Failed,
}

/// The next call of a packet loop.
#[derive(Debug)]
pub enum LoopAction {
    /// Read the next packet of the file.
    ReadPacket,
    /// Copy the packet: rescale its timestamps from source stream `input`'s
    /// time base to output stream `output`'s, and write it to `output`.
    WritePacket { input: usize, output: usize },
    /// Run the converter of source stream `input` on the packet.
    Convert { input: usize },
    /// Run the converter of source stream `input` on the end of input.
    Flush { input: usize },
    /// The loop is over.
    Done,
    /// The loop failed with this error.
    Fail(AVMuxError),
}

/// How the last call of a packet loop went.
#[derive(Debug)]
pub enum LoopEvent {
    /// A packet of source stream `stream` was read.
    Packet { stream: usize },
    /// Reading hit the end of the file.
    EndOfInput,
    /// The write, conversion or flush succeeded.
    Success,
    /// The call failed.
    Failure(AVMuxError),
}

/// The first source stream from `from` on that the map sends to the output,
/// or the number of streams if none is.
pub open spec fn next_mapped(targets: Seq<Option<usize>>, from: int) -> int
    decreases targets.len() - from,
{
    if from < 0 || from >= targets.len() {
        targets.len() as int
    } else if targets[from] is Some {
        from
    } else {
        next_mapped(targets, from + 1)
    }
}

/// The source streams before `k` that the map sends to the output, in order.
pub open spec fn mapped_before(targets: Seq<Option<usize>>, k: int) -> Seq<usize>
    decreases k,
{
    if k <= 0 {
        Seq::empty()
    } else if targets[k - 1] is Some {
        mapped_before(targets, k - 1).push((k - 1) as usize)
    } else {
        mapped_before(targets, k - 1)
    }
}

/// The transition of a packet loop in `phase` with map `targets`.
pub open spec fn loop_transition(
    mode: LoopMode,
    targets: Seq<Option<usize>>,
    phase: LoopPhase,
    ev: LoopEvent,
) -> (LoopPhase, LoopAction) {
    match ev {
        LoopEvent::Failure(e) => (LoopPhase::Failed, LoopAction::Fail(e)),
        LoopEvent::Packet { stream } => {
            if stream < targets.len() && targets[stream as int] is Some {
                (
                    LoopPhase::Forwarding,
                    match mode {
                        LoopMode::Copy => LoopAction::WritePacket {
                            input: stream,
                            output: targets[stream as int]->0,
                        },
                        LoopMode::Transcode => LoopAction::Convert { input: stream },
                    },
                )
            } else {
                (LoopPhase::Reading, LoopAction::ReadPacket)
            }
        },
        LoopEvent::EndOfInput => flush_from(mode, targets, 0),
        LoopEvent::Success => match phase {
            LoopPhase::Flushing { input } => flush_from(mode, targets, input + 1),
            _ => (LoopPhase::Reading, LoopAction::ReadPacket),
        },
    }
}

/// Flushes the next converter from source stream `from` on, if any.
pub open spec fn flush_from(mode: LoopMode, targets: Seq<Option<usize>>, from: int) -> (
    LoopPhase,
    LoopAction,
) {
    let j = next_mapped(targets, from);
    if mode is Transcode && j < targets.len() {
        (LoopPhase::Flushing { input: j as usize }, LoopAction::Flush { input: j as usize })
    } else {
        (LoopPhase::Done, LoopAction::Done)
    }
}

/// The events a loop in `phase` takes: packets and the end of the file
/// answer a read; success answers a write, conversion or flush.
pub open spec fn loop_answers(phase: LoopPhase, ev: LoopEvent) -> bool {
    match ev {
        LoopEvent::Packet { .. } => phase is Reading,
        LoopEvent::EndOfInput => phase is Reading,
        LoopEvent::Success => phase is Forwarding || phase is Flushing,
        LoopEvent::Failure(_) => phase is Reading || phase is Forwarding || phase is Flushing,
    }
}

/// A packet loop as the specification sees it.
pub struct PacketLoopModel {
    pub mode: LoopMode,
    pub targets: Seq<Option<usize>>,
    pub phase: LoopPhase,
    /// The source streams whose converters were flushed, in order.
    pub flushed: Seq<usize>,
}

impl PacketLoopModel {
    /// The converters flushed so far are those of the selected streams up
    /// to the one being flushed, in order; none before the end of the file.
    pub open spec fn sound(self) -> bool {
        match self.phase {
            LoopPhase::Reading => self.flushed.len() == 0,
            LoopPhase::Forwarding => self.flushed.len() == 0,
            LoopPhase::Flushing { input } => {
                &&& input < self.targets.len()
                &&& self.targets[input as int] is Some
                &&& self.mode is Transcode
                &&& self.flushed == mapped_before(self.targets, input + 1)
            },
            LoopPhase::Done => self.mode is Transcode ==> self.flushed == mapped_before(
                self.targets,
                self.targets.len() as int,
            ),
            LoopPhase::Failed => true,
        }
    }
}

/// Drives the reading of one source file.
pub struct PacketLoop {
    mode: LoopMode,
    map: StreamMap,
    phase: LoopPhase,
    flushed: Ghost<Seq<usize>>,
}

impl View for PacketLoop {
    type V = PacketLoopModel;

    closed spec fn view(&self) -> PacketLoopModel {
        PacketLoopModel {
            mode: self.mode,
            targets: self.map@,
            phase: self.phase,
            flushed: self.flushed@,
        }
    }
}

/// The first selected stream from `from` on is one, and none is skipped
/// before it.
pub proof fn lemma_next_mapped(targets: Seq<Option<usize>>, from: int)
    requires
        0 <= from <= targets.len(),
    ensures
        from <= next_mapped(targets, from) <= targets.len(),
        next_mapped(targets, from) < targets.len() ==> targets[next_mapped(targets, from)] is Some,
        mapped_before(targets, next_mapped(targets, from)) == mapped_before(targets, from),
    decreases targets.len() - from,
{
    if from < targets.len() && targets[from] is None {
        lemma_next_mapped(targets, from + 1);
    }
}

impl PacketLoop {
    /// A loop over a file whose streams go where `map` says.
    pub fn new(mode: LoopMode, map: StreamMap) -> (l: PacketLoop)
        ensures
            l@ == (PacketLoopModel {
                mode,
                targets: map@,
                phase: LoopPhase::Reading,
                flushed: Seq::empty(),
            }),
            l@.sound(),
    {
        PacketLoop { mode, map, phase: LoopPhase::Reading, flushed: Ghost(Seq::empty()) }
    }

    /// The map of the file's streams.
    pub fn map(&self) -> (m: &StreamMap)
        ensures
            m@ == self@.targets,
    {
        &self.map
    }

    /// Where the loop stands.
    pub fn phase(&self) -> (p: LoopPhase)
        ensures
            p == self@.phase,
    {
        self.phase
    }

    /// Flushes the next converter from source stream `from` on, if any.
    fn flush_from(&mut self, from: usize) -> (a: LoopAction)
        requires
            from <= old(self)@.targets.len(),
            old(self)@.mode is Transcode ==> old(self)@.flushed == mapped_before(
                old(self)@.targets,
                from as int,
            ),
        ensures
            (final(self)@.phase, a) == flush_from(old(self)@.mode, old(self)@.targets, from as int),
            final(self)@.mode == old(self)@.mode,
            final(self)@.targets == old(self)@.targets,
            final(self)@.sound(),
    {
        let n = self.map.len();
        proof {
            lemma_next_mapped(self.map@, from as int);
        }
        let mut j = from;
        while j < n && self.map.target(j).is_none()
            invariant
                n == self.map@.len(),
                from <= j <= n,
                next_mapped(self.map@, from as int) == next_mapped(self.map@, j as int),
            decreases n - j,
        {
            j = j + 1;
        }
        proof {
            lemma_next_mapped(self.map@, j as int);
        }
        if self.mode == LoopMode::Transcode && j < n {
            self.flushed = Ghost(self.flushed@.push(j));
            self.phase = LoopPhase::Flushing { input: j };
            LoopAction::Flush { input: j }
        } else {
            self.phase = LoopPhase::Done;
            LoopAction::Done
        }
    }

    /// Takes the outcome of the last call and gives the next call.
    pub fn step(&mut self, event: LoopEvent) -> (a: LoopAction)
        requires
            loop_answers(old(self)@.phase, event),
            old(self)@.sound(),
        ensures
            (final(self)@.phase, a) == loop_transition(
                old(self)@.mode,
                old(self)@.targets,
                old(self)@.phase,
                event,
            ),
            final(self)@.mode == old(self)@.mode,
            final(self)@.targets == old(self)@.targets,
            final(self)@.sound(),
    {
        match event {
            LoopEvent::Failure(e) => {
                self.phase = LoopPhase::Failed;
                LoopAction::Fail(e)
            },
            LoopEvent::Packet { stream } => match self.map.target(stream) {
                Some(output) => {
                    self.phase = LoopPhase::Forwarding;
                    match self.mode {
                        LoopMode::Copy => LoopAction::WritePacket { input: stream, output },
                        LoopMode::Transcode => LoopAction::Convert { input: stream },
                    }
                },
                None => {
                    self.phase = LoopPhase::Reading;
                    LoopAction::ReadPacket
                },
            },
            LoopEvent::EndOfInput => {
                proof {
                    assert(self.flushed@ =~= mapped_before(self.map@, 0));
                }
                self.flush_from(0)
            },
            LoopEvent::Success => match self.phase {
                LoopPhase::Flushing { input } => {
                    let _n = self.map.len();
                    proof {
                        let t = self.map@;
                        assert(mapped_before(t, input + 1) == mapped_before(t, input as int).push(input));
                    }
                    self.flush_from(input + 1)
                },
                _ => {
                    self.phase = LoopPhase::Reading;
                    LoopAction::ReadPacket
                },
            },
        }
    }
}

/// Once a transcoding loop is done, the converter of every selected stream
/// was flushed exactly once, in the order of the streams.
pub proof fn law_every_converter_flushed_once(m: PacketLoopModel)
    requires
        m.sound(),
        m.phase is Done,
        m.mode is Transcode,
        m.targets.len() <= usize::MAX,
    ensures
        m.flushed == mapped_before(m.targets, m.targets.len() as int),
        forall|i: int|
            0 <= i < m.targets.len() ==> (m.targets[i] is Some <==> m.flushed.contains(i as usize)),
        forall|a: int, b: int| 0 <= a < b < m.flushed.len() ==> m.flushed[a] < m.flushed[b],
{
    lemma_mapped_before_members(m.targets, m.targets.len() as int);
}

proof fn lemma_mapped_before_members(targets: Seq<Option<usize>>, k: int)
    requires
        0 <= k <= targets.len(),
        targets.len() <= usize::MAX,
    ensures
        forall|i: int| 0 <= i < k ==> (targets[i] is Some <==> mapped_before(targets, k).contains(i as usize)),
        forall|i: int| 0 <= i < mapped_before(targets, k).len() ==> mapped_before(targets, k)[i] < k,
        forall|a: int, b: int|
            0 <= a < b < mapped_before(targets, k).len() ==> mapped_before(targets, k)[a]
                < mapped_before(targets, k)[b],
    decreases k,
{
    if k > 0 {
        lemma_mapped_before_members(targets, k - 1);
        let prev = mapped_before(targets, k - 1);
        if targets[k - 1] is Some {
            let cur = prev.push((k - 1) as usize);
            assert forall|i: int| 0 <= i < k implies (targets[i] is Some <==> cur.contains(i as usize)) by {
                if i < k - 1 {
                    if cur.contains(i as usize) {
                        let x = choose|x: int| 0 <= x < cur.len() && cur[x] == i as usize;
                        if x < prev.len() {
                            assert(prev.contains(i as usize));
                        }
                    }
                    if prev.contains(i as usize) {
                        let x = choose|x: int| 0 <= x < prev.len() && prev[x] == i as usize;
                        assert(cur[x] == i as usize);
                    }
                } else {
                    assert(cur[cur.len() - 1] == i as usize);
                }
            }
        } else {
            assert forall|i: int| 0 <= i < k implies (targets[i] is Some <==> prev.contains(i as usize)) by {
                if i == k - 1 && prev.contains(i as usize) {
                    let x = choose|x: int| 0 <= x < prev.len() && prev[x] == i as usize;
                }
            }
        }
    }
}

/// A packet of a stream that goes to the output is written to that stream's
/// output (when copying) or handed to that stream's converter; a packet of
/// any other stream is skipped; an error ends the loop with that error.
pub proof fn law_packets_routed(m: PacketLoopModel, stream: usize)
    requires
        m.phase is Reading,
    ensures
        ({
            let (p, a) = loop_transition(m.mode, m.targets, m.phase, LoopEvent::Packet { stream });
            if stream < m.targets.len() && m.targets[stream as int] is Some {
                p is Forwarding && match m.mode {
                    LoopMode::Copy => a == (LoopAction::WritePacket {
                        input: stream,
                        output: m.targets[stream as int]->0,
                    }),
                    LoopMode::Transcode => a == (LoopAction::Convert { input: stream }),
                }
            } else {
                p is Reading && a is ReadPacket
            }
        }),
{
}

} // verus!
