//! The per-stream pacing engine: waits for the start release, turns each unit
//! read into a sample with its presentation duration, and finishes or fails.
//! The engine decides; the caller performs each action it returns.

use vstd::prelude::*;
use vstd::arithmetic::div_mod::lemma_fundamental_div_mod_converse;

verus! {

/// Tick period of the video stream, in milliseconds.
pub const VIDEO_TICK_MS: u64 = 33;

/// Tick period of the audio stream, in milliseconds.
pub const AUDIO_TICK_MS: u64 = 20;

/// Nominal presentation duration of one video unit, in milliseconds.
pub const VIDEO_SAMPLE_DURATION_MS: u64 = 1000;

/// Sample rate of the audio stream, in samples per second.
pub const AUDIO_SAMPLE_RATE: u64 = 48000;

/// The media type a pacing engine serves.
#[derive(Clone, Copy, Debug, PartialEq, Eq, Structural)]
pub enum StreamKind {
    Video,
    Audio,
}

/// Where a pacing engine stands.
#[derive(Clone, Copy, Debug, PartialEq, Eq, Structural)]
pub enum PacerState {
    WaitingForStart,
    Streaming,
    Finished,
    Failed,
}

/// What happened to the engine.
#[derive(Clone, Copy, Debug, PartialEq, Eq, Structural)]
pub enum PacerEvent {
    /// The start barrier released the engine.
    Start,
    /// A unit was read; for audio it carries the page's granule position.
    Unit(u64),
    /// The reader has no further unit.
    EndOfStream,
    /// The reader met malformed data.
    ReadFailed,
    /// The transport refused a sample.
    WriteFailed,
}

/// What the caller is to do next.
#[derive(Clone, Copy, Debug, PartialEq, Eq, Structural)]
pub enum PacerAction {
    /// Nothing: the event does not apply in the current state.
    Ignore,
    /// Read the next unit.
    ReadNext,
    /// Write the unit just read as a sample of this duration (milliseconds),
    /// wait for the next tick, then read the next unit.
    Write(u64),
    /// Fire the completion signal; the stream is over.
    SignalCompletion,
    /// Give up the whole session.
    Abort,
}

/// Duration in milliseconds of an audio page at granule `g` after one at `prev`.
pub open spec fn granule_duration_ms(prev: int, g: int) -> int {
    (g - prev) * 1000 / (AUDIO_SAMPLE_RATE as int)
}

/// Presentation duration, in milliseconds, of the audio page at granule
/// position `granule` that follows the page at `prev`.
pub fn audio_sample_duration_ms(prev: u64, granule: u64) -> (r: u64)
    requires
        prev <= granule,
    ensures
        r == granule_duration_ms(prev as int, granule as int),
{
    let d = granule - prev;
    proof {
        let q = d as int / 48;
        let rem = d as int % 48;
        assert((d as int) * 1000 == q * 48000 + rem * 1000);
        lemma_fundamental_div_mod_converse((d as int) * 1000, 48000, q, rem * 1000);
    }
    d / 48
}

/// The abstract state of an engine: kind, state, last granule position.
pub struct PacerModel {
    pub kind: StreamKind,
    pub state: PacerState,
    pub last_granule: u64,
}

/// The engine's transition on one event: its next state and the action.
pub open spec fn pacer_step(p: PacerModel, e: PacerEvent) -> (PacerModel, PacerAction) {
    match (p.state, e) {
        (PacerState::WaitingForStart, PacerEvent::Start) => (
            PacerModel { state: PacerState::Streaming, ..p },
            PacerAction::ReadNext,
        ),
        (PacerState::Streaming, PacerEvent::Unit(g)) => {
            if p.kind == StreamKind::Video {
                (p, PacerAction::Write(VIDEO_SAMPLE_DURATION_MS))
            } else if p.last_granule <= g {
                (
                    PacerModel { last_granule: g, ..p },
                    PacerAction::Write(granule_duration_ms(p.last_granule as int, g as int) as u64),
                )
            } else {
                (PacerModel { state: PacerState::Failed, ..p }, PacerAction::SignalCompletion)
            }
        },
        (PacerState::Streaming, PacerEvent::EndOfStream) => (
            PacerModel { state: PacerState::Finished, ..p },
            PacerAction::SignalCompletion,
        ),
        (PacerState::Streaming, PacerEvent::ReadFailed) => (
            PacerModel { state: PacerState::Failed, ..p },
            PacerAction::SignalCompletion,
        ),
        (PacerState::Streaming, PacerEvent::WriteFailed) => (
            PacerModel { state: PacerState::Failed, ..p },
            PacerAction::Abort,
        ),
        _ => (p, PacerAction::Ignore),
    }
}

/// One pacing engine.
pub struct Pacer {
    kind: StreamKind,
    state: PacerState,
    last_granule: u64,
}

impl View for Pacer {
    type V = PacerModel;

    closed spec fn view(&self) -> PacerModel {
        PacerModel { kind: self.kind, state: self.state, last_granule: self.last_granule }
    }
}

impl Pacer {
    /// A new engine, waiting for the start release; audio pages are timed
    /// against a zero granule position.
    pub fn new(kind: StreamKind) -> (r: Pacer)
        ensures
            r@ == (PacerModel { kind, state: PacerState::WaitingForStart, last_granule: 0 }),
    {
        Pacer { kind, state: PacerState::WaitingForStart, last_granule: 0 }
    }

    pub fn kind(&self) -> (r: StreamKind)
        ensures
            r == self@.kind,
    {
        self.kind
    }

    pub fn state(&self) -> (r: PacerState)
        ensures
            r == self@.state,
    {
        self.state
    }

    /// Period of the stream's tick timer, in milliseconds.
    pub fn tick_period_ms(&self) -> (r: u64)
        ensures
            r == (if self@.kind == StreamKind::Video {
                VIDEO_TICK_MS
            } else {
                AUDIO_TICK_MS
            }),
    {
        match self.kind {
            StreamKind::Video => VIDEO_TICK_MS,
            StreamKind::Audio => AUDIO_TICK_MS,
        }
    }

    /// Applies one event and returns what the caller is to do.
    pub fn handle(&mut self, e: PacerEvent) -> (r: PacerAction)
        ensures
            (final(self)@, r) == pacer_step(old(self)@, e),
    {
        match (self.state, e) {
            (PacerState::WaitingForStart, PacerEvent::Start) => {
                self.state = PacerState::Streaming;
                PacerAction::ReadNext
            },
            (PacerState::Streaming, PacerEvent::Unit(g)) => {
                match self.kind {
                    StreamKind::Video => PacerAction::Write(VIDEO_SAMPLE_DURATION_MS),
                    StreamKind::Audio => {
                        if self.last_granule <= g {
                            let d = audio_sample_duration_ms(self.last_granule, g);
                            self.last_granule = g;
                            PacerAction::Write(d)
                        } else {
                            self.state = PacerState::Failed;
                            PacerAction::SignalCompletion
                        }
                    },
                }
            },
            (PacerState::Streaming, PacerEvent::EndOfStream) => {
                self.state = PacerState::Finished;
                PacerAction::SignalCompletion
            },
            (PacerState::Streaming, PacerEvent::ReadFailed) => {
                self.state = PacerState::Failed;
                PacerAction::SignalCompletion
            },
            (PacerState::Streaming, PacerEvent::WriteFailed) => {
                self.state = PacerState::Failed;
                PacerAction::Abort
            },
            _ => PacerAction::Ignore,
        }
    }
}

/// The durations a streaming audio engine that last saw `last` writes for the
/// pages at granule positions `gs`, in order.
pub open spec fn audio_run(last: u64, gs: Seq<u64>) -> Seq<PacerAction>
    decreases gs.len(),
{
    if gs.len() == 0 {
        seq![]
    } else {
        let (p, a) = pacer_step(
            PacerModel { kind: StreamKind::Audio, state: PacerState::Streaming, last_granule: last },
            PacerEvent::Unit(gs[0]),
        );
        seq![a] + audio_run(p.last_granule, gs.drop_first())
    }
}

/// Over non-decreasing granule positions `g0, g1, ...`, the first taken
/// against zero, an audio engine writes page `i` with duration
/// `(g_i - g_{i-1}) * 1000 / 48000` milliseconds.
pub proof fn lemma_audio_pacing(gs: Seq<u64>)
    requires
        forall|i: int, j: int| 0 <= i <= j < gs.len() ==> gs[i] <= gs[j],
    ensures
        audio_run(0, gs).len() == gs.len(),
        forall|i: int|
            0 <= i < gs.len() ==> #[trigger] audio_run(0, gs)[i] == PacerAction::Write(
                granule_duration_ms(if i == 0 { 0 } else { gs[i - 1] as int }, gs[i] as int) as u64,
            ),
{
    lemma_audio_run(0, gs);
}

proof fn lemma_audio_run(last: u64, gs: Seq<u64>)
    requires
        forall|i: int, j: int| 0 <= i <= j < gs.len() ==> gs[i] <= gs[j],
        gs.len() > 0 ==> last <= gs[0],
    ensures
        audio_run(last, gs).len() == gs.len(),
        forall|i: int|
            0 <= i < gs.len() ==> #[trigger] audio_run(last, gs)[i] == PacerAction::Write(
                granule_duration_ms(if i == 0 { last as int } else { gs[i - 1] as int }, gs[i] as int) as u64,
            ),
    decreases gs.len(),
{
    if gs.len() > 0 {
        let rest = gs.drop_first();
        lemma_audio_run(gs[0], rest);
        assert forall|i: int| 0 <= i < gs.len() implies #[trigger] audio_run(last, gs)[i]
            == PacerAction::Write(
            granule_duration_ms(if i == 0 { last as int } else { gs[i - 1] as int }, gs[i] as int) as u64,
        ) by {
            if i > 0 {
                assert(audio_run(last, gs)[i] == audio_run(gs[0], rest)[i - 1]);
                assert(rest[i - 1] == gs[i]);
                if i > 1 {
                    assert(rest[i - 2] == gs[i - 1]);
                }
            }
        }
    }
}

} // verus!
