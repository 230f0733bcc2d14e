//! The session lifecycle controller: the one-shot start barrier, the
//! single-slot completion signal, and the decisions taken on transport state
//! changes, stream completion and operator cancellation.

use vstd::prelude::*;
use crate::pacing::{PacerAction, PacerEvent, PacerModel, PacerState, pacer_step};

verus! {

/// One-shot gate: fires on the first "connected" transition and never again.
pub struct StartBarrier {
    fired: bool,
}

impl StartBarrier {
    pub closed spec fn fired_spec(&self) -> bool {
        self.fired
    }

    pub fn new() -> (r: StartBarrier)
        ensures
            !r.fired_spec(),
    {
        StartBarrier { fired: false }
    }

    pub fn is_fired(&self) -> (r: bool)
        ensures
            r == self.fired_spec(),
    {
        self.fired
    }

    /// Observes a connectivity state; returns whether the waiters are to be
    /// released now, which happens on the first "connected" state only.
    pub fn on_connectivity(&mut self, connected: bool) -> (release: bool)
        ensures
            release == (connected && !old(self).fired_spec()),
            final(self).fired_spec() == (old(self).fired_spec() || connected),
    {
        if connected && !self.fired {
            self.fired = true;
            true
        } else {
            false
        }
    }
}

/// Single-slot notification: a send never blocks, only the first one is kept,
/// and the receiver observes it once.
pub struct CompletionSignal {
    fired: bool,
    observed: bool,
}

impl CompletionSignal {
    pub closed spec fn fired_spec(&self) -> bool {
        self.fired
    }

    pub closed spec fn observed_spec(&self) -> bool {
        self.observed
    }

    pub fn new() -> (r: CompletionSignal)
        ensures
            !r.fired_spec(),
            !r.observed_spec(),
    {
        CompletionSignal { fired: false, observed: false }
    }

    /// Sends; returns whether this send filled the slot. Later sends are no-ops.
    pub fn fire(&mut self) -> (accepted: bool)
        ensures
            accepted == !old(self).fired_spec(),
            final(self).fired_spec(),
            final(self).observed_spec() == old(self).observed_spec(),
    {
        if self.fired {
            false
        } else {
            self.fired = true;
            true
        }
    }

    /// Receives; returns whether a firing is observed now. A firing is
    /// observed at most once.
    pub fn receive(&mut self) -> (got: bool)
        ensures
            got == (old(self).fired_spec() && !old(self).observed_spec()),
            final(self).fired_spec() == old(self).fired_spec(),
            final(self).observed_spec() == (old(self).observed_spec() || old(self).fired_spec()),
    {
        if self.fired && !self.observed {
            self.observed = true;
            true
        } else {
            false
        }
    }
}

/// Events the controller reacts to.
#[derive(Clone, Copy, Debug, PartialEq, Eq, Structural)]
pub enum SessionEvent {
    /// The transport's connectivity state changed; `true` for "connected".
    ConnectivityChanged(bool),
    /// The transport's session state changed; `true` for the terminal "failed".
    SessionStateChanged(bool),
    /// A pacing engine fired the completion signal.
    StreamFinished,
    /// The operator asked for cancellation.
    Interrupt,
}

/// What the controller asks for.
#[derive(Clone, Copy, Debug, PartialEq, Eq, Structural)]
pub enum SessionAction {
    /// Nothing to do.
    Nothing,
    /// Release the start barrier: start both pacing engines.
    ReleaseStart,
    /// Close the transport; the session is over.
    Close,
}

/// The abstract state of the controller.
pub struct SessionModel {
    pub started: bool,
    pub completion_fired: bool,
    pub closing: bool,
}

/// The controller's transition on one event.
pub open spec fn session_step(s: SessionModel, e: SessionEvent) -> (SessionModel, SessionAction) {
    match e {
        SessionEvent::ConnectivityChanged(connected) => {
            if connected && !s.started && !s.closing {
                (SessionModel { started: true, ..s }, SessionAction::ReleaseStart)
            } else {
                (s, SessionAction::Nothing)
            }
        },
        SessionEvent::SessionStateChanged(failed) => {
            if !failed {
                (s, SessionAction::Nothing)
            } else if s.closing {
                (SessionModel { completion_fired: true, ..s }, SessionAction::Nothing)
            } else {
                (SessionModel { completion_fired: true, closing: true, ..s }, SessionAction::Close)
            }
        },
        SessionEvent::StreamFinished => {
            if s.closing {
                (SessionModel { completion_fired: true, ..s }, SessionAction::Nothing)
            } else {
                (SessionModel { completion_fired: true, closing: true, ..s }, SessionAction::Close)
            }
        },
        SessionEvent::Interrupt => {
            if s.closing {
                (s, SessionAction::Nothing)
            } else {
                (SessionModel { closing: true, ..s }, SessionAction::Close)
            }
        },
    }
}

/// The lifecycle controller of one session.
pub struct Session {
    barrier: StartBarrier,
    completion: CompletionSignal,
    closing: bool,
}

impl View for Session {
    type V = SessionModel;

    closed spec fn view(&self) -> SessionModel {
        SessionModel {
            started: self.barrier.fired,
            completion_fired: self.completion.fired,
            closing: self.closing,
        }
    }
}

impl Session {
    /// A session that has neither started nor finished.
    pub fn new() -> (r: Session)
        ensures
            r@ == (SessionModel { started: false, completion_fired: false, closing: false }),
    {
        Session { barrier: StartBarrier::new(), completion: CompletionSignal::new(), closing: false }
    }

    pub fn is_started(&self) -> (r: bool)
        ensures
            r == self@.started,
    {
        self.barrier.is_fired()
    }

    pub fn is_closing(&self) -> (r: bool)
        ensures
            r == self@.closing,
    {
        self.closing
    }

    /// Fires the completion signal; the first firing that reaches an open
    /// session is observed and closes it.
    fn complete(&mut self) -> (r: SessionAction)
        ensures
            session_step(old(self)@, SessionEvent::StreamFinished) == (final(self)@, r),
    {
        self.completion.fire();
        if self.closing {
            SessionAction::Nothing
        } else {
            self.completion.receive();
            self.closing = true;
            SessionAction::Close
        }
    }

    /// Applies one event and returns what the caller is to do.
    pub fn handle(&mut self, e: SessionEvent) -> (r: SessionAction)
        ensures
            (final(self)@, r) == session_step(old(self)@, e),
    {
        match e {
            SessionEvent::ConnectivityChanged(connected) => {
                if self.closing {
                    SessionAction::Nothing
                } else if self.barrier.on_connectivity(connected) {
                    SessionAction::ReleaseStart
                } else {
                    SessionAction::Nothing
                }
            },
            SessionEvent::SessionStateChanged(failed) => {
                if failed {
                    self.complete()
                } else {
                    SessionAction::Nothing
                }
            },
            SessionEvent::StreamFinished => self.complete(),
            SessionEvent::Interrupt => {
                if self.closing {
                    SessionAction::Nothing
                } else {
                    self.closing = true;
                    SessionAction::Close
                }
            },
        }
    }
}

/// After the first "connected" transition no event releases the start barrier
/// again.
pub proof fn lemma_release_once(s: SessionModel, e: SessionEvent)
    ensures
        session_step(s, e).1 == SessionAction::ReleaseStart ==> e == SessionEvent::ConnectivityChanged(
            true,
        ) && !s.started && session_step(s, e).0.started,
        s.started ==> session_step(s, e).1 != SessionAction::ReleaseStart
            && session_step(s, e).0.started,
{
}

/// Two completion firings, from the same or different sources and in either
/// order, reach a controller that is not yet closing as exactly one close
/// request.
pub proof fn lemma_completion_once(s: SessionModel, a: SessionEvent, b: SessionEvent)
    requires
        !s.closing,
        a == SessionEvent::StreamFinished || a == SessionEvent::SessionStateChanged(true),
        b == SessionEvent::StreamFinished || b == SessionEvent::SessionStateChanged(true),
    ensures
        session_step(s, a).1 == SessionAction::Close,
        session_step(session_step(s, a).0, b).1 == SessionAction::Nothing,
        session_step(session_step(s, a).0, b).0.completion_fired,
{
}

/// Any event of the whole endpoint: to the controller or to one engine. A
/// start reaches the engines only through the barrier's release.
#[derive(Clone, Copy, Debug, PartialEq, Eq, Structural)]
pub enum EndpointEvent {
    Session(SessionEvent),
    Video(PacerEvent),
    Audio(PacerEvent),
}

/// The controller and both engines.
pub struct EndpointModel {
    pub session: SessionModel,
    pub video: PacerModel,
    pub audio: PacerModel,
}

/// The endpoint's transition on one event, and whether it writes a sample.
pub open spec fn endpoint_step(s: EndpointModel, e: EndpointEvent) -> (EndpointModel, bool) {
    match e {
        EndpointEvent::Session(se) => {
            let (ns, a) = session_step(s.session, se);
            if a == SessionAction::ReleaseStart {
                (
                    EndpointModel {
                        session: ns,
                        video: pacer_step(s.video, PacerEvent::Start).0,
                        audio: pacer_step(s.audio, PacerEvent::Start).0,
                    },
                    false,
                )
            } else {
                (EndpointModel { session: ns, ..s }, false)
            }
        },
        EndpointEvent::Video(pe) => {
            if pe == PacerEvent::Start {
                (s, false)
            } else {
                let (v, a) = pacer_step(s.video, pe);
                (EndpointModel { video: v, ..s }, a is Write)
            }
        },
        EndpointEvent::Audio(pe) => {
            if pe == PacerEvent::Start {
                (s, false)
            } else {
                let (v, a) = pacer_step(s.audio, pe);
                (EndpointModel { audio: v, ..s }, a is Write)
            }
        },
    }
}

/// Whether running the events `es` from `s` writes any sample.
pub open spec fn endpoint_writes(s: EndpointModel, es: Seq<EndpointEvent>) -> bool
    decreases es.len(),
{
    if es.len() == 0 {
        false
    } else {
        let (n, w) = endpoint_step(s, es[0]);
        w || endpoint_writes(n, es.drop_first())
    }
}

/// An endpoint that has not started: barrier unfired, both engines waiting.
pub open spec fn not_started(s: EndpointModel) -> bool {
    &&& !s.session.started
    &&& s.video.state == PacerState::WaitingForStart
    &&& s.audio.state == PacerState::WaitingForStart
}

/// In every interleaving of events from an endpoint that has not started, no
/// sample is written unless a "connected" transition is among them.
pub proof fn lemma_no_write_before_connected(s: EndpointModel, es: Seq<EndpointEvent>)
    requires
        not_started(s),
        forall|i: int|
            0 <= i < es.len() ==> #[trigger] es[i] != EndpointEvent::Session(
                SessionEvent::ConnectivityChanged(true),
            ),
    ensures
        !endpoint_writes(s, es),
    decreases es.len(),
{
    if es.len() > 0 {
        assert(es[0] != EndpointEvent::Session(SessionEvent::ConnectivityChanged(true)));
        let n = endpoint_step(s, es[0]).0;
        assert(not_started(n));
        let rest = es.drop_first();
        assert forall|i: int| 0 <= i < rest.len() implies #[trigger] rest[i]
            != EndpointEvent::Session(SessionEvent::ConnectivityChanged(true)) by {
            assert(rest[i] == es[i + 1]);
        }
        lemma_no_write_before_connected(n, rest);
    }
}

} // verus!
