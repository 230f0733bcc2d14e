use demo_webrtc::lifecycle::{CompletionSignal, Session, SessionAction, SessionEvent, StartBarrier};
use demo_webrtc::pacing::{PacerAction, PacerEvent, Pacer, StreamKind};

#[test]
fn barrier_fires_on_first_connected_only() {
    let mut b = StartBarrier::new();
    assert!(!b.on_connectivity(false));
    assert!(b.on_connectivity(true));
    assert!(b.is_fired());
    assert!(!b.on_connectivity(true));
    assert!(!b.on_connectivity(false));
    assert!(b.is_fired());
}

#[test]
fn completion_signal_observed_once() {
    let mut c = CompletionSignal::new();
    assert!(!c.receive());
    assert!(c.fire());
    assert!(!c.fire());
    assert!(c.receive());
    assert!(!c.receive());
}

#[test]
fn second_connected_does_not_release_again() {
    let mut s = Session::new();
    assert_eq!(s.handle(SessionEvent::ConnectivityChanged(false)), SessionAction::Nothing);
    assert_eq!(s.handle(SessionEvent::ConnectivityChanged(true)), SessionAction::ReleaseStart);
    assert_eq!(s.handle(SessionEvent::ConnectivityChanged(false)), SessionAction::Nothing);
    assert_eq!(s.handle(SessionEvent::ConnectivityChanged(true)), SessionAction::Nothing);
    assert!(s.is_started());
}

#[test]
fn two_completions_give_one_close() {
    let mut s = Session::new();
    s.handle(SessionEvent::ConnectivityChanged(true));
    assert_eq!(s.handle(SessionEvent::StreamFinished), SessionAction::Close);
    assert_eq!(s.handle(SessionEvent::SessionStateChanged(true)), SessionAction::Nothing);
    assert_eq!(s.handle(SessionEvent::StreamFinished), SessionAction::Nothing);
}

#[test]
fn failed_session_state_closes() {
    let mut s = Session::new();
    assert_eq!(s.handle(SessionEvent::SessionStateChanged(false)), SessionAction::Nothing);
    assert_eq!(s.handle(SessionEvent::SessionStateChanged(true)), SessionAction::Close);
    assert!(s.is_closing());
}

#[test]
fn video_exhausts_before_audio() {
    let mut s = Session::new();
    let mut video = Pacer::new(StreamKind::Video);
    let mut audio = Pacer::new(StreamKind::Audio);
    assert_eq!(s.handle(SessionEvent::ConnectivityChanged(true)), SessionAction::ReleaseStart);
    video.handle(PacerEvent::Start);
    audio.handle(PacerEvent::Start);
    assert_eq!(video.handle(PacerEvent::Unit(0)), PacerAction::Write(1000));
    assert_eq!(audio.handle(PacerEvent::Unit(960)), PacerAction::Write(20));
    assert_eq!(video.handle(PacerEvent::EndOfStream), PacerAction::SignalCompletion);
    assert_eq!(s.handle(SessionEvent::StreamFinished), SessionAction::Close);
    assert_eq!(audio.handle(PacerEvent::Unit(1920)), PacerAction::Write(20));
}

#[test]
fn cancellation_before_connected() {
    let mut s = Session::new();
    let mut video = Pacer::new(StreamKind::Video);
    let mut audio = Pacer::new(StreamKind::Audio);
    assert_eq!(s.handle(SessionEvent::Interrupt), SessionAction::Close);
    assert_eq!(s.handle(SessionEvent::ConnectivityChanged(true)), SessionAction::Nothing);
    assert!(!s.is_started());
    assert_eq!(video.handle(PacerEvent::Unit(0)), PacerAction::Ignore);
    assert_eq!(audio.handle(PacerEvent::Unit(960)), PacerAction::Ignore);
    assert_eq!(s.handle(SessionEvent::StreamFinished), SessionAction::Nothing);
}
