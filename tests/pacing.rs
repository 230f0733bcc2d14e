use demo_webrtc::pacing::{
    audio_sample_duration_ms, PacerAction, PacerEvent, PacerState, Pacer, StreamKind,
};

#[test]
fn audio_duration_formula() {
    assert_eq!(audio_sample_duration_ms(0, 960), 20);
    assert_eq!(audio_sample_duration_ms(960, 1920), 20);
    assert_eq!(audio_sample_duration_ms(0, 48000), 1000);
    assert_eq!(audio_sample_duration_ms(100, 100), 0);
    assert_eq!(audio_sample_duration_ms(0, 47), 0);
    assert_eq!(audio_sample_duration_ms(0, 95), 1);
    assert_eq!(audio_sample_duration_ms(0, u64::MAX), u64::MAX / 48);
}

#[test]
fn audio_pages_timed_from_granules() {
    let mut p = Pacer::new(StreamKind::Audio);
    assert_eq!(p.handle(PacerEvent::Start), PacerAction::ReadNext);
    let granules = [0u64, 960, 1920, 4800, 4800, 52800];
    let expected = [0u64, 20, 20, 60, 0, 1000];
    for (g, d) in granules.iter().zip(expected.iter()) {
        assert_eq!(p.handle(PacerEvent::Unit(*g)), PacerAction::Write(*d));
    }
    assert_eq!(p.state(), PacerState::Streaming);
}

#[test]
fn first_audio_page_against_zero() {
    let mut p = Pacer::new(StreamKind::Audio);
    p.handle(PacerEvent::Start);
    assert_eq!(p.handle(PacerEvent::Unit(2880)), PacerAction::Write(60));
}

#[test]
fn decreasing_granule_fails_the_stream() {
    let mut p = Pacer::new(StreamKind::Audio);
    p.handle(PacerEvent::Start);
    p.handle(PacerEvent::Unit(1920));
    assert_eq!(p.handle(PacerEvent::Unit(960)), PacerAction::SignalCompletion);
    assert_eq!(p.state(), PacerState::Failed);
}

#[test]
fn video_units_have_nominal_duration() {
    let mut p = Pacer::new(StreamKind::Video);
    assert_eq!(p.tick_period_ms(), 33);
    p.handle(PacerEvent::Start);
    assert_eq!(p.handle(PacerEvent::Unit(0)), PacerAction::Write(1000));
    assert_eq!(p.handle(PacerEvent::Unit(5)), PacerAction::Write(1000));
}

#[test]
fn audio_tick_period() {
    assert_eq!(Pacer::new(StreamKind::Audio).tick_period_ms(), 20);
    assert_eq!(Pacer::new(StreamKind::Video).kind(), StreamKind::Video);
}

#[test]
fn nothing_written_before_start() {
    let mut p = Pacer::new(StreamKind::Video);
    assert_eq!(p.handle(PacerEvent::Unit(1)), PacerAction::Ignore);
    assert_eq!(p.handle(PacerEvent::EndOfStream), PacerAction::Ignore);
    assert_eq!(p.state(), PacerState::WaitingForStart);
}

#[test]
fn end_of_stream_finishes_and_signals() {
    let mut p = Pacer::new(StreamKind::Video);
    p.handle(PacerEvent::Start);
    assert_eq!(p.handle(PacerEvent::EndOfStream), PacerAction::SignalCompletion);
    assert_eq!(p.state(), PacerState::Finished);
    assert_eq!(p.handle(PacerEvent::Unit(1)), PacerAction::Ignore);
}

#[test]
fn read_failure_fails_and_signals() {
    let mut p = Pacer::new(StreamKind::Audio);
    p.handle(PacerEvent::Start);
    assert_eq!(p.handle(PacerEvent::ReadFailed), PacerAction::SignalCompletion);
    assert_eq!(p.state(), PacerState::Failed);
}

#[test]
fn write_failure_aborts() {
    let mut p = Pacer::new(StreamKind::Video);
    p.handle(PacerEvent::Start);
    assert_eq!(p.handle(PacerEvent::WriteFailed), PacerAction::Abort);
    assert_eq!(p.state(), PacerState::Failed);
}

#[test]
fn second_start_is_ignored() {
    let mut p = Pacer::new(StreamKind::Video);
    assert_eq!(p.handle(PacerEvent::Start), PacerAction::ReadNext);
    assert_eq!(p.handle(PacerEvent::Start), PacerAction::Ignore);
}
