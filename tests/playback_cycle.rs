use video_stage::playback::{
    teardown_next, BusMessage, BusReaction, MessageKind, MessageOrigin, PipelineState, Playback, StepAction,
};

fn running() -> Playback {
    let mut p = Playback::new();
    assert!(p.pipeline_built(true));
    p
}

fn msg(kind: MessageKind, origin: MessageOrigin) -> BusMessage {
    BusMessage { kind, origin }
}

#[test]
fn new_player_is_idle() {
    let p = Playback::new();
    assert_eq!(p, Playback { has_pipeline: false, first: true, stream_running: false });
}

#[test]
fn failed_build_keeps_player_idle() {
    let mut p = Playback::new();
    assert!(!p.pipeline_built(false));
    assert_eq!(p, Playback::new());
    let mut q = p;
    assert_eq!(q.step(), StepAction { start: false, poll_bus: false });
}

#[test]
fn first_frame_starts_then_polls() {
    let mut p = running();
    assert_eq!(p.step(), StepAction { start: true, poll_bus: true });
    assert_eq!(p.step(), StepAction { start: false, poll_bus: true });
    assert!(!p.first);
}

#[test]
fn end_of_stream_from_pipeline_releases() {
    let mut p = running();
    p.step();
    let r = p.on_bus_message(msg(MessageKind::Eos, MessageOrigin::Pipeline));
    assert_eq!(r, BusReaction::EndOfStream);
    assert!(!p.has_pipeline);
    assert!(!p.stream_running);
    assert_eq!(p.step(), StepAction { start: false, poll_bus: false });
}

#[test]
fn end_of_stream_from_element_ignored() {
    let mut p = running();
    let r = p.on_bus_message(msg(MessageKind::Eos, MessageOrigin::OtherElement));
    assert_eq!(r, BusReaction::Ignore);
    assert!(p.has_pipeline);
}

#[test]
fn errors_stop_only_for_pipeline() {
    let mut p = running();
    assert_eq!(p.on_bus_message(msg(MessageKind::Error, MessageOrigin::OtherElement)), BusReaction::Failure { stop: false });
    assert!(p.has_pipeline && p.stream_running);
    assert_eq!(p.on_bus_message(msg(MessageKind::Error, MessageOrigin::Pipeline)), BusReaction::Failure { stop: true });
    assert!(!p.has_pipeline && !p.stream_running);
    assert_eq!(p.on_bus_message(msg(MessageKind::Error, MessageOrigin::Pipeline)), BusReaction::Ignore);
}

#[test]
fn messages_without_source_ignored() {
    let mut p = running();
    for kind in [MessageKind::Eos, MessageKind::Error, MessageKind::Warning, MessageKind::Info] {
        assert_eq!(p.on_bus_message(msg(kind, MessageOrigin::Unknown)), BusReaction::Ignore);
    }
    assert_eq!(p, running());
}

#[test]
fn warnings_and_state_changes() {
    let mut p = running();
    assert_eq!(p.on_bus_message(msg(MessageKind::Warning, MessageOrigin::OtherElement)), BusReaction::Warning);
    assert_eq!(p.on_bus_message(msg(MessageKind::Info, MessageOrigin::Pipeline)), BusReaction::Notice);
    let playing = MessageKind::StateChanged { current: PipelineState::Playing };
    assert_eq!(
        p.on_bus_message(msg(playing, MessageOrigin::Pipeline)),
        BusReaction::StateReached { state: PipelineState::Playing }
    );
    assert_eq!(p.on_bus_message(msg(playing, MessageOrigin::OtherElement)), BusReaction::Ignore);
    assert_eq!(p.on_bus_message(msg(MessageKind::Other, MessageOrigin::Pipeline)), BusReaction::Ignore);
}

#[test]
fn shutdown_winds_down_started_pipeline() {
    let mut p = running();
    p.step();
    let t = p.shutdown();
    assert!(t.stop_sound);
    assert_eq!(t.first_target, Some(PipelineState::Paused));
    assert!(!p.has_pipeline);
    assert_eq!(teardown_next(PipelineState::Paused, true), Some(PipelineState::Null));
    assert_eq!(teardown_next(PipelineState::Paused, false), None);
    assert_eq!(teardown_next(PipelineState::Null, true), None);
}

#[test]
fn shutdown_before_first_frame_and_without_pipeline() {
    let mut p = running();
    let t = p.shutdown();
    assert!(!t.stop_sound);
    assert_eq!(t.first_target, Some(PipelineState::Paused));
    let t2 = p.shutdown();
    assert!(!t2.stop_sound);
    assert_eq!(t2.first_target, None);
}
