use activity_tracker::{ActivityEvent, LoopAction, LoopInput, Orchestrator, Timestamp};

const BASE: i64 = 1_700_000_000;

fn focus(title: &str, process_name: &str, secs: i64, nanos: u32) -> LoopInput {
    LoopInput::Event {
        event: ActivityEvent { title: title.to_string(), process_name: process_name.to_string() },
        now: Timestamp::new(BASE + secs, nanos).unwrap(),
    }
}

fn moment(secs: i64, nanos: u32) -> Timestamp {
    Timestamp::new(BASE + secs, nanos).unwrap()
}

#[test]
fn new_orchestrator_is_running_with_an_empty_tracker() {
    let orchestrator = Orchestrator::new();
    assert!(!orchestrator.is_stopped());
    assert!(orchestrator.tracker().current().is_none());
}

#[test]
fn first_event_asks_for_the_next_one() {
    let mut orchestrator = Orchestrator::new();
    assert_eq!(orchestrator.step(focus("A", "a.exe", 0, 0)), LoopAction::Receive);
    assert_eq!(orchestrator.tracker().current().unwrap().title, "A");
}

#[test]
fn emitted_segment_is_offered_to_the_store() {
    let mut orchestrator = Orchestrator::new();
    orchestrator.step(focus("A", "a.exe", 0, 0));
    match orchestrator.step(focus("B", "b.exe", 4, 0)) {
        LoopAction::Record(segment) => {
            assert_eq!(segment.process_name(), "a.exe");
            assert_eq!(segment.window_title(), "A");
            assert_eq!(segment.start_time(), moment(0, 0));
            assert_eq!(segment.end_time(), moment(4, 0));
            assert_eq!(segment.duration_seconds(), 4);
        }
        other => panic!("expected a segment, got {:?}", other),
    }
    assert_eq!(orchestrator.step(LoopInput::Stored), LoopAction::Receive);
}

#[test]
fn flicker_is_not_offered_to_the_store() {
    let mut orchestrator = Orchestrator::new();
    orchestrator.step(focus("A", "a.exe", 0, 0));
    assert_eq!(orchestrator.step(focus("B", "b.exe", 0, 500_000_000)), LoopAction::Receive);
    match orchestrator.step(focus("C", "c.exe", 3, 0)) {
        LoopAction::Record(segment) => {
            assert_eq!(segment.window_title(), "B");
            assert_eq!(segment.start_time(), moment(0, 500_000_000));
            assert_eq!(segment.end_time(), moment(3, 0));
            assert_eq!(segment.duration_seconds(), 2);
        }
        other => panic!("expected a segment, got {:?}", other),
    }
}

#[test]
fn store_failure_does_not_stop_the_loop_nor_spoil_the_next_segment() {
    let mut orchestrator = Orchestrator::new();
    orchestrator.step(focus("A", "a.exe", 0, 0));
    let first = orchestrator.step(focus("B", "b.exe", 2, 0));
    assert!(matches!(first, LoopAction::Record(_)));
    assert_eq!(orchestrator.step(LoopInput::StoreFailed), LoopAction::Receive);
    assert!(!orchestrator.is_stopped());
    assert_eq!(orchestrator.tracker().current().unwrap().title, "B");
    assert_eq!(orchestrator.tracker().current().unwrap().start_time, moment(2, 0));
    match orchestrator.step(focus("C", "c.exe", 7, 0)) {
        LoopAction::Record(segment) => {
            assert_eq!(segment.process_name(), "b.exe");
            assert_eq!(segment.window_title(), "B");
            assert_eq!(segment.start_time(), moment(2, 0));
            assert_eq!(segment.end_time(), moment(7, 0));
            assert_eq!(segment.duration_seconds(), 5);
        }
        other => panic!("expected a segment, got {:?}", other),
    }
    assert_eq!(orchestrator.step(LoopInput::Stored), LoopAction::Receive);
}

#[test]
fn store_failure_is_answered_like_success() {
    let mut failing = Orchestrator::new();
    let mut working = Orchestrator::new();
    for orchestrator in [&mut failing, &mut working] {
        orchestrator.step(focus("A", "a.exe", 0, 0));
        orchestrator.step(focus("B", "b.exe", 2, 0));
    }
    assert_eq!(failing.step(LoopInput::StoreFailed), working.step(LoopInput::Stored));
    assert_eq!(failing.step(focus("C", "c.exe", 9, 0)), working.step(focus("C", "c.exe", 9, 0)));
}

#[test]
fn closed_channel_ends_the_loop_and_drops_the_open_segment() {
    let mut orchestrator = Orchestrator::new();
    assert_eq!(orchestrator.step(focus("A", "a.exe", 0, 0)), LoopAction::Receive);
    assert_eq!(orchestrator.step(LoopInput::ChannelClosed), LoopAction::Exit);
    assert!(orchestrator.is_stopped());
    assert_eq!(orchestrator.tracker().current().unwrap().title, "A");
}

#[test]
fn closed_channel_before_any_event_ends_the_loop() {
    let mut orchestrator = Orchestrator::new();
    assert_eq!(orchestrator.step(LoopInput::ChannelClosed), LoopAction::Exit);
    assert!(orchestrator.is_stopped());
    assert!(orchestrator.tracker().current().is_none());
}

#[test]
fn nothing_is_emitted_after_the_loop_has_ended() {
    let mut orchestrator = Orchestrator::new();
    orchestrator.step(focus("A", "a.exe", 0, 0));
    orchestrator.step(LoopInput::ChannelClosed);
    assert_eq!(orchestrator.step(focus("B", "b.exe", 60, 0)), LoopAction::Exit);
    assert_eq!(orchestrator.step(LoopInput::Stored), LoopAction::Exit);
    assert_eq!(orchestrator.step(LoopInput::StoreFailed), LoopAction::Exit);
    assert_eq!(orchestrator.step(LoopInput::ChannelClosed), LoopAction::Exit);
    assert_eq!(orchestrator.tracker().current().unwrap().title, "A");
    assert_eq!(orchestrator.tracker().current().unwrap().start_time, moment(0, 0));
}
