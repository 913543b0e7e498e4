use evdev_midi::conversion::TranslationError;
use evdev_midi::dispatch::{
    dispatch_event, failures_of, messages_of, plan_batch, Dispatcher, LoopPhase, Planned, Step,
    Turn, POLL_INTERVAL_MS,
};
use evdev_midi::event::RawInputEvent;
use evdev_midi::failure::Failure;
use evdev_midi::mapping::Mapping;
use evdev_midi::midi::MidiMessage;
use std::collections::HashMap;

fn table() -> HashMap<u16, u8> {
    let mut mapping = HashMap::new();
    mapping.insert(256, 1);
    mapping.insert(257, 2);
    mapping
}

fn mapping() -> Mapping {
    Mapping { device_name: String::from("Test"), map: table() }
}

#[test]
fn sync_events_are_skipped_without_a_report() {
    assert_eq!(dispatch_event(&table(), &RawInputEvent::new(0, 256, 1)), None);
    assert_eq!(dispatch_event(&table(), &RawInputEvent::new(0, 999, 0)), None);
    let batch = vec![RawInputEvent::new(0, 0, 0), RawInputEvent::new(0, 256, 7)];
    assert_eq!(plan_batch(&table(), &batch), vec![]);
}

#[test]
fn one_event_is_sent_or_reported() {
    let good = RawInputEvent::new(1, 256, 1);
    assert_eq!(
        dispatch_event(&table(), &good),
        Some(Planned {
            event: good,
            step: Step::Send(MidiMessage { status: 144, controller: 1, value: 127 })
        })
    );
    let bad = RawInputEvent::new(4, 256, 1);
    assert_eq!(
        dispatch_event(&table(), &bad),
        Some(Planned { event: bad, step: Step::Report(TranslationError::InvalidEventType) })
    );
}

#[test]
fn valid_events_are_sent_in_order() {
    let batch = vec![
        RawInputEvent::new(1, 256, 1),
        RawInputEvent::new(3, 257, 4095),
        RawInputEvent::new(1, 256, 0),
        RawInputEvent::new(3, 256, 2048),
        RawInputEvent::new(1, 257, 9),
    ];
    let plan = plan_batch(&table(), &batch);
    assert_eq!(plan.len(), 5);
    assert_eq!(
        messages_of(&plan),
        vec![
            MidiMessage { status: 144, controller: 1, value: 127 },
            MidiMessage { status: 176, controller: 2, value: 127 },
            MidiMessage { status: 128, controller: 1, value: 0 },
            MidiMessage { status: 176, controller: 1, value: 63 },
            MidiMessage { status: 144, controller: 2, value: 127 },
        ]
    );
    assert_eq!(failures_of(&plan), vec![]);
    for (entry, event) in plan.iter().zip(batch.iter()) {
        assert_eq!(entry.event, *event);
    }
}

#[test]
fn a_bad_event_does_not_touch_its_neighbours() {
    let first = RawInputEvent::new(1, 256, 1);
    let bad = RawInputEvent::new(1, 300, 1);
    let third = RawInputEvent::new(3, 257, 0);
    let plan = plan_batch(&table(), &vec![first, bad, third]);
    assert_eq!(
        plan,
        vec![
            Planned {
                event: first,
                step: Step::Send(MidiMessage { status: 144, controller: 1, value: 127 })
            },
            Planned { event: bad, step: Step::Report(TranslationError::InvalidEventCode) },
            Planned {
                event: third,
                step: Step::Send(MidiMessage { status: 176, controller: 2, value: 0 })
            },
        ]
    );
    assert_eq!(messages_of(&plan).len(), 2);
    assert_eq!(failures_of(&plan), vec![Failure::InvalidEventCode]);
}

#[test]
fn plan_of_two_batches_is_the_two_plans_in_a_row() {
    let first = vec![RawInputEvent::new(1, 256, 1), RawInputEvent::new(0, 0, 0)];
    let second = vec![RawInputEvent::new(7, 256, 1), RawInputEvent::new(3, 257, 100)];
    let mut both = first.clone();
    both.extend(second.iter().cloned());
    let mut expected = plan_batch(&table(), &first);
    expected.extend(plan_batch(&table(), &second));
    assert_eq!(plan_batch(&table(), &both), expected);
    assert_eq!(expected.len(), 3);
}

#[test]
fn mixed_batch_keeps_reports_in_order() {
    let batch = vec![
        RawInputEvent::new(2, 256, 1),
        RawInputEvent::new(0, 0, 0),
        RawInputEvent::new(3, 999, 1),
        RawInputEvent::new(1, 257, 0),
    ];
    let plan = plan_batch(&table(), &batch);
    assert_eq!(failures_of(&plan), vec![Failure::InvalidEventType, Failure::InvalidEventCode]);
    assert_eq!(messages_of(&plan), vec![MidiMessage { status: 128, controller: 2, value: 0 }]);
}

#[test]
fn empty_batch_has_an_empty_plan() {
    assert_eq!(plan_batch(&table(), &vec![]), vec![]);
}

#[test]
fn poll_interval_is_five_milliseconds() {
    assert_eq!(POLL_INTERVAL_MS, 5);
}

#[test]
fn loop_polls_while_the_flag_is_up() {
    let mut worker = Dispatcher::new(mapping());
    assert_eq!(worker.current_phase(), LoopPhase::Opening);
    assert_eq!(worker.device_name(), "Test");
    assert_eq!(worker.sink_opened(true), Ok(()));
    assert_eq!(worker.current_phase(), LoopPhase::Polling);
    assert_eq!(worker.next_turn(true), Turn::Poll);
    assert_eq!(worker.current_phase(), LoopPhase::Polling);
    let plan = worker.process(&vec![RawInputEvent::new(1, 256, 0)]);
    assert_eq!(messages_of(&plan), vec![MidiMessage { status: 128, controller: 1, value: 0 }]);
    assert_eq!(worker.next_turn(true), Turn::Poll);
    assert_eq!(worker.next_turn(false), Turn::Exit);
    assert_eq!(worker.current_phase(), LoopPhase::Finished);
}

#[test]
fn loop_ends_without_a_poll_when_the_sink_does_not_open() {
    let mut worker = Dispatcher::new(mapping());
    assert_eq!(worker.sink_opened(false), Err(Failure::SinkInitFailure));
    assert_eq!(worker.current_phase(), LoopPhase::Finished);
}

#[test]
fn failed_send_does_not_end_the_loop() {
    let mut worker = Dispatcher::new(mapping());
    assert_eq!(worker.sink_opened(true), Ok(()));
    assert_eq!(worker.send_failed(), Failure::SendFailure);
    assert!(!worker.send_failed().is_fatal());
    assert_eq!(worker.current_phase(), LoopPhase::Polling);
    assert_eq!(worker.next_turn(true), Turn::Poll);
}

#[test]
fn failed_read_ends_the_loop() {
    let mut worker = Dispatcher::new(mapping());
    assert_eq!(worker.sink_opened(true), Ok(()));
    let failure = worker.source_failed();
    assert_eq!(failure, Failure::SourceReadFailure);
    assert!(failure.is_fatal());
    assert_eq!(worker.current_phase(), LoopPhase::Finished);
}

#[test]
fn failures_and_their_texts() {
    assert_eq!(
        Failure::from_translation(TranslationError::InvalidEventType),
        Failure::InvalidEventType
    );
    assert_eq!(
        Failure::from_translation(TranslationError::InvalidEventCode),
        Failure::InvalidEventCode
    );
    assert_eq!(Failure::InvalidEventType.message(), "Invalid event type.");
    assert_eq!(Failure::InvalidEventCode.message(), "Invalid event code.");
    assert_eq!(Failure::SendFailure.message(), "Could not send event.");
    assert_eq!(Failure::SinkInitFailure.message(), "Could not create MIDI transmitter.");
    assert_eq!(Failure::SourceReadFailure.message(), "Could not read input events.");
    assert_eq!(Failure::JoinFailure.message(), "Failed to join worker thread.");
    assert!(Failure::SinkInitFailure.is_fatal());
    assert!(!Failure::InvalidEventType.is_fatal());
    assert!(!Failure::InvalidEventCode.is_fatal());
    assert!(!Failure::JoinFailure.is_fatal());
}
