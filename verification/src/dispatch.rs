use crate::conversion::{deliverable, message_for, translate, translation, TranslationError};
use crate::event::RawInputEvent;
use crate::failure::Failure;
use crate::mapping::Mapping;
use crate::midi::MidiMessage;
use std::collections::HashMap;
use vstd::prelude::*;

verus! {

/// How long the worker rests after a batch before it looks at the stop flag
/// again, in milliseconds.
pub const POLL_INTERVAL_MS: u64 = 5;

/// What the worker does with one event of a batch.
#[derive(Clone, Copy, Debug, PartialEq, Eq, Structural)]
pub enum Step {
    /// Hand the message to the sink.
    Send(MidiMessage),
    /// Drop the event and report why.
    Report(TranslationError),
}

/// One event of a batch together with what is done with it.
#[derive(Clone, Copy, Debug, PartialEq, Eq, Structural)]
pub struct Planned {
    pub event: RawInputEvent,
    pub step: Step,
}

/// The step for an event that is not a synchronisation event.
pub open spec fn step_for(mapping: Map<u16, u8>, event: RawInputEvent) -> Step {
    match translation(mapping, event) {
        Ok(message) => Step::Send(message),
        Err(error) => Step::Report(error),
    }
}

/// What one event contributes to the plan of its batch: nothing if it is a
/// synchronisation event, else the event with its step.
pub open spec fn planned(mapping: Map<u16, u8>, event: RawInputEvent) -> Option<Planned> {
    if event.sync() {
        None
    } else {
        Some(Planned { event, step: step_for(mapping, event) })
    }
}

/// The plan of a batch: its events in the order they came, without the
/// synchronisation events, each with its own step.
pub open spec fn plan(mapping: Map<u16, u8>, events: Seq<RawInputEvent>) -> Seq<Planned> {
    events.filter_map(|event: RawInputEvent| planned(mapping, event))
}

/// The message of an entry that is sent.
pub open spec fn sent_message(entry: Planned) -> Option<MidiMessage> {
    match entry.step {
        Step::Send(message) => Some(message),
        Step::Report(_) => None,
    }
}

/// The failure of an entry that is reported.
pub open spec fn reported_failure(entry: Planned) -> Option<Failure> {
    match entry.step {
        Step::Send(_) => None,
        Step::Report(error) => Some(Failure::of(error)),
    }
}

/// The messages that a plan hands to the sink, in order.
pub open spec fn sends(entries: Seq<Planned>) -> Seq<MidiMessage> {
    entries.filter_map(|entry: Planned| sent_message(entry))
}

/// The failures that a plan reports, in order.
pub open spec fn reports(entries: Seq<Planned>) -> Seq<Failure> {
    entries.filter_map(|entry: Planned| reported_failure(entry))
}

/// Decides what to do with one event.
pub fn dispatch_event(mapping: &HashMap<u16, u8>, event: &RawInputEvent) -> (r: Option<Planned>)
    ensures
        r == planned(mapping@, *event),
{
    if event.is_sync() {
        None
    } else {
        let step = match translate(mapping, event) {
            Ok(message) => Step::Send(message),
            Err(error) => Step::Report(error),
        };
        Some(Planned { event: *event, step })
    }
}

/// Decides what to do with each event of a batch. A failed event never
/// touches the events around it.
pub fn plan_batch(mapping: &HashMap<u16, u8>, events: &Vec<RawInputEvent>) -> (entries: Vec<
    Planned,
>)
    ensures
        entries@ == plan(mapping@, events@),
{
    let mut entries: Vec<Planned> = Vec::new();
    let mut i: usize = 0;
    while i < events.len()
        invariant
            0 <= i <= events.len(),
            entries@ == plan(mapping@, events@.take(i as int)),
        decreases events.len() - i,
    {
        proof {
            events@.lemma_filter_map_take_succ(
                |event: RawInputEvent| planned(mapping@, event),
                i as int,
            );
        }
        match dispatch_event(mapping, &events[i]) {
            Some(entry) => {
                entries.push(entry);
            },
            None => {},
        }
        i = i + 1;
    }
    proof {
        assert(events@.take(events.len() as int) =~= events@);
    }
    entries
}

/// The messages of a plan, in the order in which the sink is to get them.
pub fn messages_of(entries: &Vec<Planned>) -> (out: Vec<MidiMessage>)
    ensures
        out@ == sends(entries@),
{
    let mut out: Vec<MidiMessage> = Vec::new();
    let mut i: usize = 0;
    while i < entries.len()
        invariant
            0 <= i <= entries.len(),
            out@ == sends(entries@.take(i as int)),
        decreases entries.len() - i,
    {
        proof {
            entries@.lemma_filter_map_take_succ(|entry: Planned| sent_message(entry), i as int);
        }
        match entries[i].step {
            Step::Send(message) => {
                out.push(message);
            },
            Step::Report(_) => {},
        }
        i = i + 1;
    }
    proof {
        assert(entries@.take(entries.len() as int) =~= entries@);
    }
    out
}

/// The failures of a plan, in the order in which they are to be reported.
pub fn failures_of(entries: &Vec<Planned>) -> (out: Vec<Failure>)
    ensures
        out@ == reports(entries@),
{
    let mut out: Vec<Failure> = Vec::new();
    let mut i: usize = 0;
    while i < entries.len()
        invariant
            0 <= i <= entries.len(),
            out@ == reports(entries@.take(i as int)),
        decreases entries.len() - i,
    {
        proof {
            entries@.lemma_filter_map_take_succ(
                |entry: Planned| reported_failure(entry),
                i as int,
            );
        }
        match entries[i].step {
            Step::Send(_) => {},
            Step::Report(error) => {
                out.push(Failure::from_translation(error));
            },
        }
        i = i + 1;
    }
    proof {
        assert(entries@.take(entries.len() as int) =~= entries@);
    }
    out
}

/// Where the polling loop stands.
#[derive(Clone, Copy, Debug, PartialEq, Eq, Structural)]
pub enum LoopPhase {
    /// The sink has not been opened yet.
    Opening,
    /// The sink is open; batches are polled until a stop is seen.
    Polling,
    /// The loop has returned.
    Finished,
}

/// What the loop does at the top of an iteration.
#[derive(Clone, Copy, Debug, PartialEq, Eq, Structural)]
pub enum Turn {
    /// Read the next batch, carry out its plan, rest `POLL_INTERVAL_MS`.
    Poll,
    /// Return.
    Exit,
}

/// The turn that follows from the stop flag as read at the top of an
/// iteration (`true` while the worker is to go on).
pub open spec fn turn_for(running: bool) -> Turn {
    if running {
        Turn::Poll
    } else {
        Turn::Exit
    }
}

/// Where a polling loop stands once it has taken a turn.
pub open spec fn phase_after(turn: Turn) -> LoopPhase {
    match turn {
        Turn::Poll => LoopPhase::Polling,
        Turn::Exit => LoopPhase::Finished,
    }
}

/// The decisions of the polling loop. The loop itself opens the sink, reads
/// the stop flag and the source, sends and sleeps; after each of these it
/// asks here what comes next.
pub struct Dispatcher {
    phase: LoopPhase,
    mapping: Mapping,
}

impl Dispatcher {
    pub closed spec fn phase(&self) -> LoopPhase {
        self.phase
    }

    pub closed spec fn table(&self) -> Map<u16, u8> {
        self.mapping.map@
    }

    /// Name of the device that the table was written for.
    pub closed spec fn device(&self) -> Seq<char> {
        self.mapping.device_name@
    }

    /// A loop that has its table and has not opened the sink yet.
    pub fn new(mapping: Mapping) -> (d: Dispatcher)
        ensures
            d.phase() == LoopPhase::Opening,
            d.table() == mapping.map@,
            d.device() == mapping.device_name@,
    {
        Dispatcher { phase: LoopPhase::Opening, mapping }
    }

    pub fn current_phase(&self) -> (p: LoopPhase)
        ensures
            p == self.phase(),
    {
        self.phase
    }

    pub fn device_name(&self) -> (name: &String)
        ensures
            name@ == self.device(),
    {
        &self.mapping.device_name
    }

    /// Takes the outcome of opening the sink. With the sink open the loop
    /// begins to poll; without it the loop is over before its first poll.
    pub fn sink_opened(&mut self, ready: bool) -> (r: Result<(), Failure>)
        requires
            old(self).phase() == LoopPhase::Opening,
        ensures
            final(self).table() == old(self).table(),
            final(self).device() == old(self).device(),
            ready ==> final(self).phase() == LoopPhase::Polling && r == Ok::<(), Failure>(()),
            !ready ==> final(self).phase() == LoopPhase::Finished && r == Err::<(), Failure>(
                Failure::SinkInitFailure,
            ),
    {
        if ready {
            self.phase = LoopPhase::Polling;
            Ok(())
        } else {
            self.phase = LoopPhase::Finished;
            Err(Failure::SinkInitFailure)
        }
    }

    /// Takes the stop flag as read at the top of an iteration. A stop is seen
    /// here and nowhere else, so never in the middle of a batch.
    pub fn next_turn(&mut self, running: bool) -> (turn: Turn)
        requires
            old(self).phase() == LoopPhase::Polling,
        ensures
            final(self).table() == old(self).table(),
            final(self).device() == old(self).device(),
            turn == turn_for(running),
            final(self).phase() == phase_after(turn),
    {
        if running {
            Turn::Poll
        } else {
            self.phase = LoopPhase::Finished;
            Turn::Exit
        }
    }

    /// Plans the batch that was just read.
    pub fn process(&self, batch: &Vec<RawInputEvent>) -> (entries: Vec<Planned>)
        requires
            self.phase() == LoopPhase::Polling,
        ensures
            entries@ == plan(self.table(), batch@),
    {
        plan_batch(&self.mapping.map, batch)
    }

    /// Takes a failed send. The message is neither retried nor queued, and
    /// the loop goes on.
    pub fn send_failed(&self) -> (f: Failure)
        requires
            self.phase() == LoopPhase::Polling,
        ensures
            f == Failure::SendFailure,
            !f.fatal(),
    {
        Failure::SendFailure
    }

    /// Takes a failed read of the source, which ends the loop.
    pub fn source_failed(&mut self) -> (f: Failure)
        requires
            old(self).phase() == LoopPhase::Polling,
        ensures
            final(self).table() == old(self).table(),
            final(self).device() == old(self).device(),
            final(self).phase() == LoopPhase::Finished,
            f == Failure::SourceReadFailure,
            f.fatal(),
    {
        self.phase = LoopPhase::Finished;
        Failure::SourceReadFailure
    }
}

/// The message that an event puts on the wire, if it has a translation.
pub open spec fn delivered(mapping: Map<u16, u8>, event: RawInputEvent) -> Option<MidiMessage> {
    match translation(mapping, event) {
        Ok(message) => Some(message),
        Err(_) => None,
    }
}

/// The failure that an event is reported with, if it is dropped with one.
pub open spec fn rejected(mapping: Map<u16, u8>, event: RawInputEvent) -> Option<Failure> {
    if event.sync() {
        None
    } else {
        match translation(mapping, event) {
            Ok(_) => None,
            Err(error) => Some(Failure::of(error)),
        }
    }
}

/// The plan of two batches in a row is the plan of the first followed by the
/// plan of the second: what is done with an event never depends on the
/// events before or after it.
pub proof fn lemma_plan_concat(
    mapping: Map<u16, u8>,
    first: Seq<RawInputEvent>,
    second: Seq<RawInputEvent>,
)
    ensures
        plan(mapping, first + second) == plan(mapping, first) + plan(mapping, second),
    decreases second.len(),
{
    if second.len() == 0 {
        assert(first + second =~= first);
        assert(plan(mapping, first) + plan(mapping, second) =~= plan(mapping, first));
    } else {
        lemma_plan_concat(mapping, first, second.drop_last());
        assert((first + second).drop_last() =~= first + second.drop_last());
        assert((first + second).last() == second.last());
        assert(plan(mapping, first + second) =~= plan(mapping, first) + plan(mapping, second));
    }
}

/// The sink gets the translations of exactly the events that have one, in
/// the order of the events; the reports are those of exactly the other
/// events that are not synchronisation events, in the order of the events.
/// Every entry of the plan is one or the other.
pub proof fn lemma_plan_keeps_order(mapping: Map<u16, u8>, events: Seq<RawInputEvent>)
    ensures
        sends(plan(mapping, events)) == events.filter_map(
            |event: RawInputEvent| delivered(mapping, event),
        ),
        reports(plan(mapping, events)) == events.filter_map(
            |event: RawInputEvent| rejected(mapping, event),
        ),
        plan(mapping, events).len() == sends(plan(mapping, events)).len() + reports(
            plan(mapping, events),
        ).len(),
    decreases events.len(),
{
    if events.len() != 0 {
        let rest = events.drop_last();
        lemma_plan_keeps_order(mapping, rest);
        match planned(mapping, events.last()) {
            Some(entry) => {
                let whole = plan(mapping, rest) + seq![entry];
                assert(whole.drop_last() =~= plan(mapping, rest));
                assert(whole.last() == entry);
                assert(plan(mapping, events) == whole);
            },
            None => {},
        }
    }
}

/// When every event of a batch has a translation, the sink gets as many
/// messages as there are events, the message at each place is the
/// translation of the event at that place, and nothing is reported.
pub proof fn lemma_order_preserved(mapping: Map<u16, u8>, events: Seq<RawInputEvent>)
    requires
        forall|i: int| 0 <= i < events.len() ==> deliverable(mapping, #[trigger] events[i]),
    ensures
        sends(plan(mapping, events)).len() == events.len(),
        forall|i: int|
            0 <= i < events.len() ==> translation(mapping, events[i]) == Ok::<
                MidiMessage,
                TranslationError,
            >(#[trigger] sends(plan(mapping, events))[i]),
        reports(plan(mapping, events)).len() == 0,
    decreases events.len(),
{
    lemma_plan_keeps_order(mapping, events);
    if events.len() != 0 {
        let rest = events.drop_last();
        lemma_order_preserved(mapping, rest);
        lemma_plan_keeps_order(mapping, rest);
        assert(deliverable(mapping, events[events.len() - 1]));
    }
}

/// A dropped event between two good ones costs neither of them: the sink
/// gets the translations of the first and the third, in that order, and the
/// second is the one report.
pub proof fn lemma_failure_isolated(
    mapping: Map<u16, u8>,
    before: RawInputEvent,
    bad: RawInputEvent,
    after: RawInputEvent,
)
    requires
        deliverable(mapping, before),
        deliverable(mapping, after),
        bad.translatable(),
        !mapping.contains_key(bad.code),
    ensures
        sends(plan(mapping, seq![before, bad, after])) == seq![
            message_for(mapping, before),
            message_for(mapping, after),
        ],
        reports(plan(mapping, seq![before, bad, after])) == seq![Failure::InvalidEventCode],
{
    let events = seq![before, bad, after];
    let one = seq![before];
    let two = seq![before, bad];
    assert(one.drop_last() =~= Seq::<RawInputEvent>::empty());
    assert(two.drop_last() =~= one);
    assert(events.drop_last() =~= two);
    lemma_plan_keeps_order(mapping, events);
    assert(events.filter_map(|event: RawInputEvent| delivered(mapping, event)) =~= seq![
        message_for(mapping, before),
        message_for(mapping, after),
    ]) by {
        reveal_with_fuel(Seq::filter_map, 4);
    }
    assert(events.filter_map(|event: RawInputEvent| rejected(mapping, event)) =~= seq![
        Failure::InvalidEventCode,
    ]) by {
        reveal_with_fuel(Seq::filter_map, 4);
    }
}

} // verus!
