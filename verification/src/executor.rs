//! The pump: it takes the events of a source one at a time and hands each
//! to a sink, whatever the sink makes of it.

use crate::types::Event;
use vstd::prelude::*;

verus! {

/// Where a run of the pump stands.
#[derive(Debug, Clone, Copy, PartialEq, Eq, Structural)]
pub enum Phase {
    /// The source has been asked to start.
    Starting,
    /// The next event of the stream is awaited.
    Receiving,
    /// The sink has an event and has not answered yet.
    Sinking,
    /// The run is over.
    Finished,
}

/// What the driver of the pump reports. `E` is the error that sources and
/// sinks fail with.
#[derive(Debug, PartialEq, Eq)]
pub enum Signal<E> {
    /// The source started and the stream is open.
    Started,
    /// The source did not start.
    StartFailed(E),
    /// The stream yielded this event.
    Received(Event),
    /// The stream has ended.
    Closed,
    /// The sink answered.
    Sunk(Result<(), E>),
}

/// What the driver of the pump is to do next.
#[derive(Debug, PartialEq, Eq)]
pub enum Effect<E> {
    /// Await the next event of the stream.
    Receive,
    /// Hand this event to the sink and await its answer.
    Sink(Event),
    /// Return from the run with this result.
    Finish(Result<(), E>),
    /// Go on with what was already asked for.
    Wait,
}

/// The answer of the pump to one signal: what to do, and the failure to
/// write down, if the sink just failed.
#[derive(Debug, PartialEq, Eq)]
pub struct Turn<E> {
    pub effect: Effect<E>,
    pub report: Option<E>,
}

/// The pump's rule: from a phase and a signal to the next phase and the
/// turn to take.
///
/// A source that fails to start ends the run with its error, before any
/// event. An event that arrives goes to the sink. Whatever the sink answers,
/// the next event is awaited; a failure is only written down. The end of
/// the stream ends the run successfully. A signal that does not answer what
/// was asked for changes nothing.
pub open spec fn pump_step<E>(phase: Phase, signal: Signal<E>) -> (Phase, Turn<E>) {
    match (phase, signal) {
        (Phase::Starting, Signal::Started) => (
            Phase::Receiving,
            Turn { effect: Effect::Receive, report: None },
        ),
        (Phase::Starting, Signal::StartFailed(error)) => (
            Phase::Finished,
            Turn { effect: Effect::Finish(Err(error)), report: None },
        ),
        (Phase::Receiving, Signal::Received(event)) => (
            Phase::Sinking,
            Turn { effect: Effect::Sink(event), report: None },
        ),
        (Phase::Receiving, Signal::Closed) => (
            Phase::Finished,
            Turn { effect: Effect::Finish(Ok(())), report: None },
        ),
        (Phase::Sinking, Signal::Sunk(Ok(_))) => (
            Phase::Receiving,
            Turn { effect: Effect::Receive, report: None },
        ),
        (Phase::Sinking, Signal::Sunk(Err(error))) => (
            Phase::Receiving,
            Turn { effect: Effect::Receive, report: Some(error) },
        ),
        (_, _) => (phase, Turn { effect: Effect::Wait, report: None }),
    }
}

/// The turns that the pump takes, one for each signal, from a phase on.
pub open spec fn turns<E>(phase: Phase, signals: Seq<Signal<E>>) -> Seq<Turn<E>>
    decreases signals.len(),
{
    if signals.len() == 0 {
        Seq::empty()
    } else {
        let (next, turn) = pump_step(phase, signals[0]);
        seq![turn] + turns(next, signals.drop_first())
    }
}

/// The events that a sequence of turns hands to the sink, in their order.
pub open spec fn forwarded<E>(taken: Seq<Turn<E>>) -> Seq<Event>
    decreases taken.len(),
{
    if taken.len() == 0 {
        Seq::empty()
    } else {
        match taken[0].effect {
            Effect::Sink(event) => seq![event] + forwarded(taken.drop_first()),
            _ => forwarded(taken.drop_first()),
        }
    }
}

/// What a driver reports once the stream is open, for a stream that yields
/// `events` and then ends and a sink that answers the i-th event with
/// `answers[i]`.
pub open spec fn stream_signals<E>(events: Seq<Event>, answers: Seq<Result<(), E>>) -> Seq<
    Signal<E>,
>
    recommends
        events.len() == answers.len(),
    decreases events.len(),
{
    if events.len() == 0 {
        seq![Signal::Closed]
    } else {
        seq![Signal::Received(events[0]), Signal::Sunk(answers[0])] + stream_signals(
            events.drop_first(),
            answers.drop_first(),
        )
    }
}

/// What a driver reports over a whole run whose source starts.
pub open spec fn run_signals<E>(events: Seq<Event>, answers: Seq<Result<(), E>>) -> Seq<
    Signal<E>,
>
    recommends
        events.len() == answers.len(),
{
    seq![Signal::Started] + stream_signals(events, answers)
}

proof fn lemma_stream<E>(events: Seq<Event>, answers: Seq<Result<(), E>>)
    requires
        events.len() == answers.len(),
    ensures
        ({
            let taken = turns(Phase::Receiving, stream_signals(events, answers));
            &&& taken.len() == 2 * events.len() + 1
            &&& forwarded(taken) == events
            &&& taken.last().effect == Effect::<E>::Finish(Ok(()))
            &&& forall|i: int|
                0 <= i < taken.len() - 1 ==> !((#[trigger] taken[i]).effect is Finish)
        }),
    decreases events.len(),
{
    let signals = stream_signals(events, answers);
    let taken = turns(Phase::Receiving, signals);
    if events.len() == 0 {
        assert(signals =~= seq![Signal::<E>::Closed]);
        assert(signals.drop_first() =~= Seq::<Signal<E>>::empty());
        assert(turns(Phase::Finished, signals.drop_first()) =~= Seq::<Turn<E>>::empty());
        assert(taken =~= seq![Turn { effect: Effect::<E>::Finish(Ok(())), report: None }]);
        assert(taken.drop_first() =~= Seq::<Turn<E>>::empty());
        assert(forwarded(taken.drop_first()) =~= Seq::<Event>::empty());
        assert(forwarded(taken) =~= events);
    } else {
        let rest_events = events.drop_first();
        let rest_answers = answers.drop_first();
        let rest_signals = stream_signals(rest_events, rest_answers);
        let rest = turns(Phase::Receiving, rest_signals);
        lemma_stream(rest_events, rest_answers);
        let after_first = signals.drop_first();
        assert(after_first =~= seq![Signal::Sunk(answers[0])] + rest_signals);
        assert(after_first.drop_first() =~= rest_signals);
        assert(after_first[0] == Signal::Sunk(answers[0]));
        let sunk = pump_step(Phase::Sinking, after_first[0]);
        assert(sunk.0 == Phase::Receiving && sunk.1.effect == Effect::<E>::Receive);
        let tail = turns(Phase::Sinking, after_first);
        assert(tail =~= seq![sunk.1] + rest);
        assert(tail.drop_first() =~= rest);
        let first = Turn { effect: Effect::<E>::Sink(events[0]), report: None };
        assert(taken =~= seq![first] + tail);
        assert(taken.drop_first() =~= tail);
        assert(forwarded(tail) == forwarded(rest));
        assert(forwarded(taken) =~= seq![events[0]] + forwarded(tail));
        assert(forwarded(taken) =~= events);
        assert(taken.last() == rest.last());
        assert forall|i: int| 0 <= i < taken.len() - 1 implies !((#[trigger] taken[i]).effect
            is Finish) by {
            if i >= 2 {
                assert(taken[i] == rest[i - 2]);
            }
        }
    }
}

/// Every event of the stream reaches the sink, once and in the order of
/// the stream, and the run then ends successfully: for a source that starts
/// and yields `events`, whatever the sink answers to each of them, the pump
/// hands the sink exactly `events`, finishes with success at the end of the
/// stream, and not before.
pub proof fn lemma_run_forwards_every_event<E>(events: Seq<Event>, answers: Seq<Result<(), E>>)
    requires
        events.len() == answers.len(),
    ensures
        ({
            let taken = turns(Phase::Starting, run_signals(events, answers));
            &&& taken.len() == 2 * events.len() + 2
            &&& forwarded(taken) == events
            &&& forwarded(taken).len() == events.len()
            &&& taken.last().effect == Effect::<E>::Finish(Ok(()))
            &&& forall|i: int|
                0 <= i < taken.len() - 1 ==> !((#[trigger] taken[i]).effect is Finish)
        }),
{
    let signals = run_signals(events, answers);
    let taken = turns(Phase::Starting, signals);
    let rest = turns(Phase::Receiving, stream_signals(events, answers));
    lemma_stream(events, answers);
    assert(signals.drop_first() =~= stream_signals(events, answers));
    let first = Turn { effect: Effect::<E>::Receive, report: None };
    assert(taken =~= seq![first] + rest);
    assert(taken.drop_first() =~= rest);
    assert(forwarded(taken) == forwarded(rest));
    assert(taken.last() == rest.last());
    assert forall|i: int| 0 <= i < taken.len() - 1 implies !((#[trigger] taken[i]).effect
        is Finish) by {
        if i >= 1 {
            assert(taken[i] == rest[i - 1]);
        }
    }
}

/// A stream without events: the pump asks for the first event, is told that
/// the stream has ended, and finishes with success. The sink is never
/// called.
pub proof fn lemma_empty_stream<E>()
    ensures
        ({
            let taken = turns(
                Phase::Starting,
                run_signals(Seq::<Event>::empty(), Seq::<Result<(), E>>::empty()),
            );
            &&& taken.len() == 2
            &&& taken[0].effect == Effect::<E>::Receive
            &&& taken[1].effect == Effect::<E>::Finish(Ok(()))
            &&& forwarded(taken) == Seq::<Event>::empty()
        }),
{
    lemma_run_forwards_every_event(Seq::<Event>::empty(), Seq::<Result<(), E>>::empty());
    let taken = turns(
        Phase::Starting,
        run_signals(Seq::<Event>::empty(), Seq::<Result<(), E>>::empty()),
    );
    assert(taken[0].effect == Effect::<E>::Receive) by {
        assert(run_signals(Seq::<Event>::empty(), Seq::<Result<(), E>>::empty())[0]
            == Signal::<E>::Started);
    }
    assert(taken[1] == taken.last());
}

/// A source that does not start: the run ends at once with the source's
/// error, and the sink is never called.
pub proof fn lemma_failed_start<E>(error: E)
    ensures
        ({
            let taken = turns(Phase::Starting, seq![Signal::StartFailed(error)]);
            &&& taken.len() == 1
            &&& taken[0].effect == Effect::Finish(Err(error))
            &&& forwarded(taken) == Seq::<Event>::empty()
        }),
{
    let signals = seq![Signal::StartFailed(error)];
    let taken = turns(Phase::Starting, signals);
    assert(signals.drop_first() =~= Seq::<Signal<E>>::empty());
    assert(turns(Phase::Finished, signals.drop_first()) =~= Seq::<Turn<E>>::empty());
    let first = Turn { effect: Effect::Finish(Err(error)), report: None };
    assert(taken =~= seq![first]);
    assert(taken.drop_first() =~= Seq::<Turn<E>>::empty());
    assert(forwarded(taken.drop_first()) =~= Seq::<Event>::empty());
}

/// Events are handled one at a time: while the sink has not answered, the
/// pump takes no further event.
pub proof fn lemma_one_at_a_time<E>(event: Event)
    ensures
        pump_step(Phase::Sinking, Signal::<E>::Received(event)) == (
            Phase::Sinking,
            Turn { effect: Effect::<E>::Wait, report: None },
        ),
{
}

/// A sink that fails does not stop the pump: the failure is written down
/// and the next event is awaited, as after a success.
pub proof fn lemma_sink_failure_is_survived<E>(error: E)
    ensures
        pump_step(Phase::Sinking, Signal::Sunk(Err(error))) == (
            Phase::Receiving,
            Turn { effect: Effect::Receive, report: Some(error) },
        ),
{
}

/// The pump between one source and one sink.
pub struct Executor {
    phase: Phase,
}

impl Executor {
    /// Where the run stands.
    pub closed spec fn phase(&self) -> Phase {
        self.phase
    }

    /// A pump whose driver is about to start the source.
    pub fn new() -> (executor: Self)
        ensures
            executor.phase() == Phase::Starting,
    {
        Executor { phase: Phase::Starting }
    }

    /// Where the run stands.
    pub fn current_phase(&self) -> (phase: Phase)
        ensures
            phase == self.phase(),
    {
        self.phase
    }

    /// Takes one signal of the driver and says what to do next.
    pub fn step<E>(&mut self, signal: Signal<E>) -> (turn: Turn<E>)
        ensures
            (final(self).phase(), turn) == pump_step(old(self).phase(), signal),
    {
        match (self.phase, signal) {
            (Phase::Starting, Signal::Started) => {
                self.phase = Phase::Receiving;
                Turn { effect: Effect::Receive, report: None }
            },
            (Phase::Starting, Signal::StartFailed(error)) => {
                self.phase = Phase::Finished;
                Turn { effect: Effect::Finish(Err(error)), report: None }
            },
            (Phase::Receiving, Signal::Received(event)) => {
                self.phase = Phase::Sinking;
                Turn { effect: Effect::Sink(event), report: None }
            },
            (Phase::Receiving, Signal::Closed) => {
                self.phase = Phase::Finished;
                Turn { effect: Effect::Finish(Ok(())), report: None }
            },
            (Phase::Sinking, Signal::Sunk(Ok(_))) => {
                self.phase = Phase::Receiving;
                Turn { effect: Effect::Receive, report: None }
            },
            (Phase::Sinking, Signal::Sunk(Err(error))) => {
                self.phase = Phase::Receiving;
                Turn { effect: Effect::Receive, report: Some(error) }
            },
            (_, _) => Turn { effect: Effect::Wait, report: None },
        }
    }
}

} // verus!
