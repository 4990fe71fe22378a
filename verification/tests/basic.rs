use mqtt2influx_core::executor::{Effect, Executor, Phase, Signal, Turn};
use mqtt2influx_core::utils::generate_random_token;
use mqtt2influx_core::{AppError, Event};

/// A source that yields the events it was made with, in their order.
struct MockEventSource {
    events: Vec<Event>,
}

/// A sink that keeps every event it is handed, and fails where told to.
struct MockEventSink {
    events: Vec<Event>,
    failing: bool,
}

impl MockEventSink {
    fn new() -> Self {
        MockEventSink { events: Vec::new(), failing: false }
    }

    fn failing() -> Self {
        MockEventSink { events: Vec::new(), failing: true }
    }

    fn sink(&mut self, event: Event) -> Result<(), AppError> {
        self.events.push(event);
        if self.failing {
            Err(AppError::Unknown("sink failed".to_string()))
        } else {
            Ok(())
        }
    }

    fn received(&self) -> Vec<Event> {
        self.events.clone()
    }
}

fn random_event() -> Event {
    Event {
        device_name: generate_random_token(10),
        battery: 1,
        humidity: 2.3f32.to_bits(),
        temperature: 4.5f32.to_bits(),
        voltage: 6,
        linkquality: Some(7),
    }
}

/// Drives a pump the way a runtime would: one operation per turn.
fn run(source: MockEventSource, sink: &mut MockEventSink) -> (Result<(), AppError>, Vec<AppError>) {
    let mut executor = Executor::new();
    let mut stream = source.events.into_iter();
    let mut reported = Vec::new();
    let mut turn: Turn<AppError> = executor.step(Signal::Started);
    loop {
        if let Some(error) = turn.report {
            reported.push(error);
        }
        let signal = match turn.effect {
            Effect::Receive => match stream.next() {
                Some(event) => Signal::Received(event),
                None => Signal::Closed,
            },
            Effect::Sink(event) => Signal::Sunk(sink.sink(event)),
            Effect::Finish(result) => return (result, reported),
            Effect::Wait => panic!("the pump has nothing to wait for"),
        };
        turn = executor.step(signal);
    }
}

#[test]
fn empty() {
    let source = MockEventSource { events: vec![] };
    let mut sink = MockEventSink::new();

    let (res, _) = run(source, &mut sink);
    assert!(res.is_ok(), "Executor should not fail");

    let sinked = sink.received();
    assert!(sinked.is_empty(), "Sink list should be empty");
}

#[test]
fn count_matches() {
    let num_events = 100;
    let events: Vec<Event> = (0..num_events).map(|_| random_event()).collect();
    let source = MockEventSource { events };
    let mut sink = MockEventSink::new();

    let (res, _) = run(source, &mut sink);
    assert!(res.is_ok(), "Executor should not fail");

    let sinked = sink.received();
    assert_eq!(sinked.len(), num_events, "Sink list should contain all the events");
}

#[test]
fn events_reach_the_sink_in_order() {
    let events: Vec<Event> = (0..25).map(|_| random_event()).collect();
    let source = MockEventSource { events: events.clone() };
    let mut sink = MockEventSink::new();

    let (res, reported) = run(source, &mut sink);
    assert_eq!(res, Ok(()));
    assert!(reported.is_empty());
    assert_eq!(sink.received(), events);
}

#[test]
fn a_failing_sink_does_not_stop_the_pump() {
    let events: Vec<Event> = (0..7).map(|_| random_event()).collect();
    let source = MockEventSource { events: events.clone() };
    let mut sink = MockEventSink::failing();

    let (res, reported) = run(source, &mut sink);
    assert_eq!(res, Ok(()));
    assert_eq!(reported.len(), 7);
    assert_eq!(reported[0], AppError::Unknown("sink failed".to_string()));
    assert_eq!(sink.received(), events);
}

#[test]
fn a_source_that_does_not_start_ends_the_run() {
    let mut executor = Executor::new();
    assert_eq!(executor.current_phase(), Phase::Starting);
    let turn = executor.step(Signal::StartFailed(AppError::Mqtt("refused".to_string())));
    assert_eq!(turn.effect, Effect::Finish(Err(AppError::Mqtt("refused".to_string()))));
    assert_eq!(turn.report, None);
    assert_eq!(executor.current_phase(), Phase::Finished);
}

#[test]
fn the_pump_moves_through_its_phases() {
    let mut executor = Executor::new();
    let event = random_event();

    let turn: Turn<AppError> = executor.step(Signal::Started);
    assert_eq!(turn.effect, Effect::Receive);
    assert_eq!(executor.current_phase(), Phase::Receiving);

    let turn: Turn<AppError> = executor.step(Signal::Received(event.clone()));
    assert_eq!(turn.effect, Effect::Sink(event.clone()));
    assert_eq!(executor.current_phase(), Phase::Sinking);

    let turn: Turn<AppError> = executor.step(Signal::Received(event.clone()));
    assert_eq!(turn.effect, Effect::Wait);
    assert_eq!(executor.current_phase(), Phase::Sinking);

    let turn = executor.step(Signal::Sunk(Err(AppError::Server("down".to_string()))));
    assert_eq!(turn.effect, Effect::Receive);
    assert_eq!(turn.report, Some(AppError::Server("down".to_string())));
    assert_eq!(executor.current_phase(), Phase::Receiving);

    let turn: Turn<AppError> = executor.step(Signal::Closed);
    assert_eq!(turn.effect, Effect::Finish(Ok(())));
    assert_eq!(executor.current_phase(), Phase::Finished);

    let turn: Turn<AppError> = executor.step(Signal::Started);
    assert_eq!(turn.effect, Effect::Wait);
    assert_eq!(executor.current_phase(), Phase::Finished);
}

#[test]
fn errors_describe_themselves() {
    assert_eq!(AppError::Mqtt("a".to_string()).message(), "Mqtt error: a");
    assert_eq!(AppError::Server("b".to_string()).message(), "Server error: b");
    assert_eq!(AppError::Unknown("c".to_string()).message(), "Unknown error: c");
    let error = AppError::Mqtt("kept".to_string());
    assert_eq!(error.clone(), error);
}
