use mqtt2influx_core::{AppError, Event, LogSink, SinkTee};
use std::sync::Arc;

fn event() -> Event {
    Event {
        device_name: "cellar".to_string(),
        battery: 55,
        humidity: 71.0f32.to_bits(),
        temperature: 12.5f32.to_bits(),
        voltage: 2990,
        linkquality: None,
    }
}

fn left_error() -> AppError {
    AppError::Server("left".to_string())
}

fn right_error() -> AppError {
    AppError::Unknown("right".to_string())
}

fn join(left: Result<(), AppError>, right: Result<(), AppError>) -> Result<(), AppError> {
    SinkTee::<LogSink, LogSink>::join(left, right)
}

#[test]
fn both_branches_get_the_same_event() {
    let (left, right) = SinkTee::<LogSink, LogSink>::fan_out(event());
    assert_eq!(left, event());
    assert_eq!(right, event());
}

#[test]
fn a_tee_of_two_successes_succeeds() {
    let tee = SinkTee::new(Arc::new(LogSink), Arc::new(LogSink));
    let (left, right) = SinkTee::<LogSink, LogSink>::fan_out(event());
    let answer = SinkTee::<LogSink, LogSink>::join(tee.left().sink(left), tee.right().sink(right));
    assert_eq!(answer, Ok(()));
}

#[test]
fn the_left_failure_wins_over_the_right_one() {
    assert_eq!(join(Err(left_error()), Err(right_error())), Err(left_error()));
}

#[test]
fn a_single_failure_is_passed_on() {
    assert_eq!(join(Err(left_error()), Ok(())), Err(left_error()));
    assert_eq!(join(Ok(()), Err(right_error())), Err(right_error()));
}

#[test]
fn nested_tees_answer_with_the_leftmost_failure() {
    let third = AppError::Mqtt("third".to_string());
    assert_eq!(join(Ok(()), join(Ok(()), Ok(()))), Ok(()));
    assert_eq!(join(Ok(()), join(Err(right_error()), Err(third.clone()))), Err(right_error()));
    assert_eq!(join(Ok(()), join(Ok(()), Err(third.clone()))), Err(third.clone()));
    assert_eq!(join(Err(left_error()), join(Err(right_error()), Err(third.clone()))), Err(left_error()));
    assert_eq!(join(join(Ok(()), Err(right_error())), Err(third)), Err(right_error()));
}

#[test]
fn a_tee_keeps_its_branches() {
    let left = Arc::new(1u8);
    let right = Arc::new("right".to_string());
    let tee = SinkTee::new(left.clone(), right.clone());
    assert!(Arc::ptr_eq(tee.left(), &left));
    assert!(Arc::ptr_eq(tee.right(), &right));
}

#[test]
fn the_log_sink_accepts_everything() {
    assert_eq!(LogSink.sink(event()), Ok(()));
    assert_eq!(LogSink::default().sink(Event { device_name: String::new(), ..event() }), Ok(()));
}
