use mqtt2influx_core::api::request_id_middleware::{RequestId, RequestIdType, REQUEST_ID_LENGTH};
use mqtt2influx_core::api::request_logger_middleware::RequestLogger;
use mqtt2influx_core::api::types::{ApiEvent, ApiState};
use mqtt2influx_core::api::{ignored_paths, BIND_HOST, HEALTH_BODY, HEALTH_PATH, VALUES_PATH};
use mqtt2influx_core::Event;

fn event(device_name: &str, temperature: f32) -> Event {
    Event {
        device_name: device_name.to_string(),
        battery: 80,
        humidity: 50.0f32.to_bits(),
        temperature: temperature.to_bits(),
        voltage: 3000,
        linkquality: Some(90),
    }
}

#[test]
fn a_new_state_shows_nothing() {
    let state = ApiState::default();
    assert!(state.values().is_empty());
}

#[test]
fn the_latest_reading_replaces_the_one_before() {
    let mut state = ApiState::default();
    state.record(event("kitchen", 20.0), 1_000);
    state.record(event("attic", 15.5), 2_000);
    state.record(event("kitchen", 21.0), 3_000);
    let values = state.values();
    assert_eq!(
        values,
        vec![
            ApiEvent {
                name: "kitchen".to_string(),
                temperature: 21.0f32.to_bits(),
                humidity: 50.0f32.to_bits(),
                updated_at: 3_000,
            },
            ApiEvent {
                name: "attic".to_string(),
                temperature: 15.5f32.to_bits(),
                humidity: 50.0f32.to_bits(),
                updated_at: 2_000,
            },
        ]
    );
    assert_eq!(values[1].clone(), values[1]);
}

#[test]
fn the_state_never_refuses_an_event() {
    let mut state = ApiState::default();
    assert!(state.sink(event("kitchen", 20.0)).is_ok());
    assert!(state.sink(event("kitchen", 22.0)).is_ok());
    let values = state.values();
    assert_eq!(values.len(), 1);
    assert_eq!(values[0].name, "kitchen");
    assert_eq!(f32::from_bits(values[0].temperature), 22.0);
    assert_eq!(f32::from_bits(values[0].humidity), 50.0);
    // After the year 2020 and before the year 2200.
    assert!(values[0].updated_at > 1_577_836_800_000);
    assert!(values[0].updated_at < 7_258_118_400_000);
}

#[test]
fn the_health_path_is_not_logged() {
    assert_eq!(ignored_paths(), vec!["/health".to_string()]);
    assert_eq!(HEALTH_PATH, "/health");
    assert_eq!(HEALTH_BODY, "Running");
    assert_eq!(VALUES_PATH, "/");
    assert_eq!(BIND_HOST, "0.0.0.0");
    let logger = RequestLogger::new_with_ignored_paths(ignored_paths()).new_transform(());
    assert!(!logger.should_log("/health"));
    assert!(logger.should_log("/"));
    assert!(logger.should_log("/health/"));
    assert!(logger.should_log("/Health"));
    assert!(logger.should_log(""));
}

#[test]
fn a_logger_without_a_list_logs_everything() {
    let logger = RequestLogger::default().new_transform(7u8);
    assert!(logger.should_log("/health"));
    assert!(logger.should_log("/"));
    assert_eq!(*logger.service(), 7);
}

#[test]
fn every_listed_path_is_passed_over() {
    let paths = vec!["/a".to_string(), "/b".to_string(), "/c".to_string()];
    let factory = RequestLogger::new_with_ignored_paths(paths);
    let first = factory.new_transform("one");
    let second = factory.new_transform("two");
    for path in ["/a", "/b", "/c"] {
        assert!(!first.should_log(path));
        assert!(!second.should_log(path));
    }
    assert!(first.should_log("/d"));
    assert_eq!(*first.service(), "one");
    assert_eq!(*second.service(), "two");
}

#[test]
fn a_request_gets_an_identifier() {
    let middleware = RequestId.new_transform("service");
    assert_eq!(*middleware.service(), "service");
    let RequestIdType(id) = middleware.issue();
    assert_eq!(REQUEST_ID_LENGTH, 10);
    assert_eq!(id.chars().count(), 10);
    assert!(id.chars().all(|c| c.is_ascii_alphanumeric()));
    let again = middleware.issue();
    assert_eq!(again.clone(), again);
    assert_eq!(again.0.len(), 10);
}
