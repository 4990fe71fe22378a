use mqtt2influx_core::logging::{filter_from, log_filter};
use mqtt2influx_core::utils::{generate_random_number, generate_random_token};

#[test]
fn a_token_has_the_length_asked_for() {
    for size in [0usize, 1, 10, 64, 1000] {
        let token = generate_random_token(size);
        assert_eq!(token.chars().count(), size);
        assert_eq!(token.len(), size);
        assert!(token.chars().all(|c| c.is_ascii_alphanumeric()));
    }
}

#[test]
fn tokens_differ() {
    let first = generate_random_token(32);
    let second = generate_random_token(32);
    assert_ne!(first, second);
}

#[test]
fn a_number_lies_in_its_range() {
    for _ in 0..1000 {
        let number = generate_random_number(1, 100);
        assert!(1 <= number && number < 100);
    }
    assert_eq!(generate_random_number(7, 8), 7);
    assert_eq!(generate_random_number(0, 1), 0);
    assert_eq!(generate_random_number(usize::MAX - 1, usize::MAX), usize::MAX - 1);
}

#[test]
fn trace_includes_the_broker_client() {
    let filter = "mqtt2influx=trace,mqtt2influx_core=trace,rumqttc=trace";
    assert_eq!(log_filter("trace"), filter);
    assert_eq!(log_filter("TRACE"), filter);
    assert_eq!(log_filter("Trace"), filter);
}

#[test]
fn any_other_level_is_used_as_written() {
    assert_eq!(log_filter("debug"), "mqtt2influx=debug,mqtt2influx_core=debug");
    assert_eq!(log_filter("INFO"), "mqtt2influx=INFO,mqtt2influx_core=INFO");
    assert_eq!(log_filter(""), "mqtt2influx=,mqtt2influx_core=");
    assert_eq!(log_filter("traces"), "mqtt2influx=traces,mqtt2influx_core=traces");
}

#[test]
fn the_filter_goes_by_the_lowered_level() {
    assert_eq!(
        filter_from("TrAcE", "trace"),
        "mqtt2influx=trace,mqtt2influx_core=trace,rumqttc=trace"
    );
    assert_eq!(filter_from("Warn", "warn"), "mqtt2influx=Warn,mqtt2influx_core=Warn");
    assert_eq!(filter_from("trace", "TRACE"), "mqtt2influx=trace,mqtt2influx_core=trace");
}
