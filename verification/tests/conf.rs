use mqtt2influx_core::conf::{
    default_client_id, default_log_level, default_port, Config, ConfigError, Connection,
    InfluxDbConnection, DEFAULT_FILE_NAME,
};
use mqtt2influx_core::text_map::TextMap;
use mqtt2influx_core::Subscription;

fn broker() -> Connection {
    Connection { host: "localhost".to_string(), port: 1883, username: None, password: None }
}

fn store() -> InfluxDbConnection {
    InfluxDbConnection {
        server: "http://127.0.0.1:8086".to_string(),
        database: "test_db".to_string(),
        username: Some("user".to_string()),
        password: Some("password".to_string()),
    }
}

fn subscriptions() -> TextMap<Subscription> {
    let mut subscriptions = TextMap::new();
    subscriptions.insert(
        "kitchen".to_string(),
        Subscription { topic: "t1".to_string(), device_name: "d1".to_string() },
    );
    subscriptions.insert(
        "attic".to_string(),
        Subscription { topic: "t2".to_string(), device_name: "d2".to_string() },
    );
    subscriptions
}

fn config() -> Config {
    Config {
        port: default_port(),
        log_level: default_log_level(false),
        client_id: default_client_id(),
        mqtt: broker(),
        subscriptions: subscriptions(),
        influx: store(),
    }
}

#[test]
fn the_defaults_are_as_documented() {
    assert_eq!(default_port(), 3333);
    assert_eq!(default_client_id(), "mqtt2influx-client");
    assert_eq!(default_log_level(true), "debug");
    assert_eq!(default_log_level(false), "info");
    assert_eq!(DEFAULT_FILE_NAME, "mqtt2influx.toml");
}

#[test]
fn a_complete_configuration_is_valid() {
    assert_eq!(config().validate(), Ok(()));
    assert_eq!(broker().validate(), Ok(()));
    assert_eq!(store().validate(), Ok(()));
    let anonymous = InfluxDbConnection { username: None, password: None, ..store() };
    assert_eq!(anonymous.validate(), Ok(()));
}

#[test]
fn a_configuration_needs_a_subscription() {
    let config = Config { subscriptions: TextMap::new(), ..config() };
    assert_eq!(config.validate(), Err(ConfigError::NoSubscriptions));
    assert_eq!(ConfigError::NoSubscriptions.message(), "Subscription list cannot be empty");
}

#[test]
fn the_subscriptions_are_checked_first() {
    let config = Config {
        subscriptions: TextMap::new(),
        mqtt: Connection { host: String::new(), ..broker() },
        influx: InfluxDbConnection { server: String::new(), ..store() },
        ..config()
    };
    assert_eq!(config.validate(), Err(ConfigError::NoSubscriptions));
}

#[test]
fn a_broker_needs_a_host() {
    let connection = Connection { host: String::new(), ..broker() };
    assert_eq!(connection.validate(), Err(ConfigError::EmptyHost));
    assert_eq!(ConfigError::EmptyHost.message(), "connection.host cannot be empty");
    let config = Config {
        mqtt: connection,
        influx: InfluxDbConnection { server: String::new(), ..store() },
        ..config()
    };
    assert_eq!(config.validate(), Err(ConfigError::EmptyHost));
}

#[test]
fn a_store_needs_an_address() {
    let connection = InfluxDbConnection { server: String::new(), database: String::new(), ..store() };
    assert_eq!(connection.validate(), Err(ConfigError::EmptyServer));
    assert_eq!(ConfigError::EmptyServer.message(), "influxdb.server cannot be empty");
    let config = Config { influx: connection, ..config() };
    assert_eq!(config.validate(), Err(ConfigError::EmptyServer));
}

#[test]
fn a_store_needs_a_database() {
    let connection = InfluxDbConnection { database: String::new(), password: None, ..store() };
    assert_eq!(connection.validate(), Err(ConfigError::EmptyDatabase));
    assert_eq!(ConfigError::EmptyDatabase.message(), "influxdb.server cannot be empty");
}

#[test]
fn user_and_password_come_together() {
    let no_password = InfluxDbConnection { password: None, ..store() };
    assert_eq!(no_password.validate(), Err(ConfigError::PartialCredentials));
    let no_user = InfluxDbConnection { username: None, ..store() };
    assert_eq!(no_user.validate(), Err(ConfigError::PartialCredentials));
    assert_eq!(
        ConfigError::PartialCredentials.message(),
        "Either both or none influxdb.username and influxdb.password must be defined"
    );
}

#[test]
fn credentials_are_passed_on_only_when_complete() {
    let connection = store();
    let parameters = connection.as_connection_parameters();
    assert_eq!(parameters.server, "http://127.0.0.1:8086");
    assert_eq!(parameters.db, "test_db");
    let credentials = parameters.credentials.unwrap();
    assert_eq!(credentials.username, "user");
    assert_eq!(credentials.password, "password");

    let connection = InfluxDbConnection { password: None, ..store() };
    assert!(connection.as_connection_parameters().credentials.is_none());
    let connection = InfluxDbConnection { username: None, ..store() };
    assert!(connection.as_connection_parameters().credentials.is_none());
    let connection = InfluxDbConnection { username: None, password: None, ..store() };
    assert!(connection.as_connection_parameters().credentials.is_none());
}

#[test]
fn the_subscriptions_come_without_their_names() {
    let listed = config().subscriptions();
    assert_eq!(
        listed,
        vec![
            Subscription { topic: "t1".to_string(), device_name: "d1".to_string() },
            Subscription { topic: "t2".to_string(), device_name: "d2".to_string() },
        ]
    );
}
