use mqtt2influx_core::client::{Client, ClientError, Exchange, Method, PingReply, QueryType};
use mqtt2influx_core::services::sink::influx::{
    ConnectionCheckFailure, FieldValue, InfluxDbEvent, CONNECTION_CHECK_FAILED, PRECISION,
    READINGS_TABLE,
};
use mqtt2influx_core::utils::{generate_random_number, generate_random_token};
use mqtt2influx_core::{Event, InfluxDbConnectionParameters, InfluxDbCredentials, InfluxDbSink};

const INFLUX_URL: &str = "http://127.0.0.1:8086";
const INFLUX_DB: &str = "test_db";
const INFLUX_USER: &str = "user";
const INFLUX_PASSWORD: &str = "password";

fn parameters() -> InfluxDbConnectionParameters<'static> {
    InfluxDbConnectionParameters {
        server: INFLUX_URL,
        db: INFLUX_DB,
        credentials: Some(InfluxDbCredentials { username: INFLUX_USER, password: INFLUX_PASSWORD }),
    }
}

fn pong() -> Result<(String, String), ClientError> {
    Client::pong(PingReply::Answered {
        build: Some("OSS".to_string()),
        version: Some("1.8.3".to_string()),
    })
}

#[test]
fn sink_sends_event() {
    let sink = InfluxDbSink::new(InfluxDbSink::create_client(parameters()), pong())
        .expect("Error creating sink");

    let name = generate_random_token(10);

    let event = Event {
        device_name: name.clone(),
        battery: generate_random_number(1, 100) as u8,
        humidity: (generate_random_number(1, 100) as f32).to_bits(),
        temperature: (generate_random_number(1, 100) as f32).to_bits(),
        voltage: generate_random_number(1, 100) as u16,
        linkquality: Some(generate_random_number(1, 100) as u8),
    };
    let query = sink.query(event.clone());

    let table = READINGS_TABLE;
    assert_eq!(query.measurement, table, "Series should match");
    assert_eq!(query.tags.len(), 1, "Should contain only 1 tag");
    assert_eq!(query.tags[0], ("device_name".to_string(), name), "Name should match");
    assert_eq!(query.fields.len(), 3, "Point should contain 3 fields");
    assert_eq!(query.fields[0], ("temperature".to_string(), FieldValue::Float(event.temperature)));
    assert_eq!(query.fields[1], ("humidity".to_string(), FieldValue::Float(event.humidity)));
    assert_eq!(
        query.fields[2],
        ("battery".to_string(), FieldValue::UnsignedInteger(event.battery as u64))
    );

    let numbers: Vec<String> =
        query.floats().into_iter().map(|bits| f32::from_bits(bits).to_string()).collect();
    let line = query.build(&numbers).expect("Should be able to build the line");
    assert_eq!(
        line,
        format!(
            "readings,device_name={} temperature={},humidity={},battery={}i {}",
            event.device_name,
            f32::from_bits(event.temperature),
            f32::from_bits(event.humidity),
            event.battery,
            query.timestamp
        )
    );
    let request = sink.client().request(&query.get_type(), &line);
    assert_eq!(request.method, Method::Post);
    assert_eq!(request.url, "http://127.0.0.1:8086/write");
    assert_eq!(request.body, Some(line));
    assert_eq!(request.parameters.get("db").unwrap(), INFLUX_DB);
    assert_eq!(request.parameters.get("u").unwrap(), INFLUX_USER);
    assert_eq!(request.parameters.get("p").unwrap(), INFLUX_PASSWORD);
    assert_eq!(request.parameters.get("precision").unwrap(), "ms");

    let written = Client::conclude(Exchange::Answered { status: 204, body: Some(String::new()) });
    InfluxDbSink::settle(written).expect("Should be able to sink");
}

#[test]
fn a_client_is_made_of_the_connection_parameters() {
    let client = InfluxDbSink::create_client(parameters());
    assert_eq!(client.database_url(), INFLUX_URL);
    assert_eq!(client.database_name(), INFLUX_DB);
    assert_eq!(client.parameter_count(), 3);
    assert_eq!(client.parameter("u"), Some(INFLUX_USER));
    assert_eq!(client.parameter("p"), Some(INFLUX_PASSWORD));

    let anonymous = InfluxDbSink::create_client(InfluxDbConnectionParameters {
        server: INFLUX_URL,
        db: INFLUX_DB,
        credentials: None,
    });
    assert_eq!(anonymous.database_url(), INFLUX_URL);
    assert_eq!(anonymous.database_name(), INFLUX_DB);
    assert_eq!(anonymous.parameter_count(), 1);
    assert_eq!(anonymous.parameter("u"), None);
}

#[test]
fn there_is_no_sink_without_a_pong() {
    let failure = ClientError::ConnectionError { error: "connection refused".to_string() };
    let made = InfluxDbSink::new(
        InfluxDbSink::create_client(parameters()),
        Client::pong(PingReply::Unanswered("connection refused".to_string())),
    );
    match made {
        Ok(_) => panic!("the store did not answer"),
        Err(error) => {
            assert_eq!(error.message, "Error checking connection to InfluxDB");
            assert_eq!(error.cause, failure);
        }
    }
    assert_eq!(CONNECTION_CHECK_FAILED, "Error checking connection to InfluxDB");
    assert_eq!(
        InfluxDbSink::connection_check_failed(ClientError::AuthorizationError),
        ConnectionCheckFailure {
            message: "Error checking connection to InfluxDB".to_string(),
            cause: ClientError::AuthorizationError,
        }
    );
}

#[test]
fn a_failed_write_is_the_failure_of_the_sink() {
    let failure = ClientError::DatabaseError { error: "influxdb error: \"full\"".to_string() };
    assert_eq!(InfluxDbSink::settle(Err(failure.clone())), Err(failure));
    assert_eq!(
        InfluxDbSink::settle(Err(ClientError::AuthenticationError)),
        Err(ClientError::AuthenticationError)
    );
    let refused = Client::conclude(Exchange::Answered { status: 401, body: None });
    assert_eq!(InfluxDbSink::settle(refused), Err(ClientError::AuthorizationError));
    let lost = Client::conclude(Exchange::Unanswered("timed out".to_string()));
    assert_eq!(
        InfluxDbSink::settle(lost),
        Err(ClientError::ProtocolError { error: "timed out".to_string() })
    );
    assert_eq!(InfluxDbSink::settle(Ok("".to_string())), Ok(()));
    assert_eq!(InfluxDbSink::settle(Ok("{}".to_string())), Ok(()));
}

#[test]
fn a_reading_is_stored_with_its_device_as_tag() {
    let event = Event {
        device_name: "kitchen".to_string(),
        battery: 97,
        humidity: 45.5f32.to_bits(),
        temperature: 21.0f32.to_bits(),
        voltage: 3100,
        linkquality: Some(12),
    };
    let stored = InfluxDbEvent::stamped(event.clone(), 1_600_000_000_123);
    assert_eq!(
        stored,
        InfluxDbEvent {
            time: 1_600_000_000_123,
            device_name: "kitchen".to_string(),
            temperature: 21.0f32.to_bits(),
            humidity: 45.5f32.to_bits(),
            battery: 97,
        }
    );
    let query = stored.into_query("weather");
    assert_eq!(query.measurement, "weather");
    assert_eq!(query.timestamp, 1_600_000_000_123);
    assert_eq!(query.tags, vec![("device_name".to_string(), "kitchen".to_string())]);
    assert_eq!(
        query.fields,
        vec![
            ("temperature".to_string(), FieldValue::Float(0x41A8_0000)),
            ("humidity".to_string(), FieldValue::Float(0x4236_0000)),
            ("battery".to_string(), FieldValue::UnsignedInteger(97)),
        ]
    );
    assert_eq!(query.get_type(), QueryType::WriteQuery("ms".to_string()));
    assert_eq!(PRECISION, "ms");
    assert_eq!(READINGS_TABLE, "readings");

    let now = InfluxDbEvent::from_event(event);
    assert_eq!(now.device_name, "kitchen");
    assert_eq!(now.battery, 97);
    assert!(now.time > 1_577_836_800_000);
}
