//! The sink on a time-series store: how it is connected, and which point a
//! reading becomes.

use crate::client::{Client, ClientError, ClientView, QueryType};
use crate::clock::now_millis;
use crate::types::{Event, EventView};
use vstd::prelude::*;

verus! {

/// The measurement that every reading is written to.
pub const READINGS_TABLE: &'static str = "readings";

/// The precision of the timestamps that the sink writes.
pub const PRECISION: &'static str = "ms";

/// What is said of a store that does not answer the ping of a new sink.
pub const CONNECTION_CHECK_FAILED: &'static str = "Error checking connection to InfluxDB";

/// Where the store is, which database to write to, and as whom.
pub struct InfluxDbConnectionParameters<'a> {
    pub server: &'a str,
    pub db: &'a str,
    pub credentials: Option<InfluxDbCredentials<'a>>,
}

/// A user of the store.
pub struct InfluxDbCredentials<'a> {
    pub username: &'a str,
    pub password: &'a str,
}

/// The client that connection parameters describe.
pub open spec fn client_for(parameters: InfluxDbConnectionParameters) -> ClientView {
    let database = Map::<Seq<char>, Seq<char>>::empty().insert("db"@, parameters.db@);
    ClientView {
        url: parameters.server@,
        parameters: match parameters.credentials {
            Some(credentials) => database.insert("u"@, credentials.username@).insert(
                "p"@,
                credentials.password@,
            ),
            None => database,
        },
    }
}

/// The value of one field of a point.
#[derive(Debug, Clone, Copy, PartialEq, Eq, Structural)]
pub enum FieldValue {
    /// A measurement, as an IEEE 754 single-precision bit pattern.
    Float(u32),
    /// A count.
    UnsignedInteger(u64),
}

/// One point of a measurement: when, about what, and the values.
#[derive(Debug, PartialEq, Eq)]
pub struct WriteQuery {
    pub measurement: String,
    pub timestamp: i64,
    pub tags: Vec<(String, String)>,
    pub fields: Vec<(String, FieldValue)>,
}

/// The mathematical value of a [`WriteQuery`].
pub struct WriteQueryView {
    pub measurement: Seq<char>,
    pub timestamp: i64,
    pub tags: Seq<(Seq<char>, Seq<char>)>,
    pub fields: Seq<(Seq<char>, FieldValue)>,
}

impl View for WriteQuery {
    type V = WriteQueryView;

    open spec fn view(&self) -> WriteQueryView {
        WriteQueryView {
            measurement: self.measurement@,
            timestamp: self.timestamp,
            tags: self.tags@.map_values(|tag: (String, String)| (tag.0@, tag.1@)),
            fields: self.fields@.map_values(|field: (String, FieldValue)| (field.0@, field.1)),
        }
    }
}

impl WriteQuery {
    /// A point is written with the precision of its timestamp.
    pub fn get_type(&self) -> (query_type: QueryType)
        ensures
            query_type@ == crate::client::QueryTypeView::WriteQuery(PRECISION@),
    {
        QueryType::WriteQuery(PRECISION.to_owned())
    }
}

/// A reading in the shape in which the store keeps it.
#[derive(Debug, PartialEq, Eq)]
pub struct InfluxDbEvent {
    pub time: i64,
    pub device_name: String,
    pub temperature: u32,
    pub humidity: u32,
    pub battery: u8,
}

/// The mathematical value of an [`InfluxDbEvent`].
pub struct InfluxDbEventView {
    pub time: i64,
    pub device_name: Seq<char>,
    pub temperature: u32,
    pub humidity: u32,
    pub battery: u8,
}

impl View for InfluxDbEvent {
    type V = InfluxDbEventView;

    open spec fn view(&self) -> InfluxDbEventView {
        InfluxDbEventView {
            time: self.time,
            device_name: self.device_name@,
            temperature: self.temperature,
            humidity: self.humidity,
            battery: self.battery,
        }
    }
}

impl InfluxDbEvent {
    /// What the store keeps of an event that arrived at `time`: the device,
    /// the two measurements and the battery level.
    pub open spec fn stored(event: EventView, time: i64) -> InfluxDbEventView {
        InfluxDbEventView {
            time,
            device_name: event.device_name,
            temperature: event.temperature,
            humidity: event.humidity,
            battery: event.battery,
        }
    }

    /// The point of a stored reading in the measurement `name`: the device
    /// is its only tag; temperature, humidity and battery are its fields, in
    /// this order.
    pub open spec fn point(stored: InfluxDbEventView, name: Seq<char>) -> WriteQueryView {
        WriteQueryView {
            measurement: name,
            timestamp: stored.time,
            tags: seq![("device_name"@, stored.device_name)],
            fields: seq![
                ("temperature"@, FieldValue::Float(stored.temperature)),
                ("humidity"@, FieldValue::Float(stored.humidity)),
                ("battery"@, FieldValue::UnsignedInteger(stored.battery as u64)),
            ],
        }
    }

    /// The stored shape of an event that arrived at `time`.
    pub fn stamped(event: Event, time: i64) -> (stored: InfluxDbEvent)
        ensures
            stored@ == InfluxDbEvent::stored(event@, time),
    {
        InfluxDbEvent {
            time,
            device_name: event.device_name,
            temperature: event.temperature,
            humidity: event.humidity,
            battery: event.battery,
        }
    }

    /// The stored shape of an event that arrives now.
    pub fn from_event(event: Event) -> (stored: InfluxDbEvent)
        ensures
            stored@ == InfluxDbEvent::stored(event@, stored.time),
    {
        InfluxDbEvent::stamped(event, now_millis())
    }

    /// The point to write into the measurement `name`.
    pub fn into_query(self, name: &str) -> (query: WriteQuery)
        ensures
            query@ == InfluxDbEvent::point(self@, name@),
    {
        let mut tags: Vec<(String, String)> = Vec::new();
        tags.push(("device_name".to_owned(), self.device_name));
        let mut fields: Vec<(String, FieldValue)> = Vec::new();
        fields.push(("temperature".to_owned(), FieldValue::Float(self.temperature)));
        fields.push(("humidity".to_owned(), FieldValue::Float(self.humidity)));
        fields.push(("battery".to_owned(), FieldValue::UnsignedInteger(self.battery as u64)));
        let query = WriteQuery { measurement: name.to_owned(), timestamp: self.time, tags, fields };
        assert(query@.tags =~= InfluxDbEvent::point(self@, name@).tags);
        assert(query@.fields =~= InfluxDbEvent::point(self@, name@).fields);
        query
    }
}

/// Why there is no sink: the store did not answer the ping.
#[derive(Debug, PartialEq, Eq)]
pub struct ConnectionCheckFailure {
    /// What went wrong, in words: [`CONNECTION_CHECK_FAILED`].
    pub message: String,
    /// The failure of the ping.
    pub cause: ClientError,
}

/// The sink that writes every reading to a time-series store.
pub struct InfluxDbSink {
    client: Client,
}

impl InfluxDbSink {
    /// The client that the sink writes through.
    pub closed spec fn client_view(&self) -> ClientView {
        self.client@
    }

    /// A sink is made of a well-formed client.
    pub closed spec fn wf(&self) -> bool {
        self.client.wf()
    }

    /// The client for a store: its address, its database and, where
    /// credentials are given, the user and the password.
    pub fn create_client(params: InfluxDbConnectionParameters) -> (client: Client)
        ensures
            client.wf(),
            client@ == client_for(params),
    {
        let client = Client::new(params.server, params.db);
        match params.credentials {
            Some(credentials) => client.with_auth(credentials.username, credentials.password),
            None => client,
        }
    }

    /// The error of a sink that cannot be made because the ping failed
    /// with `cause`.
    pub fn connection_check_failed(cause: ClientError) -> (error: ConnectionCheckFailure)
        ensures
            error.message@ == CONNECTION_CHECK_FAILED@,
            error.cause == cause,
    {
        ConnectionCheckFailure { message: CONNECTION_CHECK_FAILED.to_owned(), cause }
    }

    /// A sink on the store behind `client`, provided the store answered a
    /// ping: the sink exists exactly if it did; if it did not, the error
    /// says that the connection could not be checked and holds the failure
    /// of the ping as its cause.
    pub fn new(client: Client, pong: Result<(String, String), ClientError>) -> (made: Result<
        InfluxDbSink,
        ConnectionCheckFailure,
    >)
        requires
            client.wf(),
        ensures
            match pong {
                Ok(_) => made matches Ok(sink) && sink.wf() && sink.client_view() == client@,
                Err(cause) => made matches Err(error) && error.message@
                    == CONNECTION_CHECK_FAILED@ && error.cause == cause,
            },
    {
        match pong {
            Ok(_) => Ok(InfluxDbSink { client }),
            Err(cause) => Err(InfluxDbSink::connection_check_failed(cause)),
        }
    }

    /// The client that the sink writes through.
    pub fn client(&self) -> (client: &Client)
        ensures
            client@ == self.client_view(),
            client.wf() == self.wf(),
    {
        &self.client
    }

    /// The point that an event arriving now is written as.
    pub fn query(&self, event: Event) -> (query: WriteQuery)
        ensures
            query@ == InfluxDbEvent::point(
                InfluxDbEvent::stored(event@, query.timestamp),
                READINGS_TABLE@,
            ),
    {
        InfluxDbEvent::from_event(event).into_query(READINGS_TABLE)
    }

    /// What the sink answers to whoever handed it the event, given the
    /// answer of the store to the write: success if the write succeeded, and
    /// the failure of the write if it did not.
    pub fn settle(written: Result<String, ClientError>) -> (answer: Result<(), ClientError>)
        ensures
            answer == match written {
                Ok(_) => Ok::<(), ClientError>(()),
                Err(error) => Err(error),
            },
    {
        match written {
            Ok(_) => Ok(()),
            Err(error) => Err(error),
        }
    }
}

} // verus!
