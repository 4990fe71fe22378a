//! The configuration of a pipeline and the rules that it has to meet.

use crate::services::sink::influx::{InfluxDbConnectionParameters, InfluxDbCredentials};
use crate::text_map::TextMap;
use crate::types::Subscription;
use vstd::prelude::*;

verus! {

/// The port of the query interface where the configuration names none.
pub const DEFAULT_PORT: u16 = 3333;

/// The file that is read where no other is named.
pub const DEFAULT_FILE_NAME: &'static str = "mqtt2influx.toml";

/// The port of the query interface where the configuration names none.
pub fn default_port() -> (port: u16)
    ensures
        port == DEFAULT_PORT,
{
    DEFAULT_PORT
}

/// The identity towards the broker where the configuration names none.
pub fn default_client_id() -> (client_id: String)
    ensures
        client_id@ == "mqtt2influx-client"@,
{
    "mqtt2influx-client".to_owned()
}

/// The log level where the configuration names none: `debug` in a build
/// for debugging, `info` in any other.
pub fn default_log_level(debugging: bool) -> (level: String)
    ensures
        level@ == if debugging {
            "debug"@
        } else {
            "info"@
        },
{
    if debugging {
        "debug".to_owned()
    } else {
        "info".to_owned()
    }
}

/// The rule that a configuration breaks.
#[derive(Debug, Clone, Copy, PartialEq, Eq, Structural)]
pub enum ConfigError {
    /// There is no subscription.
    NoSubscriptions,
    /// The broker has no host.
    EmptyHost,
    /// The store has no address.
    EmptyServer,
    /// The store has no database.
    EmptyDatabase,
    /// Of user and password of the store, one is given and the other is not.
    PartialCredentials,
}

impl ConfigError {
    /// The words for each broken rule. A missing database is reported in
    /// the words of a missing server.
    pub open spec fn words(self) -> Seq<char> {
        match self {
            ConfigError::NoSubscriptions => "Subscription list cannot be empty"@,
            ConfigError::EmptyHost => "connection.host cannot be empty"@,
            ConfigError::EmptyServer => "influxdb.server cannot be empty"@,
            ConfigError::EmptyDatabase => "influxdb.server cannot be empty"@,
            ConfigError::PartialCredentials =>
                "Either both or none influxdb.username and influxdb.password must be defined"@,
        }
    }

    /// The broken rule in words.
    pub fn message(&self) -> (text: String)
        ensures
            text@ == self.words(),
    {
        match self {
            ConfigError::NoSubscriptions => "Subscription list cannot be empty".to_owned(),
            ConfigError::EmptyHost => "connection.host cannot be empty".to_owned(),
            ConfigError::EmptyServer => "influxdb.server cannot be empty".to_owned(),
            ConfigError::EmptyDatabase => "influxdb.server cannot be empty".to_owned(),
            ConfigError::PartialCredentials =>
                "Either both or none influxdb.username and influxdb.password must be defined".to_owned(),
        }
    }
}

/// Where the broker is, and as whom to speak to it.
#[derive(Debug)]
pub struct Connection {
    pub host: String,
    pub port: u16,
    pub username: Option<String>,
    pub password: Option<String>,
}

impl Connection {
    /// What is wrong with a connection, if anything: it needs a host.
    pub open spec fn fault(&self) -> Option<ConfigError> {
        if self.host@.len() == 0 {
            Some(ConfigError::EmptyHost)
        } else {
            None
        }
    }

    /// Checks the connection against its rule.
    pub fn validate(&self) -> (checked: Result<(), ConfigError>)
        ensures
            checked == match self.fault() {
                Some(error) => Err::<(), ConfigError>(error),
                None => Ok(()),
            },
    {
        if self.host.as_str().is_empty() {
            return Err(ConfigError::EmptyHost);
        }
        Ok(())
    }
}

/// Where the store is, which database to write to, and as whom.
#[derive(Debug)]
pub struct InfluxDbConnection {
    pub server: String,
    pub database: String,
    pub username: Option<String>,
    pub password: Option<String>,
}

impl InfluxDbConnection {
    /// What is wrong with a store connection, if anything. The rules are
    /// tried in this order: it needs an address; it needs a database; user
    /// and password come together or not at all.
    pub open spec fn fault(&self) -> Option<ConfigError> {
        if self.server@.len() == 0 {
            Some(ConfigError::EmptyServer)
        } else if self.database@.len() == 0 {
            Some(ConfigError::EmptyDatabase)
        } else if self.username is Some != self.password is Some {
            Some(ConfigError::PartialCredentials)
        } else {
            None
        }
    }

    /// The connection as the sink wants it. Credentials are passed on only
    /// where both user and password are there.
    pub fn as_connection_parameters(&self) -> (parameters: InfluxDbConnectionParameters<'_>)
        ensures
            parameters.server@ == self.server@,
            parameters.db@ == self.database@,
            match (self.username, self.password) {
                (Some(username), Some(password)) => parameters.credentials matches Some(
                    credentials,
                ) && credentials.username@ == username@ && credentials.password@ == password@,
                _ => parameters.credentials is None,
            },
    {
        let credentials = match (&self.username, &self.password) {
            (Some(username), Some(password)) => Some(
                InfluxDbCredentials { username: username.as_str(), password: password.as_str() },
            ),
            _ => None,
        };
        InfluxDbConnectionParameters {
            server: self.server.as_str(),
            db: self.database.as_str(),
            credentials,
        }
    }

    /// Checks the connection against its rules.
    pub fn validate(&self) -> (checked: Result<(), ConfigError>)
        ensures
            checked == match self.fault() {
                Some(error) => Err::<(), ConfigError>(error),
                None => Ok(()),
            },
    {
        if self.server.as_str().is_empty() {
            return Err(ConfigError::EmptyServer);
        }
        if self.database.as_str().is_empty() {
            return Err(ConfigError::EmptyDatabase);
        }
        if (self.username.is_some() && self.password.is_none()) || (self.username.is_none()
            && self.password.is_some()) {
            return Err(ConfigError::PartialCredentials);
        }
        Ok(())
    }
}

/// Everything that a pipeline is set up from.
pub struct Config {
    pub port: u16,
    pub log_level: String,
    pub client_id: String,
    pub mqtt: Connection,
    pub subscriptions: TextMap<Subscription>,
    pub influx: InfluxDbConnection,
}

impl Config {
    /// What is wrong with a configuration, if anything. There has to be a
    /// subscription; then the broker is checked, then the store.
    pub open spec fn fault(&self) -> Option<ConfigError> {
        if self.subscriptions.entries().len() == 0 {
            Some(ConfigError::NoSubscriptions)
        } else if self.mqtt.fault() is Some {
            self.mqtt.fault()
        } else {
            self.influx.fault()
        }
    }

    /// Checks the configuration against its rules.
    pub fn validate(&self) -> (checked: Result<(), ConfigError>)
        ensures
            checked == match self.fault() {
                Some(error) => Err::<(), ConfigError>(error),
                None => Ok(()),
            },
    {
        if self.subscriptions.is_empty() {
            return Err(ConfigError::NoSubscriptions);
        }
        match self.mqtt.validate() {
            Err(error) => return Err(error),
            Ok(_) => {},
        }
        match self.influx.validate() {
            Err(error) => return Err(error),
            Ok(_) => {},
        }
        Ok(())
    }

    /// The subscriptions without their names, in the order of the
    /// configuration.
    pub fn subscriptions(&self) -> (subscriptions: Vec<Subscription>)
        ensures
            subscriptions@.len() == self.subscriptions.entries().len(),
            forall|i: int|
                0 <= i < subscriptions@.len() ==> #[trigger] subscriptions@[i]
                    == self.subscriptions.entries()[i].1,
    {
        let mut subscriptions: Vec<Subscription> = Vec::new();
        let mut i: usize = 0;
        while i < self.subscriptions.len()
            invariant
                i <= self.subscriptions.entries().len(),
                subscriptions@.len() == i,
                forall|j: int|
                    0 <= j < i ==> #[trigger] subscriptions@[j] == self.subscriptions.entries()[j].1,
            decreases self.subscriptions.entries().len() - i,
        {
            subscriptions.push(self.subscriptions.value_at(i).clone());
            i += 1;
        }
        subscriptions
    }
}

} // verus!
