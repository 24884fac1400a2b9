//! The choice of the sink that takes the telemetry.

use vstd::prelude::*;
use crate::config::{Config, MqttConfig, SqliteConfig};

verus! {

/// The sink that a daemon writes to: one of a fixed, small set, chosen
/// once at startup from the settings.
#[derive(Debug, Clone, PartialEq, Eq)]
pub enum Sink {
    /// A local database in the given file.
    Sqlite(SqliteConfig),
    /// A message broker.
    Mqtt(MqttConfig),
}

/// Chooses the sink that the settings name: the local database where one
/// is configured, else the message broker where one is, else none.
pub fn new_sink(config: Config) -> (sink: Option<Sink>)
    ensures
        config.sqlite is Some ==> sink == Some(Sink::Sqlite(config.sqlite->0)),
        config.sqlite is None && config.mqtt is Some ==> sink == Some(
            Sink::Mqtt(config.mqtt->0),
        ),
        config.sqlite is None && config.mqtt is None ==> sink is None,
{
    match config.sqlite {
        Some(sqlite) => Some(Sink::Sqlite(sqlite)),
        None => match config.mqtt {
            Some(mqtt) => Some(Sink::Mqtt(mqtt)),
            None => None,
        },
    }
}

impl MqttConfig {
    /// The name and password to present to the broker: both or neither.
    pub fn credentials(&self) -> (both: Option<(String, String)>)
        ensures
            match both {
                Some(pair) => self.username is Some && self.password is Some && pair.0@
                    == self.username->0@ && pair.1@ == self.password->0@,
                None => self.username is None || self.password is None,
            },
    {
        match (&self.username, &self.password) {
            (Some(username), Some(password)) => Some((username.clone(), password.clone())),
            _ => None,
        }
    }
}

/// Seconds between two signs of life that are sent to the broker.
pub const MQTT_KEEP_ALIVE: u64 = 10;

/// The number of requests that may wait for the broker.
pub const MQTT_QUEUE: usize = 10;

} // verus!
