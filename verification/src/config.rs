//! The settings that the program keeps between runs, and the credential
//! among them.

use vstd::prelude::*;
use vstd::string::StringExecFns;

verus! {

/// Everything the program keeps between runs.
#[derive(Debug, Clone, PartialEq, Eq)]
pub struct Config {
    pub token: Token,
    pub global: GlobalConfig,
    pub influx: Option<InfluxConfig>,
    pub sqlite: Option<SqliteConfig>,
    pub mqtt: Option<MqttConfig>,
}

/// Settings that hold for every command.
#[derive(Debug, Clone, PartialEq, Eq)]
pub struct GlobalConfig {
    pub default_vehicle: Option<String>,
    pub default_vehicle_id: Option<u64>,
    pub logspec: Option<String>,
}

/// The credential: the token pair and the time, in seconds since the
/// epoch, at which the access token expires.
#[derive(Debug, Clone, PartialEq, Eq)]
pub struct Token {
    pub access_token: String,
    pub refresh_token: String,
    pub expires_ts: u64,
}

/// Where the time series database is found.
#[derive(Debug, Clone, PartialEq, Eq)]
pub struct InfluxConfig {
    pub url: Option<String>,
    pub user: Option<String>,
    pub password: Option<String>,
    pub database: Option<String>,
    pub interval: Option<u64>,
}

/// The file of the local database.
#[derive(Debug, Clone, PartialEq, Eq)]
pub struct SqliteConfig {
    pub file: String,
}

/// The message broker and the topic to publish under.
#[derive(Debug, Clone, PartialEq, Eq)]
pub struct MqttConfig {
    pub host: String,
    pub port: u16,
    pub username: Option<String>,
    pub password: Option<String>,
    pub topic: String,
}

/// What a `Token` holds, as a mathematical value.
pub struct TokenModel {
    pub access_token: Seq<char>,
    pub refresh_token: Seq<char>,
    pub expires_ts: u64,
}

impl View for Token {
    type V = TokenModel;

    open spec fn view(&self) -> TokenModel {
        TokenModel {
            access_token: self.access_token@,
            refresh_token: self.refresh_token@,
            expires_ts: self.expires_ts,
        }
    }
}

impl Config {
    /// The settings of a first run: the credential just obtained, log level
    /// `info`, no default vehicle and no sink.
    pub fn initial(token: Token) -> (config: Config)
        ensures
            config.token == token,
            config.global.default_vehicle is None,
            config.global.default_vehicle_id is None,
            config.global.logspec is Some,
            config.global.logspec->0@ == "info"@,
            config.influx is None,
            config.sqlite is None,
            config.mqtt is None,
    {
        Config {
            token,
            global: GlobalConfig {
                default_vehicle: None,
                default_vehicle_id: None,
                logspec: Some("info".to_owned()),
            },
            influx: None,
            sqlite: None,
            mqtt: None,
        }
    }
}

/// The settings that stand in for a file that cannot be read while a debug
/// server is in use.
pub open spec fn debug_config_text() -> Seq<char> {
    "[global]\n"@ + "api_token = \"abcdefghijklmnop1234567890\"\n"@ + "logspec = \"info\"\n"@
        + "default_vehicle = \"Test CAR\"\n"@
}

/// The text of the settings that stand in for a file that cannot be read
/// while a debug server is in use.
pub fn debug_config() -> (text: String)
    ensures
        text@ == debug_config_text(),
{
    let mut text = String::new();
    text.append("[global]\n");
    text.append("api_token = \"abcdefghijklmnop1234567890\"\n");
    text.append("logspec = \"info\"\n");
    text.append("default_vehicle = \"Test CAR\"\n");
    text
}

} // verus!
