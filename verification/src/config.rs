//! What the two programs are configured with, worked out from the values of
//! their environment variables.

use vstd::prelude::*;
use vstd::string::StringExecFns;
use crate::decimal::{parse_unsigned, parse_unsigned_spec};

verus! {

/// Why a configuration could not be worked out.
#[derive(Debug, Clone, Copy, PartialEq, Eq, Structural)]
pub enum ConfigError {
    /// The broker port is set and is no number between 0 and 65535.
    InvalidPort,
    /// The connection string of the store is not set.
    MissingDatabaseUrl,
    /// The device count is set and is no number that fits the machine word.
    InvalidDeviceCount,
}

/// The broker host where none is set.
pub open spec fn default_host() -> Seq<char> {
    "localhost"@
}

/// The broker port where none is set.
pub const DEFAULT_MQTT_PORT: u16 = 1883;

/// The number of simulated devices where none is set.
pub const DEFAULT_DEVICE_COUNT: usize = 1000;

/// The host that a variable gives: its value, or the default.
pub open spec fn host_of(var: Option<String>) -> Seq<char> {
    match var {
        Some(host) => host@,
        None => default_host(),
    }
}

/// The port that a variable gives: the default where it is not set, else the
/// number it writes, if it writes one that is a port.
pub open spec fn port_of(var: Option<String>) -> Option<nat> {
    match var {
        Some(text) => parse_unsigned_spec(text@, u16::MAX as nat),
        None => Some(DEFAULT_MQTT_PORT as nat),
    }
}

/// The device count that a variable gives: the default where it is not set,
/// else the number it writes, if it fits the machine word.
pub open spec fn device_count_of(var: Option<String>) -> Option<nat> {
    match var {
        Some(text) => parse_unsigned_spec(text@, usize::MAX as nat),
        None => Some(DEFAULT_DEVICE_COUNT as nat),
    }
}

fn host_from(var: Option<String>) -> (host: String)
    ensures
        host@ == host_of(var),
{
    match var {
        Some(host) => host,
        None => String::from_str("localhost"),
    }
}

fn port_from(var: &Option<String>) -> (port: Option<u16>)
    ensures
        port is Some <==> port_of(*var) is Some,
        port matches Some(p) ==> port_of(*var) == Some(p as nat),
{
    match var {
        Some(text) => match parse_unsigned(text.as_str(), u16::MAX as u64) {
            Some(p) => Some(p as u16),
            None => None,
        },
        None => Some(DEFAULT_MQTT_PORT),
    }
}

fn device_count_from(var: &Option<String>) -> (count: Option<usize>)
    ensures
        count is Some <==> device_count_of(*var) is Some,
        count matches Some(n) ==> device_count_of(*var) == Some(n as nat),
{
    match var {
        Some(text) => match parse_unsigned(text.as_str(), usize::MAX as u64) {
            Some(n) => Some(n as usize),
            None => None,
        },
        None => Some(DEFAULT_DEVICE_COUNT),
    }
}

/// The configuration of the ingesting program.
#[derive(Debug, Clone, PartialEq, Eq)]
pub struct IngestorConfig {
    pub mqtt_host: String,
    pub mqtt_port: u16,
    pub database_url: String,
}

impl IngestorConfig {
    /// The configuration that the variables for the broker host, the broker
    /// port and the store's connection string give, each `None` where the
    /// variable is not set. The port, where set, must write a port, and the
    /// connection string must be set: [`IngestorConfig::try_from_vars`] takes
    /// any values and tells why no configuration comes of them.
    pub fn from_vars(
        mqtt_host: Option<String>,
        mqtt_port: Option<String>,
        database_url: Option<String>,
    ) -> (config: IngestorConfig)
        requires
            port_of(mqtt_port) is Some,
            database_url is Some,
        ensures
            config.mqtt_host@ == host_of(mqtt_host),
            port_of(mqtt_port) == Some(config.mqtt_port as nat),
            database_url matches Some(url) && config.database_url@ == url@,
    {
        IngestorConfig {
            mqtt_host: host_from(mqtt_host),
            mqtt_port: port_from(&mqtt_port).unwrap(),
            database_url: database_url.unwrap(),
        }
    }

    /// Works out the configuration from any values of the three variables.
    /// A port that is no port is reported before a missing connection
    /// string.
    pub fn try_from_vars(
        mqtt_host: Option<String>,
        mqtt_port: Option<String>,
        database_url: Option<String>,
    ) -> (config: Result<IngestorConfig, ConfigError>)
        ensures
            match config {
                Ok(c) => {
                    &&& c.mqtt_host@ == host_of(mqtt_host)
                    &&& port_of(mqtt_port) == Some(c.mqtt_port as nat)
                    &&& database_url matches Some(url) && c.database_url@ == url@
                },
                Err(ConfigError::InvalidPort) => port_of(mqtt_port) is None,
                Err(ConfigError::MissingDatabaseUrl) => port_of(mqtt_port) is Some
                    && database_url is None,
                Err(ConfigError::InvalidDeviceCount) => false,
            },
    {
        if port_from(&mqtt_port).is_none() {
            Err(ConfigError::InvalidPort)
        } else if database_url.is_none() {
            Err(ConfigError::MissingDatabaseUrl)
        } else {
            Ok(Self::from_vars(mqtt_host, mqtt_port, database_url))
        }
    }
}

/// The configuration of the simulating program.
#[derive(Debug, Clone, PartialEq, Eq)]
pub struct SimulatorConfig {
    pub mqtt_host: String,
    pub mqtt_port: u16,
    pub device_count: usize,
}

impl SimulatorConfig {
    /// The configuration that the variables for the broker host, the broker
    /// port and the device count give, each `None` where the variable is not
    /// set. The port, where set, must write a port, and the device count,
    /// where set, a number that fits the machine word:
    /// [`SimulatorConfig::try_from_vars`] takes any values and tells why no
    /// configuration comes of them.
    pub fn from_vars(
        mqtt_host: Option<String>,
        mqtt_port: Option<String>,
        device_count: Option<String>,
    ) -> (config: SimulatorConfig)
        requires
            port_of(mqtt_port) is Some,
            device_count_of(device_count) is Some,
        ensures
            config.mqtt_host@ == host_of(mqtt_host),
            port_of(mqtt_port) == Some(config.mqtt_port as nat),
            device_count_of(device_count) == Some(config.device_count as nat),
    {
        SimulatorConfig {
            mqtt_host: host_from(mqtt_host),
            mqtt_port: port_from(&mqtt_port).unwrap(),
            device_count: device_count_from(&device_count).unwrap(),
        }
    }

    /// Works out the configuration from any values of the three variables.
    /// A port that is no port is reported before a device count that is no
    /// count.
    pub fn try_from_vars(
        mqtt_host: Option<String>,
        mqtt_port: Option<String>,
        device_count: Option<String>,
    ) -> (config: Result<SimulatorConfig, ConfigError>)
        ensures
            match config {
                Ok(c) => {
                    &&& c.mqtt_host@ == host_of(mqtt_host)
                    &&& port_of(mqtt_port) == Some(c.mqtt_port as nat)
                    &&& device_count_of(device_count) == Some(c.device_count as nat)
                },
                Err(ConfigError::InvalidPort) => port_of(mqtt_port) is None,
                Err(ConfigError::InvalidDeviceCount) => port_of(mqtt_port) is Some
                    && device_count_of(device_count) is None,
                Err(ConfigError::MissingDatabaseUrl) => false,
            },
    {
        if port_from(&mqtt_port).is_none() {
            Err(ConfigError::InvalidPort)
        } else if device_count_from(&device_count).is_none() {
            Err(ConfigError::InvalidDeviceCount)
        } else {
            Ok(Self::from_vars(mqtt_host, mqtt_port, device_count))
        }
    }
}

} // verus!
