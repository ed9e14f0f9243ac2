//! The settings of the server, and the values that stand in where the
//! environment names none.

use vstd::prelude::*;

verus! {

/// Where the settings file is looked for when `CONFIG_PATH` is not set.
pub const DEFAULT_CONFIG_PATH: &'static str = "config";

/// The store that is opened when `DATABASE_URL` is not set.
pub const DEFAULT_DATABASE_URL: &'static str = "sqlite:data.db";

/// The prefix of the environment variables that override the settings file.
pub const ENVIRONMENT_PREFIX: &'static str = "APP";

/// The settings of the HTTP server.
#[derive(Debug, Clone, Copy, PartialEq, Eq, Structural)]
pub struct ServerConfig {
    /// The port on which the server listens, on the loopback address.
    pub port: u16,
}

/// The settings of the service.
#[derive(Debug, Clone, Copy, PartialEq, Eq, Structural)]
pub struct Config {
    pub server: ServerConfig,
}

/// A setting read from the environment, or `default` where the environment
/// does not hold it.
pub fn setting_or(value: Option<String>, default: &str) -> (setting: String)
    ensures
        setting@ == match value {
            Some(v) => v@,
            None => default@,
        },
{
    match value {
        Some(v) => v,
        None => String::from_str(default),
    }
}

impl Config {
    /// The address on which the server listens: the loopback address and
    /// the configured port.
    pub fn listen_address(&self) -> (address: ([u8; 4], u16))
        ensures
            address.0@ == seq![127u8, 0u8, 0u8, 1u8],
            address.1 == self.server.port,
    {
        let host: [u8; 4] = [127, 0, 0, 1];
        assert(host@ =~= seq![127u8, 0u8, 0u8, 1u8]);
        (host, self.server.port)
    }
}

} // verus!
