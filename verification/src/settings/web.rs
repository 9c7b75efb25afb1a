use crate::settings::Protocol;
use vstd::prelude::*;
use vstd::string::StringExecFns;

verus! {

/// The port that the server binds where none is given.
pub const DEFAULT_PORT: u16 = 9002;

/// Where the WebSocket server listens.
#[derive(Debug)]
pub struct WebSocketSettings {
    pub host: String,
    pub port: u16,
}

impl WebSocketSettings {
    /// The settings that the environment gives: its host and port where it
    /// names them, `localhost` and 9002 where it does not.
    pub fn from_env(host: Option<String>, port: Option<u16>) -> (settings: Self)
        ensures
            settings.host@ == match host {
                Some(host) => host@,
                None => "localhost"@,
            },
            settings.port == match port {
                Some(port) => port,
                None => DEFAULT_PORT,
            },
    {
        Self {
            host: match host {
                Some(host) => host,
                None => String::from_str("localhost"),
            },
            port: match port {
                Some(port) => port,
                None => DEFAULT_PORT,
            },
        }
    }
}

impl Protocol for WebSocketSettings {
    open spec fn host(&self) -> Seq<char> {
        self.host@
    }

    open spec fn port(&self) -> u16 {
        self.port
    }

    fn get_host(&self) -> &String {
        &self.host
    }

    fn get_port(&self) -> &u16 {
        &self.port
    }
}

} // verus!
