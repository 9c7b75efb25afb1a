use crate::entities::system::Environment;
use crate::settings::cert::Certificates;
use crate::settings::web::WebSocketSettings;
use crate::text::{decimal, push_decimal};
use vstd::prelude::*;
use vstd::string::StringExecFns;

pub mod cert;
pub mod web;

verus! {

/// The settings of the server.
#[derive(Debug)]
pub struct AppSettings {
    pub web: WebSocketSettings,
    pub certificates: Certificates,
    pub environment: Environment,
}

/// The address of a socket as a listener takes it: the host, a colon, and the
/// port in decimal.
pub open spec fn socket_text(host: Seq<char>, port: u16) -> Seq<char> {
    host + ":"@ + decimal(port as nat)
}

/// A service that listens on a host and a port.
pub trait Protocol {
    /// The host, as text.
    spec fn host(&self) -> Seq<char>;

    /// The port.
    spec fn port(&self) -> u16;

    /// The host that the service binds.
    fn get_host(&self) -> (host: &String)
        ensures
            host@ == self.host(),
    ;

    /// The port that the service binds.
    fn get_port(&self) -> (port: &u16)
        ensures
            *port == self.port(),
    ;

    /// The address of the service's socket.
    fn socket(&self) -> (text: String)
        ensures
            text@ == socket_text(self.host(), self.port()),
    {
        let mut text = self.get_host().clone();
        text.append(":");
        push_decimal(&mut text, *self.get_port());
        text
    }
}

impl AppSettings {
    /// The settings that a configuration file gives, for the given environment.
    pub fn read(web: WebSocketSettings, certificates: Certificates, env: Environment) -> (settings: Self)
        ensures
            settings.web == web,
            settings.certificates == certificates,
            settings.environment == env,
    {
        Self { web, certificates, environment: env }
    }

    /// The settings where there is no configuration file. In production and
    /// on stage they come from the environment's host and port, or are the
    /// defaults. In development there are none: the defaults are to be
    /// written out for the developer to edit.
    pub fn handle_environment(env: Environment, host: Option<String>, port: Option<u16>) -> (settings: Option<
        Self,
    >)
        ensures
            env == Environment::Development ==> settings is None,
            env != Environment::Development ==> settings is Some && settings->0.environment == env
                && settings->0.web.host@ == (match host {
                Some(host) => host@,
                None => "localhost"@,
            }) && settings->0.web.port == (match port {
                Some(port) => port,
                None => web::DEFAULT_PORT,
            }) && settings->0.certificates.websocket.path@ == Seq::<char>::empty(),
    {
        match env {
            Environment::Production | Environment::Stage => Some(
                Self {
                    web: WebSocketSettings::from_env(host, port),
                    certificates: Certificates::default(),
                    environment: env,
                },
            ),
            Environment::Development => None,
        }
    }
}

impl Default for AppSettings {
    /// The settings that go into a new configuration file.
    fn default() -> (settings: Self)
        ensures
            settings.web.host@ == "localhost"@,
            settings.web.port == web::DEFAULT_PORT,
            settings.certificates.websocket.path@ == Seq::<char>::empty(),
            settings.environment == Environment::Production,
    {
        Self {
            web: WebSocketSettings::from_env(None, None),
            certificates: Certificates::default(),
            environment: Environment::Production,
        }
    }
}

} // verus!
