//! How the relay sets up its two broker sessions.
//!
//! Each session is a TLS connection on the brokers' secure port, authenticated
//! by user name and password. The source session subscribes to everything
//! below the configured topic prefix; the target session only publishes.

use crate::config::{ConnectionConfig, ConnectionConfigView};
use vstd::prelude::*;
use vstd::string::*;

verus! {

/// The port on which the brokers accept TLS connections.
pub const SECURE_PORT: u16 = 8883;

/// Seconds of silence after which a session pings its broker.
pub const KEEP_ALIVE_SECS: u16 = 5;

/// The shortest keep-alive interval that a session accepts, in seconds.
pub const MIN_KEEP_ALIVE_SECS: u16 = 5;

/// Number of requests that may wait in a session's queue.
pub const REQUEST_CAPACITY: usize = 64;

/// Which of the two brokers a session talks to.
#[derive(Clone, Copy, Debug, PartialEq, Eq, Structural)]
pub enum SessionRole {
    /// The broker that the inbound messages come from.
    Source,
    /// The broker that the commands are sent to.
    Target,
}

/// The name under which a session of the given role presents itself.
pub open spec fn client_id_of(role: SessionRole) -> Seq<char> {
    match role {
        SessionRole::Source => "source"@,
        SessionRole::Target => "target"@,
    }
}

/// The settings of one broker session.
#[derive(Debug)]
pub struct SessionOptions {
    pub client_id: String,
    pub host: String,
    pub port: u16,
    pub keep_alive_secs: u16,
    pub user: String,
    pub password: String,
    pub request_capacity: usize,
}

/// What a [`SessionOptions`] holds, as text and numbers.
pub ghost struct SessionOptionsView {
    pub client_id: Seq<char>,
    pub host: Seq<char>,
    pub port: u16,
    pub keep_alive_secs: u16,
    pub user: Seq<char>,
    pub password: Seq<char>,
    pub request_capacity: usize,
}

impl View for SessionOptions {
    type V = SessionOptionsView;

    open spec fn view(&self) -> SessionOptionsView {
        SessionOptionsView {
            client_id: self.client_id@,
            host: self.host@,
            port: self.port,
            keep_alive_secs: self.keep_alive_secs,
            user: self.user@,
            password: self.password@,
            request_capacity: self.request_capacity,
        }
    }
}

impl SessionOptionsView {
    /// Settings that a broker client accepts: the client name is not empty
    /// and does not start with a space, and the keep-alive interval is not
    /// below the minimum.
    pub open spec fn acceptable(self) -> bool {
        &&& self.client_id.len() > 0
        &&& self.client_id[0] != ' '
        &&& self.keep_alive_secs >= MIN_KEEP_ALIVE_SECS
    }
}

/// The settings of the session of the given role to the given broker.
pub open spec fn session_options_of(
    role: SessionRole,
    connection: ConnectionConfigView,
) -> SessionOptionsView {
    SessionOptionsView {
        client_id: client_id_of(role),
        host: connection.host,
        port: SECURE_PORT,
        keep_alive_secs: KEEP_ALIVE_SECS,
        user: connection.user,
        password: connection.password,
        request_capacity: REQUEST_CAPACITY,
    }
}

/// The settings of either role are acceptable to a broker client.
pub proof fn lemma_session_options_acceptable(role: SessionRole, connection: ConnectionConfigView)
    ensures
        session_options_of(role, connection).acceptable(),
{
    reveal_strlit("source");
    reveal_strlit("target");
}

/// Settings for the session of the given role: the broker's host and
/// credentials as configured, the secure port, and the relay's fixed
/// keep-alive interval and queue length.
pub fn session_options(role: SessionRole, connection: &ConnectionConfig) -> (options:
    SessionOptions)
    ensures
        options@ == session_options_of(role, connection@),
        options@.acceptable(),
{
    proof {
        lemma_session_options_acceptable(role, connection@);
    }
    let client_id = match role {
        SessionRole::Source => "source".to_owned(),
        SessionRole::Target => "target".to_owned(),
    };
    SessionOptions {
        client_id,
        host: connection.host.clone(),
        port: SECURE_PORT,
        keep_alive_secs: KEEP_ALIVE_SECS,
        user: connection.user.clone(),
        password: connection.password.clone(),
        request_capacity: REQUEST_CAPACITY,
    }
}

/// The wildcard that closes a topic filter: it stands for every topic below
/// what precedes it.
pub const WILDCARD: char = '#';

/// The filter that covers every topic below the given prefix.
pub open spec fn subscription_filter_of(prefix: Seq<char>) -> Seq<char> {
    prefix.push(WILDCARD)
}

/// The filter that the source session subscribes to: the prefix followed by
/// the wildcard.
pub fn subscription_filter(prefix: &str) -> (filter: String)
    ensures
        filter@ == subscription_filter_of(prefix@),
{
    proof {
        reveal_strlit("#");
        assert("#"@ == seq![WILDCARD]);
    }
    prefix.to_owned().concat("#")
}

} // verus!
