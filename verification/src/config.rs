//! The configuration the relay is started with.

use vstd::prelude::*;

verus! {

/// Address and credentials of one broker.
#[derive(Debug)]
pub struct ConnectionConfig {
    pub host: String,
    pub user: String,
    pub password: String,
}

/// What a [`ConnectionConfig`] holds, as text.
pub ghost struct ConnectionConfigView {
    pub host: Seq<char>,
    pub user: Seq<char>,
    pub password: Seq<char>,
}

impl View for ConnectionConfig {
    type V = ConnectionConfigView;

    open spec fn view(&self) -> ConnectionConfigView {
        ConnectionConfigView { host: self.host@, user: self.user@, password: self.password@ }
    }
}

/// One controllable device: its name, and the command strings that switch it
/// on and off.
#[derive(Debug, PartialEq, Eq)]
pub struct SwitchConfig {
    pub name: String,
    pub on: String,
    pub off: String,
}

/// What a [`SwitchConfig`] holds, as text.
pub ghost struct SwitchConfigView {
    pub name: Seq<char>,
    pub on: Seq<char>,
    pub off: Seq<char>,
}

impl View for SwitchConfig {
    type V = SwitchConfigView;

    open spec fn view(&self) -> SwitchConfigView {
        SwitchConfigView { name: self.name@, on: self.on@, off: self.off@ }
    }
}

/// What each switch of a sequence holds, as text.
pub open spec fn switch_views(switches: Seq<SwitchConfig>) -> Seq<SwitchConfigView> {
    switches.map_values(|switch: SwitchConfig| switch@)
}

/// Everything the relay is told at start-up. It is read once and never
/// changed.
#[derive(Debug)]
pub struct Config {
    /// The broker that the inbound messages come from.
    pub source: ConnectionConfig,
    /// The broker that the commands are sent to.
    pub target: ConnectionConfig,
    /// The relay listens to every topic that starts with this text.
    pub source_topic_prefix: String,
    /// The one topic that every command is published on.
    pub target_topic: String,
    /// The switches that the relay knows, in the order they were written.
    pub switches: Vec<SwitchConfig>,
    /// Where counters and timers are sent, if anywhere.
    pub metrics_endpoint: Option<String>,
    /// Where unexpected errors are reported, if anywhere.
    pub error_endpoint: Option<String>,
}

/// What a [`Config`] holds, as text.
pub ghost struct ConfigView {
    pub source: ConnectionConfigView,
    pub target: ConnectionConfigView,
    pub source_topic_prefix: Seq<char>,
    pub target_topic: Seq<char>,
    pub switches: Seq<SwitchConfigView>,
    pub metrics_endpoint: Option<Seq<char>>,
    pub error_endpoint: Option<Seq<char>>,
}

/// What an optional text holds.
pub open spec fn optional_text(text: Option<String>) -> Option<Seq<char>> {
    match text {
        Some(text) => Some(text@),
        None => None,
    }
}

impl View for Config {
    type V = ConfigView;

    open spec fn view(&self) -> ConfigView {
        ConfigView {
            source: self.source@,
            target: self.target@,
            source_topic_prefix: self.source_topic_prefix@,
            target_topic: self.target_topic@,
            switches: switch_views(self.switches@),
            metrics_endpoint: optional_text(self.metrics_endpoint),
            error_endpoint: optional_text(self.error_endpoint),
        }
    }
}

} // verus!
