//! A relay between two publish/subscribe brokers.
//!
//! Messages that arrive on the source broker name a switch in the third
//! segment of their topic and carry `"0"` or `"1"` as payload. The relay looks
//! the switch up in a table built from the configuration and republishes the
//! switch's command string on one fixed topic of the target broker.
//!
//! This crate holds the decisions of the relay: how a topic is split, how the
//! table is built and read, which command a message maps to, how a broker
//! session is set up, and which step follows which event. Sockets, metrics
//! and logging belong to the program that drives it.

pub mod bridge;
pub mod config;
pub mod session;
pub mod table;
pub mod text;
pub mod topic;
pub mod transform;
