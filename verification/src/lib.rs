//! Management library for embedded mining devices reachable over a local
//! HTTP API: typed device operations, response classification, subnet
//! scanning, and a firmware-upgrade state machine.
//!
//! The library itself performs no I/O. It builds the requests a caller
//! must send, classifies the responses the caller got back, and drives
//! the upgrade workflow as a state machine fed with events. A thin
//! unverified shell supplies the network, filesystem and terminal.

pub mod client;
pub mod config;
pub mod models;
pub mod scan;
pub mod settings;
pub mod text;
pub mod upgrade;
pub mod wire;
