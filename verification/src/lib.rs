//! Decision logic of the Roommate LAN helper: the GUI/service request
//! protocol and its framing, the service's connection lease, the client's
//! reading of service replies, the reading of the sidecar's status report,
//! and the pure parts of configuration.

pub mod cli;
pub mod client;
pub mod config;
pub mod engine;
pub mod platform;
pub mod protocol;
pub mod sidecar;
pub mod status;
pub mod text;
