//! Server core for bridging application clients to haptic hardware over a
//! versioned message protocol.
//!
//! The crate holds the decisions of such a server: which messages are well
//! formed, how the wire versions convert into each other, which devices are
//! live and under which index, and what the hardware has to be told for each
//! command. Everything that waits (transports, timers, channels) stays with
//! the caller, which performs the actions the functions here hand back.

pub mod device;
pub mod errors;
pub mod messages;
pub mod server;
