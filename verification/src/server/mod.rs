//! The server: the device manager with its map of live devices, the
//! transports it looks for devices on, and the session with a client.

pub mod comm_manager;
pub mod device_manager;
pub mod device_map;
pub mod message_variant;
pub mod session;
