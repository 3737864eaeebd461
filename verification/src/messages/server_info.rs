use crate::errors::ButtplugMessageError;
use crate::messages::{ButtplugMessage, ButtplugMessageSpecVersion, ButtplugMessageValidator};
use vstd::prelude::*;

verus! {

/// Answers a request for server info with the terms of the session.
#[derive(Clone, Debug, PartialEq, Eq)]
pub struct ServerInfo {
    /// The id that ties a reply to its request.
    pub id: u32,
    /// The wire version the session will use.
    pub message_version: ButtplugMessageSpecVersion,
    /// The longest silence the server accepts, in milliseconds; zero for no limit.
    pub max_ping_time: u32,
    /// The name the server gives itself.
    pub server_name: String,
}

impl ServerInfo {
    /// Creates the message under the id that every new message starts with.
    pub fn new(
        message_version: ButtplugMessageSpecVersion,
        max_ping_time: u32,
        server_name: String,
    ) -> (r: Self)
        ensures
            r == (ServerInfo { id: 1, message_version, max_ping_time, server_name }),
    {
        ServerInfo { id: 1, message_version, max_ping_time, server_name }
    }

    /// Returns the wire version the session will use.
    pub fn message_version(&self) -> (r: ButtplugMessageSpecVersion)
        ensures
            r == self.message_version,
    {
        self.message_version
    }

    /// Returns the longest silence the server accepts, in milliseconds; zero for no
    /// limit.
    pub fn max_ping_time(&self) -> (r: u32)
        ensures
            r == self.max_ping_time,
    {
        self.max_ping_time
    }

    /// Returns the name the server gives itself.
    pub fn server_name(&self) -> (r: &String)
        ensures
            r == &self.server_name,
    {
        &self.server_name
    }
}

impl ButtplugMessage for ServerInfo {
    open spec fn spec_id(&self) -> u32 {
        self.id
    }

    fn id(&self) -> (r: u32) {
        self.id
    }

    fn set_id(&mut self, id: u32)
        ensures
            *final(self) == (ServerInfo { id, ..*old(self) }),
    {
        self.id = id;
    }
}

impl ButtplugMessageValidator for ServerInfo {
    /// The server sends this message, in reply or unasked: any id is taken.
    open spec fn spec_is_valid(&self) -> Result<(), ButtplugMessageError> {
        Ok(())
    }

    fn is_valid(&self) -> (r: Result<(), ButtplugMessageError>) {
        Ok(())
    }
}

} // verus!
