use crate::errors::ButtplugMessageError;
use crate::messages::{
    is_not_system_id, spec_is_not_system_id, ButtplugMessage, ButtplugMessageSpecVersion,
    ButtplugMessageValidator,
};
use vstd::prelude::*;

verus! {

/// Opens a session: the client names itself and the newest wire version it
/// speaks.
#[derive(Clone, Debug, PartialEq, Eq)]
pub struct RequestServerInfo {
    /// The id that ties a reply to its request.
    pub id: u32,
    /// The name the client gives itself.
    pub client_name: String,
    /// The newest wire version the client speaks.
    pub message_version: ButtplugMessageSpecVersion,
}

impl RequestServerInfo {
    /// Creates the message under the id that every new message starts with.
    pub fn new(client_name: String, message_version: ButtplugMessageSpecVersion) -> (r: Self)
        ensures
            r == (RequestServerInfo { id: 1, client_name, message_version }),
    {
        RequestServerInfo { id: 1, client_name, message_version }
    }

    /// Returns the name the client gives itself.
    pub fn client_name(&self) -> (r: &String)
        ensures
            r == &self.client_name,
    {
        &self.client_name
    }

    /// Returns the newest wire version the client speaks.
    pub fn message_version(&self) -> (r: ButtplugMessageSpecVersion)
        ensures
            r == self.message_version,
    {
        self.message_version
    }
}

impl ButtplugMessage for RequestServerInfo {
    open spec fn spec_id(&self) -> u32 {
        self.id
    }

    fn id(&self) -> (r: u32) {
        self.id
    }

    fn set_id(&mut self, id: u32)
        ensures
            *final(self) == (RequestServerInfo { id, ..*old(self) }),
    {
        self.id = id;
    }
}

impl ButtplugMessageValidator for RequestServerInfo {
    /// A client sends this message, so the reserved id is refused.
    open spec fn spec_is_valid(&self) -> Result<(), ButtplugMessageError> {
        spec_is_not_system_id(self.id)
    }

    fn is_valid(&self) -> (r: Result<(), ButtplugMessageError>) {
        is_not_system_id(self.id)
    }
}

} // verus!
