use crate::errors::ButtplugMessageError;
use crate::messages::{
    is_not_system_id, spec_is_not_system_id, ButtplugMessage, ButtplugMessageValidator,
};
use vstd::prelude::*;

verus! {

/// Asks for the devices that are live.
#[derive(Clone, Copy, Debug, PartialEq, Eq, Structural)]
pub struct RequestDeviceList {
    /// The id that ties a reply to its request.
    pub id: u32,
}

impl RequestDeviceList {
    /// Creates the message under the id that every new message starts with.
    pub fn new() -> (r: Self)
        ensures
            r == (RequestDeviceList { id: 1 }),
    {
        RequestDeviceList { id: 1 }
    }
}

impl Default for RequestDeviceList {
    fn default() -> (r: Self)
        ensures
            r == (RequestDeviceList { id: 1 }),
    {
        RequestDeviceList { id: 1 }
    }
}

impl ButtplugMessage for RequestDeviceList {
    open spec fn spec_id(&self) -> u32 {
        self.id
    }

    fn id(&self) -> (r: u32) {
        self.id
    }

    fn set_id(&mut self, id: u32)
        ensures
            *final(self) == (RequestDeviceList { id, ..*old(self) }),
    {
        self.id = id;
    }
}

impl ButtplugMessageValidator for RequestDeviceList {
    /// A client sends this message, so the reserved id is refused.
    open spec fn spec_is_valid(&self) -> Result<(), ButtplugMessageError> {
        spec_is_not_system_id(self.id)
    }

    fn is_valid(&self) -> (r: Result<(), ButtplugMessageError>) {
        is_not_system_id(self.id)
    }
}

} // verus!
