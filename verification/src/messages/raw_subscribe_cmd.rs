use crate::device::Endpoint;
use crate::errors::ButtplugMessageError;
use crate::messages::{
    is_not_system_id, spec_is_not_system_id, ButtplugDeviceMessage, ButtplugMessage,
    ButtplugMessageValidator,
};
use vstd::prelude::*;

verus! {

/// Asks for the bytes an endpoint sends as they come.
#[derive(Clone, Copy, Debug, PartialEq, Eq, Structural)]
pub struct RawSubscribeCmd {
    /// The id that ties a reply to its request.
    pub id: u32,
    /// The index of the device.
    pub device_index: u32,
    /// The endpoint to listen to.
    pub endpoint: Endpoint,
}

impl RawSubscribeCmd {
    /// Creates the message under the id that every new message starts with.
    pub fn new(device_index: u32, endpoint: Endpoint) -> (r: Self)
        ensures
            r == (RawSubscribeCmd { id: 1, device_index, endpoint }),
    {
        RawSubscribeCmd { id: 1, device_index, endpoint }
    }

    /// Returns the endpoint to listen to.
    pub fn endpoint(&self) -> (r: Endpoint)
        ensures
            r == self.endpoint,
    {
        self.endpoint
    }
}

impl ButtplugMessage for RawSubscribeCmd {
    open spec fn spec_id(&self) -> u32 {
        self.id
    }

    fn id(&self) -> (r: u32) {
        self.id
    }

    fn set_id(&mut self, id: u32)
        ensures
            *final(self) == (RawSubscribeCmd { id, ..*old(self) }),
    {
        self.id = id;
    }
}

impl ButtplugDeviceMessage for RawSubscribeCmd {
    open spec fn spec_device_index(&self) -> u32 {
        self.device_index
    }

    fn device_index(&self) -> (r: u32) {
        self.device_index
    }

    fn set_device_index(&mut self, device_index: u32)
        ensures
            *final(self) == (RawSubscribeCmd { device_index, ..*old(self) }),
    {
        self.device_index = device_index;
    }
}

impl ButtplugMessageValidator for RawSubscribeCmd {
    /// A client sends this message, so the reserved id is refused.
    open spec fn spec_is_valid(&self) -> Result<(), ButtplugMessageError> {
        spec_is_not_system_id(self.id)
    }

    fn is_valid(&self) -> (r: Result<(), ButtplugMessageError>) {
        is_not_system_id(self.id)
    }
}

} // verus!
