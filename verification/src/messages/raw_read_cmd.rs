use crate::device::Endpoint;
use crate::errors::ButtplugMessageError;
use crate::messages::{
    is_not_system_id, spec_is_not_system_id, ButtplugDeviceMessage, ButtplugMessage,
    ButtplugMessageValidator,
};
use vstd::prelude::*;

verus! {

/// Asks for bytes straight from an endpoint.
#[derive(Clone, Copy, Debug, PartialEq, Eq, Structural)]
pub struct RawReadCmd {
    /// The id that ties a reply to its request.
    pub id: u32,
    /// The index of the device.
    pub device_index: u32,
    /// The endpoint to read.
    pub endpoint: Endpoint,
    /// How many bytes are expected. Not checked here: the hardware decides what a
    /// length of zero means.
    pub expected_length: u32,
    /// How long to wait, in milliseconds.
    pub timeout: u32,
}

impl RawReadCmd {
    /// Creates the message under the id that every new message starts with.
    pub fn new(
        device_index: u32,
        endpoint: Endpoint,
        expected_length: u32,
        timeout: u32,
    ) -> (r: Self)
        ensures
            r == (RawReadCmd { id: 1, device_index, endpoint, expected_length, timeout }),
    {
        RawReadCmd { id: 1, device_index, endpoint, expected_length, timeout }
    }

    /// Returns the endpoint to read.
    pub fn endpoint(&self) -> (r: Endpoint)
        ensures
            r == self.endpoint,
    {
        self.endpoint
    }

    /// Returns how many bytes are expected.
    pub fn expected_length(&self) -> (r: u32)
        ensures
            r == self.expected_length,
    {
        self.expected_length
    }

    /// Returns how long to wait, in milliseconds.
    pub fn timeout(&self) -> (r: u32)
        ensures
            r == self.timeout,
    {
        self.timeout
    }
}

impl ButtplugMessage for RawReadCmd {
    open spec fn spec_id(&self) -> u32 {
        self.id
    }

    fn id(&self) -> (r: u32) {
        self.id
    }

    fn set_id(&mut self, id: u32)
        ensures
            *final(self) == (RawReadCmd { id, ..*old(self) }),
    {
        self.id = id;
    }
}

impl ButtplugDeviceMessage for RawReadCmd {
    open spec fn spec_device_index(&self) -> u32 {
        self.device_index
    }

    fn device_index(&self) -> (r: u32) {
        self.device_index
    }

    fn set_device_index(&mut self, device_index: u32)
        ensures
            *final(self) == (RawReadCmd { device_index, ..*old(self) }),
    {
        self.device_index = device_index;
    }
}

impl ButtplugMessageValidator for RawReadCmd {
    /// A client sends this message, so the reserved id is refused.
    open spec fn spec_is_valid(&self) -> Result<(), ButtplugMessageError> {
        spec_is_not_system_id(self.id)
    }

    fn is_valid(&self) -> (r: Result<(), ButtplugMessageError>) {
        is_not_system_id(self.id)
    }
}

} // verus!
