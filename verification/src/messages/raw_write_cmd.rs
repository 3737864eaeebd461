use crate::device::Endpoint;
use crate::errors::ButtplugMessageError;
use crate::messages::{
    is_not_system_id, spec_is_not_system_id, ButtplugDeviceMessage, ButtplugMessage,
    ButtplugMessageValidator,
};
use vstd::prelude::*;

verus! {

/// Sends bytes straight to an endpoint.
#[derive(Clone, Debug, PartialEq, Eq)]
pub struct RawWriteCmd {
    /// The id that ties a reply to its request.
    pub id: u32,
    /// The index of the device.
    pub device_index: u32,
    /// The endpoint to write.
    pub endpoint: Endpoint,
    /// The bytes.
    pub data: Vec<u8>,
    /// Whether the hardware has to confirm the write.
    pub write_with_response: bool,
}

impl RawWriteCmd {
    /// Creates the message under the id that every new message starts with.
    pub fn new(
        device_index: u32,
        endpoint: Endpoint,
        data: Vec<u8>,
        write_with_response: bool,
    ) -> (r: Self)
        ensures
            r == (RawWriteCmd { id: 1, device_index, endpoint, data, write_with_response }),
    {
        RawWriteCmd { id: 1, device_index, endpoint, data, write_with_response }
    }

    /// Returns the endpoint to write.
    pub fn endpoint(&self) -> (r: Endpoint)
        ensures
            r == self.endpoint,
    {
        self.endpoint
    }

    /// Returns the bytes.
    pub fn data(&self) -> (r: &Vec<u8>)
        ensures
            r == &self.data,
    {
        &self.data
    }

    /// Returns whether the hardware has to confirm the write.
    pub fn write_with_response(&self) -> (r: bool)
        ensures
            r == self.write_with_response,
    {
        self.write_with_response
    }
}

impl ButtplugMessage for RawWriteCmd {
    open spec fn spec_id(&self) -> u32 {
        self.id
    }

    fn id(&self) -> (r: u32) {
        self.id
    }

    fn set_id(&mut self, id: u32)
        ensures
            *final(self) == (RawWriteCmd { id, ..*old(self) }),
    {
        self.id = id;
    }
}

impl ButtplugDeviceMessage for RawWriteCmd {
    open spec fn spec_device_index(&self) -> u32 {
        self.device_index
    }

    fn device_index(&self) -> (r: u32) {
        self.device_index
    }

    fn set_device_index(&mut self, device_index: u32)
        ensures
            *final(self) == (RawWriteCmd { device_index, ..*old(self) }),
    {
        self.device_index = device_index;
    }
}

impl ButtplugMessageValidator for RawWriteCmd {
    /// A client sends this message, so the reserved id is refused.
    open spec fn spec_is_valid(&self) -> Result<(), ButtplugMessageError> {
        spec_is_not_system_id(self.id)
    }

    fn is_valid(&self) -> (r: Result<(), ButtplugMessageError>) {
        is_not_system_id(self.id)
    }
}

} // verus!
