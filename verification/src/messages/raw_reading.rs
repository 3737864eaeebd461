use crate::device::Endpoint;
use crate::errors::ButtplugMessageError;
use crate::messages::{ButtplugDeviceMessage, ButtplugMessage, ButtplugMessageValidator};
use vstd::prelude::*;

verus! {

/// Bytes that an endpoint gave, asked for or subscribed to.
#[derive(Clone, Debug, PartialEq, Eq)]
pub struct RawReading {
    /// The id that ties a reply to its request.
    pub id: u32,
    /// The index of the device.
    pub device_index: u32,
    /// The endpoint the bytes came from.
    pub endpoint: Endpoint,
    /// The bytes.
    pub data: Vec<u8>,
}

impl RawReading {
    /// Creates the message under the id that every new message starts with.
    pub fn new(device_index: u32, endpoint: Endpoint, data: Vec<u8>) -> (r: Self)
        ensures
            r == (RawReading { id: 1, device_index, endpoint, data }),
    {
        RawReading { id: 1, device_index, endpoint, data }
    }

    /// Returns the endpoint the bytes came from.
    pub fn endpoint(&self) -> (r: Endpoint)
        ensures
            r == self.endpoint,
    {
        self.endpoint
    }

    /// Returns the bytes.
    pub fn data(&self) -> (r: &Vec<u8>)
        ensures
            r == &self.data,
    {
        &self.data
    }
}

impl ButtplugMessage for RawReading {
    open spec fn spec_id(&self) -> u32 {
        self.id
    }

    fn id(&self) -> (r: u32) {
        self.id
    }

    fn set_id(&mut self, id: u32)
        ensures
            *final(self) == (RawReading { id, ..*old(self) }),
    {
        self.id = id;
    }
}

impl ButtplugDeviceMessage for RawReading {
    open spec fn spec_device_index(&self) -> u32 {
        self.device_index
    }

    fn device_index(&self) -> (r: u32) {
        self.device_index
    }

    fn set_device_index(&mut self, device_index: u32)
        ensures
            *final(self) == (RawReading { device_index, ..*old(self) }),
    {
        self.device_index = device_index;
    }
}

impl ButtplugMessageValidator for RawReading {
    /// The server sends this message, in reply or unasked: any id is taken.
    open spec fn spec_is_valid(&self) -> Result<(), ButtplugMessageError> {
        Ok(())
    }

    fn is_valid(&self) -> (r: Result<(), ButtplugMessageError>) {
        Ok(())
    }
}

} // verus!
