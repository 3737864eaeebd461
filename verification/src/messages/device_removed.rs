use crate::errors::ButtplugMessageError;
use crate::messages::{is_system_id, spec_is_system_id, ButtplugMessage, ButtplugMessageValidator};
use vstd::prelude::*;

verus! {

/// Tells the client that a device is gone.
#[derive(Clone, Copy, Debug, PartialEq, Eq, Structural)]
pub struct DeviceRemoved {
    /// The id that ties a reply to its request.
    pub id: u32,
    /// The index the device had.
    pub device_index: u32,
}

impl DeviceRemoved {
    /// Creates the message under the reserved id.
    pub fn new(device_index: u32) -> (r: Self)
        ensures
            r == (DeviceRemoved { id: 0, device_index }),
    {
        DeviceRemoved { id: 0, device_index }
    }

    /// Returns the index the device had.
    pub fn device_index(&self) -> (r: u32)
        ensures
            r == self.device_index,
    {
        self.device_index
    }
}

impl ButtplugMessage for DeviceRemoved {
    open spec fn spec_id(&self) -> u32 {
        self.id
    }

    fn id(&self) -> (r: u32) {
        self.id
    }

    fn set_id(&mut self, id: u32)
        ensures
            *final(self) == (DeviceRemoved { id, ..*old(self) }),
    {
        self.id = id;
    }
}

impl ButtplugMessageValidator for DeviceRemoved {
    /// The server sends this message unasked, so only the reserved id is taken.
    open spec fn spec_is_valid(&self) -> Result<(), ButtplugMessageError> {
        spec_is_system_id(self.id)
    }

    fn is_valid(&self) -> (r: Result<(), ButtplugMessageError>) {
        is_system_id(self.id)
    }
}

} // verus!
