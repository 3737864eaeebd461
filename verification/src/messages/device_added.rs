use crate::errors::ButtplugMessageError;
use crate::messages::{
    is_system_id, spec_is_system_id, ButtplugDeviceMessage, ButtplugMessage, ButtplugMessageValidator,
    DeviceMessageAttributes,
};
use vstd::prelude::*;

verus! {

/// Tells the client that a device has become live.
#[derive(Clone, Debug, PartialEq, Eq)]
pub struct DeviceAdded {
    /// The id that ties a reply to its request.
    pub id: u32,
    /// The index of the device.
    pub device_index: u32,
    /// The name the device is shown under.
    pub device_name: String,
    /// The commands the device takes.
    pub device_messages: DeviceMessageAttributes,
}

impl DeviceAdded {
    /// Creates the message under the reserved id.
    pub fn new(device_index: u32, device_name: &str, device_messages: DeviceMessageAttributes) -> (r:
        Self)
        ensures
            r.id == 0,
            r.device_index == device_index,
            r.device_name@ == device_name@,
            r.device_messages == device_messages,
    {
        DeviceAdded { id: 0, device_index, device_name: device_name.to_owned(), device_messages }
    }

    /// Returns the name the device is shown under.
    pub fn device_name(&self) -> (r: &String)
        ensures
            r == &self.device_name,
    {
        &self.device_name
    }

    /// Returns the commands the device takes.
    pub fn device_messages(&self) -> (r: &DeviceMessageAttributes)
        ensures
            r == &self.device_messages,
    {
        &self.device_messages
    }
}

impl ButtplugMessage for DeviceAdded {
    open spec fn spec_id(&self) -> u32 {
        self.id
    }

    fn id(&self) -> (r: u32) {
        self.id
    }

    fn set_id(&mut self, id: u32)
        ensures
            *final(self) == (DeviceAdded { id, ..*old(self) }),
    {
        self.id = id;
    }
}

impl ButtplugDeviceMessage for DeviceAdded {
    open spec fn spec_device_index(&self) -> u32 {
        self.device_index
    }

    fn device_index(&self) -> (r: u32) {
        self.device_index
    }

    fn set_device_index(&mut self, device_index: u32)
        ensures
            *final(self) == (DeviceAdded { device_index, ..*old(self) }),
    {
        self.device_index = device_index;
    }
}

impl ButtplugMessageValidator for DeviceAdded {
    /// The server sends this message unasked, so only the reserved id is taken.
    open spec fn spec_is_valid(&self) -> Result<(), ButtplugMessageError> {
        spec_is_system_id(self.id)
    }

    fn is_valid(&self) -> (r: Result<(), ButtplugMessageError>) {
        is_system_id(self.id)
    }
}

} // verus!
