use crate::errors::ButtplugMessageError;
use crate::messages::{ButtplugMessage, ButtplugMessageValidator, DeviceMessageInfo};
use vstd::prelude::*;

verus! {

/// Answers a request for the device list with the devices that are live.
#[derive(Clone, Debug, PartialEq, Eq)]
pub struct DeviceList {
    /// The id that ties a reply to its request.
    pub id: u32,
    /// The live devices, in no particular order.
    pub devices: Vec<DeviceMessageInfo>,
}

impl DeviceList {
    /// Creates the message under the id that every new message starts with.
    pub fn new(devices: Vec<DeviceMessageInfo>) -> (r: Self)
        ensures
            r == (DeviceList { id: 1, devices }),
    {
        DeviceList { id: 1, devices }
    }

    /// Returns the live devices.
    pub fn devices(&self) -> (r: &Vec<DeviceMessageInfo>)
        ensures
            r == &self.devices,
    {
        &self.devices
    }
}

impl ButtplugMessage for DeviceList {
    open spec fn spec_id(&self) -> u32 {
        self.id
    }

    fn id(&self) -> (r: u32) {
        self.id
    }

    fn set_id(&mut self, id: u32)
        ensures
            *final(self) == (DeviceList { id, ..*old(self) }),
    {
        self.id = id;
    }
}

impl ButtplugMessageValidator for DeviceList {
    /// The server sends this message, in reply or unasked: any id is taken.
    open spec fn spec_is_valid(&self) -> Result<(), ButtplugMessageError> {
        Ok(())
    }

    fn is_valid(&self) -> (r: Result<(), ButtplugMessageError>) {
        Ok(())
    }
}

} // verus!
