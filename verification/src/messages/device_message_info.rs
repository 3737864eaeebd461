use crate::messages::DeviceMessageAttributes;
use vstd::prelude::*;

verus! {

/// One entry of the device list: a live device, its name and what it takes.
#[derive(Clone, Debug, PartialEq, Eq)]
pub struct DeviceMessageInfo {
    /// The index the device is addressed by.
    pub device_index: u32,
    /// The name the device is shown under.
    pub device_name: String,
    /// The commands the device takes.
    pub device_messages: DeviceMessageAttributes,
}

impl DeviceMessageInfo {
    /// Creates the entry.
    pub fn new(device_index: u32, device_name: &str, device_messages: DeviceMessageAttributes) -> (r:
        Self)
        ensures
            r.device_index == device_index,
            r.device_name@ == device_name@,
            r.device_messages == device_messages,
    {
        DeviceMessageInfo { device_index, device_name: device_name.to_owned(), device_messages }
    }

    /// Returns the index the device is addressed by.
    pub fn device_index(&self) -> (r: u32)
        ensures
            r == self.device_index,
    {
        self.device_index
    }

    /// Returns the name the device is shown under.
    pub fn device_name(&self) -> (r: &String)
        ensures
            r == &self.device_name,
    {
        &self.device_name
    }

    /// Returns the commands the device takes.
    pub fn device_messages(&self) -> (r: &DeviceMessageAttributes)
        ensures
            r == &self.device_messages,
    {
        &self.device_messages
    }
}

} // verus!
