use crate::errors::ButtplugMessageError;
use crate::messages::{
    is_not_system_id, spec_is_not_system_id, ButtplugDeviceMessage, ButtplugMessage,
    ButtplugMessageValidator,
};
use vstd::prelude::*;

verus! {

/// A vendor command as text. Deprecated, and never taken by any device.
#[derive(Clone, Debug, PartialEq, Eq)]
pub struct LovenseCmd {
    /// The id that ties a reply to its request.
    pub id: u32,
    /// The index of the device.
    pub device_index: u32,
    /// The command.
    pub command: String,
}

impl LovenseCmd {
    /// Creates the message under the id that every new message starts with.
    pub fn new(device_index: u32, command: String) -> (r: Self)
        ensures
            r == (LovenseCmd { id: 1, device_index, command }),
    {
        LovenseCmd { id: 1, device_index, command }
    }

    /// Returns the command.
    pub fn command(&self) -> (r: &String)
        ensures
            r == &self.command,
    {
        &self.command
    }
}

impl ButtplugMessage for LovenseCmd {
    open spec fn spec_id(&self) -> u32 {
        self.id
    }

    fn id(&self) -> (r: u32) {
        self.id
    }

    fn set_id(&mut self, id: u32)
        ensures
            *final(self) == (LovenseCmd { id, ..*old(self) }),
    {
        self.id = id;
    }
}

impl ButtplugDeviceMessage for LovenseCmd {
    open spec fn spec_device_index(&self) -> u32 {
        self.device_index
    }

    fn device_index(&self) -> (r: u32) {
        self.device_index
    }

    fn set_device_index(&mut self, device_index: u32)
        ensures
            *final(self) == (LovenseCmd { device_index, ..*old(self) }),
    {
        self.device_index = device_index;
    }
}

impl ButtplugMessageValidator for LovenseCmd {
    /// A client sends this message, so the reserved id is refused.
    open spec fn spec_is_valid(&self) -> Result<(), ButtplugMessageError> {
        spec_is_not_system_id(self.id)
    }

    fn is_valid(&self) -> (r: Result<(), ButtplugMessageError>) {
        is_not_system_id(self.id)
    }
}

} // verus!
