use crate::errors::ButtplugMessageError;
use crate::messages::{
    is_not_system_id, spec_is_not_system_id, ButtplugDeviceMessage, ButtplugMessage,
    ButtplugMessageValidator,
};
use vstd::prelude::*;

verus! {

/// Spins a rotator at a speed in the vendor's own units. Deprecated.
#[derive(Clone, Copy, Debug, PartialEq, Eq, Structural)]
pub struct VorzeA10CycloneCmd {
    /// The id that ties a reply to its request.
    pub id: u32,
    /// The index of the device.
    pub device_index: u32,
    /// The speed.
    pub speed: u32,
    /// The direction.
    pub clockwise: bool,
}

impl VorzeA10CycloneCmd {
    /// Creates the message under the id that every new message starts with.
    pub fn new(device_index: u32, speed: u32, clockwise: bool) -> (r: Self)
        ensures
            r == (VorzeA10CycloneCmd { id: 1, device_index, speed, clockwise }),
    {
        VorzeA10CycloneCmd { id: 1, device_index, speed, clockwise }
    }

    /// Returns the speed.
    pub fn speed(&self) -> (r: u32)
        ensures
            r == self.speed,
    {
        self.speed
    }

    /// Returns the direction.
    pub fn clockwise(&self) -> (r: bool)
        ensures
            r == self.clockwise,
    {
        self.clockwise
    }
}

impl ButtplugMessage for VorzeA10CycloneCmd {
    open spec fn spec_id(&self) -> u32 {
        self.id
    }

    fn id(&self) -> (r: u32) {
        self.id
    }

    fn set_id(&mut self, id: u32)
        ensures
            *final(self) == (VorzeA10CycloneCmd { id, ..*old(self) }),
    {
        self.id = id;
    }
}

impl ButtplugDeviceMessage for VorzeA10CycloneCmd {
    open spec fn spec_device_index(&self) -> u32 {
        self.device_index
    }

    fn device_index(&self) -> (r: u32) {
        self.device_index
    }

    fn set_device_index(&mut self, device_index: u32)
        ensures
            *final(self) == (VorzeA10CycloneCmd { device_index, ..*old(self) }),
    {
        self.device_index = device_index;
    }
}

impl ButtplugMessageValidator for VorzeA10CycloneCmd {
    /// A client sends this message, so the reserved id is refused.
    open spec fn spec_is_valid(&self) -> Result<(), ButtplugMessageError> {
        spec_is_not_system_id(self.id)
    }

    fn is_valid(&self) -> (r: Result<(), ButtplugMessageError>) {
        is_not_system_id(self.id)
    }
}

} // verus!
