use crate::errors::ButtplugMessageError;
use crate::messages::{
    is_not_system_id, spec_is_not_system_id, ButtplugDeviceMessage, ButtplugMessage,
    ButtplugMessageValidator,
};
use vstd::prelude::*;

verus! {

/// Moves a stroker to a position at a speed, both in the vendor's own units.
/// Deprecated.
#[derive(Clone, Copy, Debug, PartialEq, Eq, Structural)]
pub struct FleshlightLaunchFW12Cmd {
    /// The id that ties a reply to its request.
    pub id: u32,
    /// The index of the device.
    pub device_index: u32,
    /// The position to reach.
    pub position: u8,
    /// The speed to move at.
    pub speed: u8,
}

impl FleshlightLaunchFW12Cmd {
    /// Creates the message under the id that every new message starts with.
    pub fn new(device_index: u32, position: u8, speed: u8) -> (r: Self)
        ensures
            r == (FleshlightLaunchFW12Cmd { id: 1, device_index, position, speed }),
    {
        FleshlightLaunchFW12Cmd { id: 1, device_index, position, speed }
    }

    /// Returns the position to reach.
    pub fn position(&self) -> (r: u8)
        ensures
            r == self.position,
    {
        self.position
    }

    /// Returns the speed to move at.
    pub fn speed(&self) -> (r: u8)
        ensures
            r == self.speed,
    {
        self.speed
    }
}

impl ButtplugMessage for FleshlightLaunchFW12Cmd {
    open spec fn spec_id(&self) -> u32 {
        self.id
    }

    fn id(&self) -> (r: u32) {
        self.id
    }

    fn set_id(&mut self, id: u32)
        ensures
            *final(self) == (FleshlightLaunchFW12Cmd { id, ..*old(self) }),
    {
        self.id = id;
    }
}

impl ButtplugDeviceMessage for FleshlightLaunchFW12Cmd {
    open spec fn spec_device_index(&self) -> u32 {
        self.device_index
    }

    fn device_index(&self) -> (r: u32) {
        self.device_index
    }

    fn set_device_index(&mut self, device_index: u32)
        ensures
            *final(self) == (FleshlightLaunchFW12Cmd { device_index, ..*old(self) }),
    {
        self.device_index = device_index;
    }
}

impl ButtplugMessageValidator for FleshlightLaunchFW12Cmd {
    /// A client sends this message, so the reserved id is refused.
    open spec fn spec_is_valid(&self) -> Result<(), ButtplugMessageError> {
        spec_is_not_system_id(self.id)
    }

    fn is_valid(&self) -> (r: Result<(), ButtplugMessageError>) {
        is_not_system_id(self.id)
    }
}

} // verus!
