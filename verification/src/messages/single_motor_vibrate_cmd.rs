use crate::errors::ButtplugMessageError;
use crate::messages::{
    is_in_command_range, is_not_system_id, spec_is_in_command_range, spec_is_not_system_id,
    ButtplugDeviceMessage, ButtplugMessage, ButtplugMessageValidator,
};
use vstd::prelude::*;

verus! {

/// Sets every vibrator of a device to one speed. Deprecated with the first
/// revision of the wire format.
#[derive(Clone, Copy, Debug, PartialEq, Eq, Structural)]
pub struct SingleMotorVibrateCmd {
    /// The id that ties a reply to its request.
    pub id: u32,
    /// The index of the device.
    pub device_index: u32,
    /// The speed, as the bits of a double in the unit interval.
    pub speed: u64,
}

impl SingleMotorVibrateCmd {
    /// Creates the message under the id that every new message starts with.
    pub fn new(device_index: u32, speed: u64) -> (r: Self)
        ensures
            r == (SingleMotorVibrateCmd { id: 1, device_index, speed }),
    {
        SingleMotorVibrateCmd { id: 1, device_index, speed }
    }

    /// Returns the speed, as the bits of a double in the unit interval.
    pub fn speed(&self) -> (r: u64)
        ensures
            r == self.speed,
    {
        self.speed
    }
}

impl ButtplugMessage for SingleMotorVibrateCmd {
    open spec fn spec_id(&self) -> u32 {
        self.id
    }

    fn id(&self) -> (r: u32) {
        self.id
    }

    fn set_id(&mut self, id: u32)
        ensures
            *final(self) == (SingleMotorVibrateCmd { id, ..*old(self) }),
    {
        self.id = id;
    }
}

impl ButtplugDeviceMessage for SingleMotorVibrateCmd {
    open spec fn spec_device_index(&self) -> u32 {
        self.device_index
    }

    fn device_index(&self) -> (r: u32) {
        self.device_index
    }

    fn set_device_index(&mut self, device_index: u32)
        ensures
            *final(self) == (SingleMotorVibrateCmd { device_index, ..*old(self) }),
    {
        self.device_index = device_index;
    }
}

impl ButtplugMessageValidator for SingleMotorVibrateCmd {
    /// A client sends this message, so the reserved id is refused; the speed
    /// has to lie in the unit interval.
    open spec fn spec_is_valid(&self) -> Result<(), ButtplugMessageError> {
        if self.id == crate::messages::SYSTEM_ID {
            spec_is_not_system_id(self.id)
        } else {
            spec_is_in_command_range(0, self.speed)
        }
    }

    fn is_valid(&self) -> (r: Result<(), ButtplugMessageError>) {
        match is_not_system_id(self.id) {
            Err(e) => Err(e),
            Ok(()) => is_in_command_range(0, self.speed),
        }
    }
}

} // verus!
