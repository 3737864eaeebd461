use crate::errors::ButtplugMessageError;
use crate::messages::{
    is_not_system_id, spec_is_not_system_id, ButtplugDeviceMessage, ButtplugMessage,
    ButtplugMessageValidator, SensorType,
};
use vstd::prelude::*;

verus! {

/// Asks for one reading of a sensor.
#[derive(Clone, Copy, Debug, PartialEq, Eq, Structural)]
pub struct SensorReadCmd {
    /// The id that ties a reply to its request.
    pub id: u32,
    /// The index of the device.
    pub device_index: u32,
    /// Which of the device's sensors.
    pub sensor_index: u32,
    /// What the sensor measures.
    pub sensor_type: SensorType,
}

impl SensorReadCmd {
    /// Creates the message under the id that every new message starts with.
    pub fn new(device_index: u32, sensor_index: u32, sensor_type: SensorType) -> (r: Self)
        ensures
            r == (SensorReadCmd { id: 1, device_index, sensor_index, sensor_type }),
    {
        SensorReadCmd { id: 1, device_index, sensor_index, sensor_type }
    }

    /// Returns which of the device's sensors.
    pub fn sensor_index(&self) -> (r: u32)
        ensures
            r == self.sensor_index,
    {
        self.sensor_index
    }

    /// Returns what the sensor measures.
    pub fn sensor_type(&self) -> (r: SensorType)
        ensures
            r == self.sensor_type,
    {
        self.sensor_type
    }
}

impl ButtplugMessage for SensorReadCmd {
    open spec fn spec_id(&self) -> u32 {
        self.id
    }

    fn id(&self) -> (r: u32) {
        self.id
    }

    fn set_id(&mut self, id: u32)
        ensures
            *final(self) == (SensorReadCmd { id, ..*old(self) }),
    {
        self.id = id;
    }
}

impl ButtplugDeviceMessage for SensorReadCmd {
    open spec fn spec_device_index(&self) -> u32 {
        self.device_index
    }

    fn device_index(&self) -> (r: u32) {
        self.device_index
    }

    fn set_device_index(&mut self, device_index: u32)
        ensures
            *final(self) == (SensorReadCmd { device_index, ..*old(self) }),
    {
        self.device_index = device_index;
    }
}

impl ButtplugMessageValidator for SensorReadCmd {
    /// A client sends this message, so the reserved id is refused.
    open spec fn spec_is_valid(&self) -> Result<(), ButtplugMessageError> {
        spec_is_not_system_id(self.id)
    }

    fn is_valid(&self) -> (r: Result<(), ButtplugMessageError>) {
        is_not_system_id(self.id)
    }
}

} // verus!
