use crate::errors::ButtplugMessageError;
use crate::messages::{ButtplugDeviceMessage, ButtplugMessage, ButtplugMessageValidator, SensorType};
use vstd::prelude::*;

verus! {

/// A reading of a sensor, asked for or subscribed to. As part of a subscription
/// it goes out under the reserved id.
#[derive(Clone, Debug, PartialEq, Eq)]
pub struct SensorReading {
    /// The id that ties a reply to its request.
    pub id: u32,
    /// The index of the device.
    pub device_index: u32,
    /// Which of the device's sensors.
    pub feature_index: u32,
    /// What the sensor measures.
    pub sensor_type: SensorType,
    /// The reading, each number as the bits of a double.
    pub data: Vec<u64>,
}

impl SensorReading {
    /// Creates the message under the id that every new message starts with.
    pub fn new(
        device_index: u32,
        feature_index: u32,
        sensor_type: SensorType,
        data: Vec<u64>,
    ) -> (r: Self)
        ensures
            r == (SensorReading { id: 1, device_index, feature_index, sensor_type, data }),
    {
        SensorReading { id: 1, device_index, feature_index, sensor_type, data }
    }

    /// Returns which of the device's sensors.
    pub fn feature_index(&self) -> (r: u32)
        ensures
            r == self.feature_index,
    {
        self.feature_index
    }

    /// Returns what the sensor measures.
    pub fn sensor_type(&self) -> (r: SensorType)
        ensures
            r == self.sensor_type,
    {
        self.sensor_type
    }

    /// Returns the reading, each number as the bits of a double.
    pub fn data(&self) -> (r: &Vec<u64>)
        ensures
            r == &self.data,
    {
        &self.data
    }
}

impl ButtplugMessage for SensorReading {
    open spec fn spec_id(&self) -> u32 {
        self.id
    }

    fn id(&self) -> (r: u32) {
        self.id
    }

    fn set_id(&mut self, id: u32)
        ensures
            *final(self) == (SensorReading { id, ..*old(self) }),
    {
        self.id = id;
    }
}

impl ButtplugDeviceMessage for SensorReading {
    open spec fn spec_device_index(&self) -> u32 {
        self.device_index
    }

    fn device_index(&self) -> (r: u32) {
        self.device_index
    }

    fn set_device_index(&mut self, device_index: u32)
        ensures
            *final(self) == (SensorReading { device_index, ..*old(self) }),
    {
        self.device_index = device_index;
    }
}

impl ButtplugMessageValidator for SensorReading {
    /// The server sends this message, in reply or unasked: any id is taken.
    open spec fn spec_is_valid(&self) -> Result<(), ButtplugMessageError> {
        Ok(())
    }

    fn is_valid(&self) -> (r: Result<(), ButtplugMessageError>) {
        Ok(())
    }
}

} // verus!
