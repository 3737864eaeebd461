use crate::device::Endpoint;
use crate::messages::{ActuatorType, ButtplugDeviceMessageType, SensorType};
use vstd::prelude::*;

verus! {

/// What a device says of one feature that takes a level, a rotation or a move.
#[derive(Clone, Debug, PartialEq, Eq)]
pub struct GenericDeviceMessageAttributes {
    /// A text that tells the feature apart for people.
    pub feature_descriptor: String,
    /// What the feature does with a level.
    pub actuator_type: ActuatorType,
    /// How many distinct levels the feature has above zero.
    pub step_count: u32,
}

impl GenericDeviceMessageAttributes {
    /// Creates the description of a feature.
    pub fn new(feature_descriptor: &str, step_count: u32, actuator_type: ActuatorType) -> (r: Self)
        ensures
            r.feature_descriptor@ == feature_descriptor@,
            r.step_count == step_count,
            r.actuator_type == actuator_type,
    {
        GenericDeviceMessageAttributes {
            feature_descriptor: feature_descriptor.to_owned(),
            actuator_type,
            step_count,
        }
    }

    /// Copies the description.
    pub fn duplicate(&self) -> (r: Self)
        ensures
            r == *self,
    {
        GenericDeviceMessageAttributes {
            feature_descriptor: self.feature_descriptor.clone(),
            actuator_type: self.actuator_type,
            step_count: self.step_count,
        }
    }
}

/// What a device says of one sensor.
#[derive(Clone, Debug, PartialEq, Eq)]
pub struct SensorDeviceMessageAttributes {
    /// A text that tells the sensor apart for people.
    pub feature_descriptor: String,
    /// What the sensor measures.
    pub sensor_type: SensorType,
}

impl SensorDeviceMessageAttributes {
    /// Creates the description of a sensor.
    pub fn new(feature_descriptor: &str, sensor_type: SensorType) -> (r: Self)
        ensures
            r.feature_descriptor@ == feature_descriptor@,
            r.sensor_type == sensor_type,
    {
        SensorDeviceMessageAttributes {
            feature_descriptor: feature_descriptor.to_owned(),
            sensor_type,
        }
    }

    /// Copies the description.
    pub fn duplicate(&self) -> (r: Self)
        ensures
            r == *self,
    {
        SensorDeviceMessageAttributes {
            feature_descriptor: self.feature_descriptor.clone(),
            sensor_type: self.sensor_type,
        }
    }
}

/// Which commands a device takes, and what it says of the features behind
/// each. A command with no feature behind it is one the device does not take.
#[derive(Clone, Debug, PartialEq, Eq)]
pub struct DeviceMessageAttributes {
    /// The features that take a level.
    pub scalar_cmd: Vec<GenericDeviceMessageAttributes>,
    /// The features that spin.
    pub rotate_cmd: Vec<GenericDeviceMessageAttributes>,
    /// The features that move to a position.
    pub linear_cmd: Vec<GenericDeviceMessageAttributes>,
    /// The sensors that can be read.
    pub sensor_read_cmd: Vec<SensorDeviceMessageAttributes>,
    /// The sensors that can be subscribed to.
    pub sensor_subscribe_cmd: Vec<SensorDeviceMessageAttributes>,
    /// The endpoints open to raw commands; none unless raw commands are allowed.
    pub raw_endpoints: Option<Vec<Endpoint>>,
}

/// The contents of a device's attributes.
pub struct DeviceMessageAttributesView {
    pub scalar_cmd: Seq<GenericDeviceMessageAttributes>,
    pub rotate_cmd: Seq<GenericDeviceMessageAttributes>,
    pub linear_cmd: Seq<GenericDeviceMessageAttributes>,
    pub sensor_read_cmd: Seq<SensorDeviceMessageAttributes>,
    pub sensor_subscribe_cmd: Seq<SensorDeviceMessageAttributes>,
    pub raw_endpoints: Option<Seq<Endpoint>>,
}

impl View for DeviceMessageAttributes {
    type V = DeviceMessageAttributesView;

    open spec fn view(&self) -> DeviceMessageAttributesView {
        DeviceMessageAttributesView {
            scalar_cmd: self.scalar_cmd@,
            rotate_cmd: self.rotate_cmd@,
            linear_cmd: self.linear_cmd@,
            sensor_read_cmd: self.sensor_read_cmd@,
            sensor_subscribe_cmd: self.sensor_subscribe_cmd@,
            raw_endpoints: match self.raw_endpoints {
                Some(endpoints) => Some(endpoints@),
                None => None,
            },
        }
    }
}

impl DeviceMessageAttributesView {
    /// Whether a device with these attributes takes commands of this type.
    ///
    /// The stop command is taken by every device. The vibrate commands of the
    /// older wire versions need a feature that vibrates. The deprecated vendor
    /// commands have no feature that stands for them and are never taken.
    pub open spec fn supports(self, message_type: ButtplugDeviceMessageType) -> bool {
        match message_type {
            ButtplugDeviceMessageType::ScalarCmd => self.scalar_cmd.len() > 0,
            ButtplugDeviceMessageType::RotateCmd => self.rotate_cmd.len() > 0,
            ButtplugDeviceMessageType::LinearCmd => self.linear_cmd.len() > 0,
            ButtplugDeviceMessageType::StopDeviceCmd => true,
            ButtplugDeviceMessageType::SensorReadCmd => self.sensor_read_cmd.len() > 0,
            ButtplugDeviceMessageType::SensorSubscribeCmd => self.sensor_subscribe_cmd.len() > 0,
            ButtplugDeviceMessageType::SensorUnsubscribeCmd => self.sensor_subscribe_cmd.len() > 0,
            ButtplugDeviceMessageType::RawReadCmd => self.raw_endpoints is Some,
            ButtplugDeviceMessageType::RawWriteCmd => self.raw_endpoints is Some,
            ButtplugDeviceMessageType::RawSubscribeCmd => self.raw_endpoints is Some,
            ButtplugDeviceMessageType::RawUnsubscribeCmd => self.raw_endpoints is Some,
            ButtplugDeviceMessageType::VibrateCmd => vibrator_count(self.scalar_cmd, self.scalar_cmd.len() as int) > 0,
            ButtplugDeviceMessageType::SingleMotorVibrateCmd => vibrator_count(self.scalar_cmd, self.scalar_cmd.len() as int) > 0,
            ButtplugDeviceMessageType::FleshlightLaunchFW12Cmd => false,
            ButtplugDeviceMessageType::LovenseCmd => false,
            ButtplugDeviceMessageType::KiirooCmd => false,
            ButtplugDeviceMessageType::VorzeA10CycloneCmd => false,
        }
    }

    /// Whether no list is longer than a feature index can count.
    pub open spec fn well_formed(self) -> bool {
        &&& self.scalar_cmd.len() <= u32::MAX
        &&& self.rotate_cmd.len() <= u32::MAX
        &&& self.linear_cmd.len() <= u32::MAX
        &&& self.sensor_read_cmd.len() <= u32::MAX
        &&& self.sensor_subscribe_cmd.len() <= u32::MAX
    }
}

/// How many of the first `upto` features vibrate.
pub open spec fn vibrator_count(features: Seq<GenericDeviceMessageAttributes>, upto: int) -> nat
    decreases upto,
{
    if upto <= 0 || upto > features.len() {
        0
    } else if features[upto - 1].actuator_type == ActuatorType::Vibrate {
        vibrator_count(features, upto - 1) + 1
    } else {
        vibrator_count(features, upto - 1)
    }
}

/// The step counts of those of the first `upto` features that vibrate, in
/// the order of the features.
pub open spec fn vibrator_steps(features: Seq<GenericDeviceMessageAttributes>, upto: int) -> Seq<u32>
    decreases upto,
{
    if upto <= 0 || upto > features.len() {
        Seq::empty()
    } else if features[upto - 1].actuator_type == ActuatorType::Vibrate {
        vibrator_steps(features, upto - 1).push(features[upto - 1].step_count)
    } else {
        vibrator_steps(features, upto - 1)
    }
}

/// There are as many step counts of vibrators as there are vibrators, and no
/// more of either than there are features.
pub proof fn lemma_vibrator_count(features: Seq<GenericDeviceMessageAttributes>, upto: int)
    ensures
        vibrator_steps(features, upto).len() == vibrator_count(features, upto),
        vibrator_count(features, upto) <= features.len(),
        upto >= 0 ==> vibrator_count(features, upto) <= upto,
    decreases upto,
{
    if 0 < upto <= features.len() {
        lemma_vibrator_count(features, upto - 1);
    }
}

/// Copies a list of feature descriptions.
pub fn duplicate_features(features: &Vec<GenericDeviceMessageAttributes>) -> (r: Vec<
    GenericDeviceMessageAttributes,
>)
    ensures
        r@ == features@,
{
    let mut copy: Vec<GenericDeviceMessageAttributes> = Vec::new();
    let mut i: usize = 0;
    while i < features.len()
        invariant
            i <= features@.len(),
            copy@ == features@.take(i as int),
        decreases features@.len() - i,
    {
        copy.push(features[i].duplicate());
        i += 1;
    }
    assert(features@.take(i as int) == features@);
    copy
}

/// Copies a list of sensor descriptions.
pub fn duplicate_sensors(sensors: &Vec<SensorDeviceMessageAttributes>) -> (r: Vec<
    SensorDeviceMessageAttributes,
>)
    ensures
        r@ == sensors@,
{
    let mut copy: Vec<SensorDeviceMessageAttributes> = Vec::new();
    let mut i: usize = 0;
    while i < sensors.len()
        invariant
            i <= sensors@.len(),
            copy@ == sensors@.take(i as int),
        decreases sensors@.len() - i,
    {
        copy.push(sensors[i].duplicate());
        i += 1;
    }
    assert(sensors@.take(i as int) == sensors@);
    copy
}

/// Copies a list of endpoints.
pub fn duplicate_endpoints(endpoints: &Vec<Endpoint>) -> (r: Vec<Endpoint>)
    ensures
        r@ == endpoints@,
{
    let mut copy: Vec<Endpoint> = Vec::new();
    let mut i: usize = 0;
    while i < endpoints.len()
        invariant
            i <= endpoints@.len(),
            copy@ == endpoints@.take(i as int),
        decreases endpoints@.len() - i,
    {
        copy.push(endpoints[i]);
        i += 1;
    }
    assert(endpoints@.take(i as int) == endpoints@);
    copy
}

impl DeviceMessageAttributes {
    /// Creates the attributes of a device that takes nothing but the stop
    /// command.
    pub fn new() -> (r: Self)
        ensures
            r@.scalar_cmd.len() == 0,
            r@.rotate_cmd.len() == 0,
            r@.linear_cmd.len() == 0,
            r@.sensor_read_cmd.len() == 0,
            r@.sensor_subscribe_cmd.len() == 0,
            r@.raw_endpoints is None,
    {
        DeviceMessageAttributes {
            scalar_cmd: Vec::new(),
            rotate_cmd: Vec::new(),
            linear_cmd: Vec::new(),
            sensor_read_cmd: Vec::new(),
            sensor_subscribe_cmd: Vec::new(),
            raw_endpoints: None,
        }
    }

    /// Says whether no list is longer than a feature index can count.
    pub fn is_well_formed(&self) -> (r: bool)
        ensures
            r == self@.well_formed(),
    {
        let limit: usize = 0xFFFF_FFFF;
        self.scalar_cmd.len() <= limit && self.rotate_cmd.len() <= limit && self.linear_cmd.len()
            <= limit && self.sensor_read_cmd.len() <= limit && self.sensor_subscribe_cmd.len()
            <= limit
    }

    /// Copies the attributes.
    pub fn duplicate(&self) -> (r: Self)
        ensures
            r@ == self@,
    {
        let raw_endpoints = match &self.raw_endpoints {
            Some(endpoints) => Some(duplicate_endpoints(endpoints)),
            None => None,
        };
        DeviceMessageAttributes {
            scalar_cmd: duplicate_features(&self.scalar_cmd),
            rotate_cmd: duplicate_features(&self.rotate_cmd),
            linear_cmd: duplicate_features(&self.linear_cmd),
            sensor_read_cmd: duplicate_sensors(&self.sensor_read_cmd),
            sensor_subscribe_cmd: duplicate_sensors(&self.sensor_subscribe_cmd),
            raw_endpoints,
        }
    }

    /// Says whether a device with these attributes takes commands of this type.
    pub fn supports(&self, message_type: ButtplugDeviceMessageType) -> (r: bool)
        ensures
            r == self@.supports(message_type),
    {
        match message_type {
            ButtplugDeviceMessageType::ScalarCmd => self.scalar_cmd.len() > 0,
            ButtplugDeviceMessageType::RotateCmd => self.rotate_cmd.len() > 0,
            ButtplugDeviceMessageType::LinearCmd => self.linear_cmd.len() > 0,
            ButtplugDeviceMessageType::StopDeviceCmd => true,
            ButtplugDeviceMessageType::SensorReadCmd => self.sensor_read_cmd.len() > 0,
            ButtplugDeviceMessageType::SensorSubscribeCmd => self.sensor_subscribe_cmd.len() > 0,
            ButtplugDeviceMessageType::SensorUnsubscribeCmd => self.sensor_subscribe_cmd.len() > 0,
            ButtplugDeviceMessageType::RawReadCmd => self.raw_endpoints.is_some(),
            ButtplugDeviceMessageType::RawWriteCmd => self.raw_endpoints.is_some(),
            ButtplugDeviceMessageType::RawSubscribeCmd => self.raw_endpoints.is_some(),
            ButtplugDeviceMessageType::RawUnsubscribeCmd => self.raw_endpoints.is_some(),
            ButtplugDeviceMessageType::VibrateCmd => self.vibrator_steps().len() > 0,
            ButtplugDeviceMessageType::SingleMotorVibrateCmd => self.vibrator_steps().len() > 0,
            ButtplugDeviceMessageType::FleshlightLaunchFW12Cmd => false,
            ButtplugDeviceMessageType::LovenseCmd => false,
            ButtplugDeviceMessageType::KiirooCmd => false,
            ButtplugDeviceMessageType::VorzeA10CycloneCmd => false,
        }
    }

    /// Returns the step counts of the features that vibrate, in the order of
    /// the features. Its length is the number of vibrators.
    pub fn vibrator_steps(&self) -> (r: Vec<u32>)
        ensures
            r@ == vibrator_steps(self@.scalar_cmd, self@.scalar_cmd.len() as int),
            r@.len() == vibrator_count(self@.scalar_cmd, self@.scalar_cmd.len() as int),
    {
        let mut steps: Vec<u32> = Vec::new();
        let mut i: usize = 0;
        while i < self.scalar_cmd.len()
            invariant
                i <= self.scalar_cmd@.len(),
                steps@ == vibrator_steps(self.scalar_cmd@, i as int),
            decreases self.scalar_cmd@.len() - i,
        {
            if self.scalar_cmd[i].actuator_type == ActuatorType::Vibrate {
                steps.push(self.scalar_cmd[i].step_count);
            }
            i += 1;
        }
        proof {
            lemma_vibrator_count(self.scalar_cmd@, self.scalar_cmd@.len() as int);
        }
        steps
    }
}

} // verus!
