//! What a device does with a command, up to the vendor's own encoding: the
//! command is checked against what the device says of itself and comes out
//! as a list of things to tell single features. For levels the device
//! remembers what each feature was last told and tells it nothing twice.

use crate::device::{
    ButtplugDeviceCommand, DeviceImpl, DeviceImplCommand, DeviceReadCmd, DeviceSubscribeCmd,
    DeviceUnsubscribeCmd, DeviceWriteCmd, ProtocolAttributesIdentifier,
};
use crate::errors::{ButtplugDeviceError, ButtplugError, ButtplugMessageError};
use crate::messages::{
    ActuatorType, ButtplugDeviceCommandMessageUnion, ButtplugDeviceMessageType,
    DeviceMessageAttributes, GenericDeviceMessageAttributes, LinearCmd, RotateCmd, ScalarCmd,
    ScalarSubcommand, SensorType, SCALAR_NEGATIVE_ZERO,
};
use vstd::prelude::*;

verus! {

/// One thing to tell a device. The first six speak of a feature and leave
/// the bytes to the vendor's encoding; the last goes to the hardware as it is.
#[derive(Clone, Debug, PartialEq, Eq)]
pub enum ProtocolCommand {
    /// Set the feature to the level.
    Scalar { index: u32, actuator_type: ActuatorType, scalar: u64 },
    /// Spin the rotator.
    Rotate { index: u32, speed: u64, clockwise: bool },
    /// Move the linear feature.
    Linear { index: u32, duration: u32, position: u64 },
    /// Read the sensor once.
    SensorRead { index: u32, sensor_type: SensorType },
    /// Send the sensor's readings as they come.
    SensorSubscribe { index: u32, sensor_type: SensorType },
    /// Stop sending the sensor's readings.
    SensorUnsubscribe { index: u32, sensor_type: SensorType },
    /// A command for the hardware itself.
    Hardware(ButtplugDeviceCommand),
}

/// What a protocol knows of one model of device.
#[derive(Clone, Debug, PartialEq, Eq)]
pub struct ProtocolDeviceAttributes {
    /// The name of the model.
    pub name: String,
    /// A name a user gave to devices of this model.
    pub display_name: Option<String>,
    /// The commands the model takes.
    pub message_attributes: DeviceMessageAttributes,
}

impl ProtocolDeviceAttributes {
    /// Creates the record of a model.
    pub fn new(name: &str, display_name: Option<String>, message_attributes: DeviceMessageAttributes) -> (r:
        Self)
        ensures
            r.name@ == name@,
            r.display_name == display_name,
            r.message_attributes == message_attributes,
    {
        ProtocolDeviceAttributes { name: name.to_owned(), display_name, message_attributes }
    }

    /// Copies the record.
    pub fn duplicate(&self) -> (r: Self)
        ensures
            r.name == self.name,
            r.display_name == self.display_name,
            r.message_attributes@ == self.message_attributes@,
    {
        let display_name = match &self.display_name {
            Some(name) => Some(name.clone()),
            None => None,
        };
        ProtocolDeviceAttributes {
            name: self.name.clone(),
            display_name,
            message_attributes: self.message_attributes.duplicate(),
        }
    }
}

/// The level as it is remembered and compared: negative zero counts as zero.
pub open spec fn canonical_level(level: u64) -> u64 {
    if level == SCALAR_NEGATIVE_ZERO {
        0
    } else {
        level
    }
}

/// What the index check yields for the subcommands from position `from` on:
/// the first one that names a feature the device does not have is reported.
pub open spec fn spec_indices_valid(levels: Seq<(u32, u64)>, feature_count: u32, from: int) -> Result<
    (),
    ButtplugDeviceError,
>
    decreases levels.len() - from,
{
    if from < 0 || from >= levels.len() {
        Ok(())
    } else if levels[from].0 >= feature_count {
        Err(ButtplugDeviceError::DeviceFeatureIndexError { feature_count, index: levels[from].0 })
    } else {
        spec_indices_valid(levels, feature_count, from + 1)
    }
}

/// The index check passes exactly when every subcommand names a feature
/// below the feature count.
pub proof fn lemma_indices_valid(levels: Seq<(u32, u64)>, feature_count: u32, from: int)
    requires
        0 <= from,
    ensures
        spec_indices_valid(levels, feature_count, from) is Ok <==> forall|i: int|
            from <= i < levels.len() ==> (#[trigger] levels[i]).0 < feature_count,
    decreases levels.len() - from,
{
    if from < levels.len() {
        lemma_indices_valid(levels, feature_count, from + 1);
    }
}

/// The level that the first `upto` subcommands ask of a feature: that of the
/// last among them that names the feature, if any does.
pub open spec fn desired_level(scalars: Seq<ScalarSubcommand>, upto: int, feature: int) -> Option<u64>
    decreases upto,
{
    if upto <= 0 || upto > scalars.len() {
        None
    } else if scalars[upto - 1].index == feature {
        Some(canonical_level(scalars[upto - 1].scalar))
    } else {
        desired_level(scalars, upto - 1, feature)
    }
}

/// The levels that a scalar command asks of the features of a device with
/// `feature_count` of them.
pub open spec fn desired_levels(scalars: Seq<ScalarSubcommand>, feature_count: nat) -> Seq<Option<u64>> {
    Seq::new(feature_count, |f: int| desired_level(scalars, scalars.len() as int, f))
}

/// The levels that stopping asks of the features: zero for each.
pub open spec fn stopped_levels(feature_count: nat) -> Seq<Option<u64>> {
    Seq::new(feature_count, |f: int| Some(0u64))
}

/// Whether a feature has to be told its level: a level is asked of it and is
/// not the one it was last told.
pub open spec fn needs_write(last: Seq<Option<u64>>, desired: Seq<Option<u64>>, feature: int) -> bool {
    desired[feature] is Some && last[feature] != desired[feature]
}

/// What the features were last told once the asked levels are sent.
pub open spec fn levels_after(last: Seq<Option<u64>>, desired: Seq<Option<u64>>) -> Seq<Option<u64>> {
    Seq::new(
        last.len(),
        |f: int|
            if desired[f] is Some {
                desired[f]
            } else {
                last[f]
            },
    )
}

/// The commands that go out for the first `upto` features: one for each
/// feature that has to be told its level, in the order of the features.
pub open spec fn scalar_commands(
    last: Seq<Option<u64>>,
    desired: Seq<Option<u64>>,
    features: Seq<GenericDeviceMessageAttributes>,
    upto: int,
) -> Seq<ProtocolCommand>
    decreases upto,
{
    if upto <= 0 || upto > features.len() {
        Seq::empty()
    } else if needs_write(last, desired, upto - 1) {
        scalar_commands(last, desired, features, upto - 1).push(
            ProtocolCommand::Scalar {
                index: (upto - 1) as u32,
                actuator_type: features[upto - 1].actuator_type,
                scalar: desired[upto - 1]->0,
            },
        )
    } else {
        scalar_commands(last, desired, features, upto - 1)
    }
}

/// How many of the first `upto` features have to be told their level.
pub open spec fn write_count(last: Seq<Option<u64>>, desired: Seq<Option<u64>>, upto: int) -> nat
    decreases upto,
{
    if upto <= 0 {
        0
    } else if needs_write(last, desired, upto - 1) {
        write_count(last, desired, upto - 1) + 1
    } else {
        write_count(last, desired, upto - 1)
    }
}

/// The commands for the rotators of a rotate command, one for each
/// subcommand in the order given.
pub open spec fn rotate_commands(cmd: RotateCmd) -> Seq<ProtocolCommand> {
    Seq::new(
        cmd.rotations@.len(),
        |i: int|
            ProtocolCommand::Rotate {
                index: cmd.rotations@[i].index,
                speed: cmd.rotations@[i].speed,
                clockwise: cmd.rotations@[i].clockwise,
            },
    )
}

/// The commands for the moves of a linear command, one for each subcommand
/// in the order given.
pub open spec fn linear_commands(cmd: LinearCmd) -> Seq<ProtocolCommand> {
    Seq::new(
        cmd.vectors@.len(),
        |i: int|
            ProtocolCommand::Linear {
                index: cmd.vectors@[i].index,
                duration: cmd.vectors@[i].duration,
                position: cmd.vectors@[i].position,
            },
    )
}

/// The commands that bring `rotator_count` rotators to a halt.
pub open spec fn rotators_stopped(rotator_count: nat) -> Seq<ProtocolCommand> {
    Seq::new(
        rotator_count,
        |i: int| ProtocolCommand::Rotate { index: i as u32, speed: 0, clockwise: false },
    )
}

/// The state of one device's protocol: which protocol and model it is, what
/// the model takes, and the level each feature was last told.
#[derive(Clone, Debug, PartialEq, Eq)]
pub struct ButtplugProtocol {
    /// The name of the protocol.
    pub protocol_identifier: String,
    /// The model within the protocol.
    pub protocol_attributes_identifier: ProtocolAttributesIdentifier,
    /// What the model takes.
    pub device_attributes: ProtocolDeviceAttributes,
    /// The level each feature was last told; none for a feature that has not
    /// been told any.
    pub last_scalars: Vec<Option<u64>>,
}

/// What handling a command comes to.
pub type ProtocolResult = Result<Vec<ProtocolCommand>, ButtplugError>;

/// Whether handling came to what was to be expected: the same refusal, or
/// commands with the expected contents.
pub open spec fn result_is(r: ProtocolResult, expected: Result<Seq<ProtocolCommand>, ButtplugError>) -> bool {
    match (r, expected) {
        (Ok(commands), Ok(contents)) => commands@ == contents,
        (Err(e), Err(refusal)) => e == refusal,
        _ => false,
    }
}

impl ButtplugProtocol {
    /// Whether there is one remembered level for each feature that takes
    /// one, and no more features of a kind than an index can count.
    pub open spec fn well_formed(&self) -> bool {
        &&& self.device_attributes.message_attributes@.well_formed()
        &&& self.last_scalars@.len() == self.device_attributes.message_attributes@.scalar_cmd.len()
    }

    /// Says whether the state is in order.
    pub fn is_well_formed(&self) -> (r: bool)
        ensures
            r == self.well_formed(),
    {
        self.device_attributes.message_attributes.is_well_formed() && self.last_scalars.len()
            == self.device_attributes.message_attributes.scalar_cmd.len()
    }

    /// The features that take a level.
    pub open spec fn scalar_features(&self) -> Seq<GenericDeviceMessageAttributes> {
        self.device_attributes.message_attributes@.scalar_cmd
    }

    /// Creates the state of a device that has been told nothing yet.
    pub fn new(
        protocol_identifier: &str,
        protocol_attributes_identifier: ProtocolAttributesIdentifier,
        device_attributes: ProtocolDeviceAttributes,
    ) -> (r: Self)
        requires
            device_attributes.message_attributes@.well_formed(),
        ensures
            r.well_formed(),
            r.protocol_identifier@ == protocol_identifier@,
            r.protocol_attributes_identifier == protocol_attributes_identifier,
            r.device_attributes == device_attributes,
            forall|f: int| 0 <= f < r.last_scalars@.len() ==> r.last_scalars@[f] is None,
    {
        let mut last_scalars: Vec<Option<u64>> = Vec::new();
        let mut i: usize = 0;
        while i < device_attributes.message_attributes.scalar_cmd.len()
            invariant
                i <= device_attributes.message_attributes.scalar_cmd@.len(),
                last_scalars@.len() == i,
                forall|f: int| 0 <= f < i ==> last_scalars@[f] is None,
            decreases device_attributes.message_attributes.scalar_cmd@.len() - i,
        {
            last_scalars.push(None);
            i += 1;
        }
        ButtplugProtocol {
            protocol_identifier: protocol_identifier.to_owned(),
            protocol_attributes_identifier,
            device_attributes,
            last_scalars,
        }
    }

    /// Returns the name of the model.
    pub fn name(&self) -> (r: &str)
        ensures
            r@ == self.device_attributes.name@,
    {
        self.device_attributes.name.as_str()
    }

    /// Returns the name of the protocol.
    pub fn protocol_identifier(&self) -> (r: &str)
        ensures
            r@ == self.protocol_identifier@,
    {
        self.protocol_identifier.as_str()
    }

    /// Returns the model within the protocol.
    pub fn protocol_attributes_identifier(&self) -> (r: &ProtocolAttributesIdentifier)
        ensures
            r == &self.protocol_attributes_identifier,
    {
        &self.protocol_attributes_identifier
    }

    /// Returns what the model takes.
    pub fn device_attributes(&self) -> (r: &ProtocolDeviceAttributes)
        ensures
            r == &self.device_attributes,
    {
        &self.device_attributes
    }

    /// Whether the device takes commands of this type, and the refusal if
    /// it does not.
    pub open spec fn spec_supports_message(&self, message_type: ButtplugDeviceMessageType) -> Result<
        (),
        ButtplugError,
    > {
        if self.device_attributes.message_attributes@.supports(message_type) {
            Ok(())
        } else {
            Err(
                ButtplugError::ButtplugMessageError(
                    ButtplugMessageError::DeviceNotSupportedMessageType(message_type),
                ),
            )
        }
    }

    /// Says whether the device takes commands of this type.
    pub fn supports_message(&self, message_type: ButtplugDeviceMessageType) -> (r: Result<
        (),
        ButtplugError,
    >)
        ensures
            r == self.spec_supports_message(message_type),
    {
        if self.device_attributes.message_attributes.supports(message_type) {
            Ok(())
        } else {
            Err(
                ButtplugError::ButtplugMessageError(
                    ButtplugMessageError::DeviceNotSupportedMessageType(message_type),
                ),
            )
        }
    }

    /// Sends the asked levels to the features that were not last told the
    /// same, and remembers them.
    #[verifier::loop_isolation(false)]
    fn send_levels(&mut self, desired: &Vec<Option<u64>>) -> (r: Vec<ProtocolCommand>)
        requires
            old(self).well_formed(),
            desired@.len() == old(self).last_scalars@.len(),
        ensures
            final(self).well_formed(),
            final(self).protocol_identifier == old(self).protocol_identifier,
            final(self).protocol_attributes_identifier == old(self).protocol_attributes_identifier,
            final(self).device_attributes == old(self).device_attributes,
            final(self).last_scalars@ == levels_after(old(self).last_scalars@, desired@),
            r@ == scalar_commands(
                old(self).last_scalars@,
                desired@,
                old(self).scalar_features(),
                desired@.len() as int,
            ),
    {
        let mut commands: Vec<ProtocolCommand> = Vec::new();
        let count = self.last_scalars.len();
        let mut f: usize = 0;
        while f < count
            invariant
                f <= count,
                count == desired@.len(),
                count == self.last_scalars@.len(),
                count == self.scalar_features().len(),
                count <= u32::MAX,
                self.well_formed(),
                self.protocol_identifier == old(self).protocol_identifier,
                self.protocol_attributes_identifier == old(self).protocol_attributes_identifier,
                self.device_attributes == old(self).device_attributes,
                forall|g: int|
                    0 <= g < f ==> self.last_scalars@[g] == levels_after(
                        old(self).last_scalars@,
                        desired@,
                    )[g],
                forall|g: int| f <= g < count ==> self.last_scalars@[g] == old(self).last_scalars@[g],
                commands@ == scalar_commands(
                    old(self).last_scalars@,
                    desired@,
                    old(self).scalar_features(),
                    f as int,
                ),
            decreases count - f,
        {
            match desired[f] {
                Some(level) => {
                    let told = match self.last_scalars[f] {
                        Some(last) => last == level,
                        None => false,
                    };
                    if !told {
                        commands.push(
                            ProtocolCommand::Scalar {
                                index: f as u32,
                                actuator_type: self.device_attributes.message_attributes.scalar_cmd[f].actuator_type,
                                scalar: level,
                            },
                        );
                        self.last_scalars[f] = Some(level);
                    }
                },
                None => {},
            }
            f += 1;
        }
        assert(self.last_scalars@ =~= levels_after(old(self).last_scalars@, desired@));
        commands
    }

    /// What a scalar command comes to on a device in this state: a refusal,
    /// or the commands that go out.
    pub open spec fn spec_scalar_result(&self, cmd: ScalarCmd) -> Result<Seq<ProtocolCommand>, ButtplugError> {
        if self.spec_supports_message(ButtplugDeviceMessageType::ScalarCmd) is Err {
            Err(self.spec_supports_message(ButtplugDeviceMessageType::ScalarCmd)->Err_0)
        } else {
            match spec_indices_valid(cmd.spec_levels(), self.scalar_features().len() as u32, 0) {
                Err(e) => Err(ButtplugError::ButtplugDeviceError(e)),
                Ok(()) => Ok(
                    scalar_commands(
                        self.last_scalars@,
                        desired_levels(cmd.scalars@, self.last_scalars@.len()),
                        self.scalar_features(),
                        self.last_scalars@.len() as int,
                    ),
                ),
            }
        }
    }

    /// Handles a scalar command: every subcommand has to name a feature the
    /// device has; of several subcommands for one feature the last counts;
    /// a feature is told its level only if that is not what it was last told.
    #[verifier::loop_isolation(false)]
    pub fn handle_scalar_cmd(&mut self, cmd: &ScalarCmd) -> (r: ProtocolResult)
        requires
            old(self).well_formed(),
        ensures
            final(self).well_formed(),
            final(self).protocol_identifier == old(self).protocol_identifier,
            final(self).protocol_attributes_identifier == old(self).protocol_attributes_identifier,
            final(self).device_attributes == old(self).device_attributes,
            result_is(r, old(self).spec_scalar_result(*cmd)),
            r matches Ok(_) ==> final(self).last_scalars@ == levels_after(
                old(self).last_scalars@,
                desired_levels(cmd.scalars@, old(self).last_scalars@.len()),
            ),
            r is Err ==> final(self).last_scalars@ == old(self).last_scalars@,
    {
        if let Err(e) = self.supports_message(ButtplugDeviceMessageType::ScalarCmd) {
            return Err(e);
        }
        let count = self.last_scalars.len();
        let mut desired: Vec<Option<u64>> = Vec::new();
        let mut f: usize = 0;
        while f < count
            invariant
                f <= count,
                desired@.len() == f,
                forall|g: int| 0 <= g < f ==> desired@[g] is None,
            decreases count - f,
        {
            desired.push(None);
            f += 1;
        }
        let mut i: usize = 0;
        while i < cmd.scalars.len()
            invariant
                i <= cmd.scalars@.len(),
                count == self.last_scalars@.len(),
                count <= u32::MAX,
                desired@.len() == count,
                *self == *old(self),
                spec_indices_valid(cmd.spec_levels(), count as u32, 0) == spec_indices_valid(
                    cmd.spec_levels(),
                    count as u32,
                    i as int,
                ),
                forall|g: int| 0 <= g < count ==> desired@[g] == desired_level(cmd.scalars@, i as int, g),
            decreases cmd.scalars@.len() - i,
        {
            let subcommand = &cmd.scalars[i];
            let index = subcommand.index;
            if index as usize >= count {
                return Err(
                    ButtplugError::ButtplugDeviceError(
                        ButtplugDeviceError::DeviceFeatureIndexError {
                            feature_count: count as u32,
                            index,
                        },
                    ),
                );
            }
            let level = if subcommand.scalar == SCALAR_NEGATIVE_ZERO {
                0
            } else {
                subcommand.scalar
            };
            desired[index as usize] = Some(level);
            i += 1;
        }
        assert(desired@ =~= desired_levels(cmd.scalars@, count as nat));
        Ok(self.send_levels(&desired))
    }

    /// Handles the stop command: every feature that takes a level is asked
    /// for zero, which goes out where it is not what the feature was last
    /// told, and every rotator is told to halt.
    #[verifier::loop_isolation(false)]
    pub fn handle_stop_device_cmd(&mut self) -> (r: Vec<ProtocolCommand>)
        requires
            old(self).well_formed(),
        ensures
            final(self).well_formed(),
            final(self).protocol_identifier == old(self).protocol_identifier,
            final(self).protocol_attributes_identifier == old(self).protocol_attributes_identifier,
            final(self).device_attributes == old(self).device_attributes,
            final(self).last_scalars@ == levels_after(
                old(self).last_scalars@,
                stopped_levels(old(self).last_scalars@.len()),
            ),
            r@ == scalar_commands(
                old(self).last_scalars@,
                stopped_levels(old(self).last_scalars@.len()),
                old(self).scalar_features(),
                old(self).last_scalars@.len() as int,
            ) + rotators_stopped(old(self).device_attributes.message_attributes@.rotate_cmd.len()),
    {
        let count = self.last_scalars.len();
        let mut desired: Vec<Option<u64>> = Vec::new();
        let mut f: usize = 0;
        while f < count
            invariant
                f <= count,
                desired@.len() == f,
                forall|g: int| 0 <= g < f ==> desired@[g] == Some(0u64),
            decreases count - f,
        {
            desired.push(Some(0));
            f += 1;
        }
        assert(desired@ =~= stopped_levels(count as nat));
        let mut commands = self.send_levels(&desired);
        let ghost levels = commands@;
        let rotators = self.device_attributes.message_attributes.rotate_cmd.len();
        let mut k: usize = 0;
        while k < rotators
            invariant
                k <= rotators,
                rotators <= u32::MAX,
                commands@ == levels + rotators_stopped(k as nat),
            decreases rotators - k,
        {
            commands.push(ProtocolCommand::Rotate { index: k as u32, speed: 0, clockwise: false });
            assert(commands@ =~= levels + rotators_stopped((k + 1) as nat));
            k += 1;
        }
        commands
    }

    /// What a rotate command comes to on this device.
    pub open spec fn spec_rotate_result(&self, cmd: RotateCmd) -> Result<Seq<ProtocolCommand>, ButtplugError> {
        if self.spec_supports_message(ButtplugDeviceMessageType::RotateCmd) is Err {
            Err(self.spec_supports_message(ButtplugDeviceMessageType::RotateCmd)->Err_0)
        } else {
            match spec_indices_valid(
                cmd.spec_levels(),
                self.device_attributes.message_attributes@.rotate_cmd.len() as u32,
                0,
            ) {
                Err(e) => Err(ButtplugError::ButtplugDeviceError(e)),
                Ok(()) => Ok(rotate_commands(cmd)),
            }
        }
    }

    /// Handles a rotate command: every subcommand has to name a rotator the
    /// device has, and each goes out as it stands.
    #[verifier::loop_isolation(false)]
    pub fn handle_rotate_cmd(&self, cmd: &RotateCmd) -> (r: ProtocolResult)
        requires
            self.well_formed(),
        ensures
            result_is(r, self.spec_rotate_result(*cmd)),
            
    {
        if let Err(e) = self.supports_message(ButtplugDeviceMessageType::RotateCmd) {
            return Err(e);
        }
        let count = self.device_attributes.message_attributes.rotate_cmd.len();
        let mut commands: Vec<ProtocolCommand> = Vec::new();
        let mut i: usize = 0;
        while i < cmd.rotations.len()
            invariant
                i <= cmd.rotations@.len(),
                count <= u32::MAX,
                spec_indices_valid(cmd.spec_levels(), count as u32, 0) == spec_indices_valid(
                    cmd.spec_levels(),
                    count as u32,
                    i as int,
                ),
                commands@ == rotate_commands(*cmd).take(i as int),
            decreases cmd.rotations@.len() - i,
        {
            let subcommand = &cmd.rotations[i];
            if subcommand.index as usize >= count {
                return Err(
                    ButtplugError::ButtplugDeviceError(
                        ButtplugDeviceError::DeviceFeatureIndexError {
                            feature_count: count as u32,
                            index: subcommand.index,
                        },
                    ),
                );
            }
            commands.push(
                ProtocolCommand::Rotate {
                    index: subcommand.index,
                    speed: subcommand.speed,
                    clockwise: subcommand.clockwise,
                },
            );
            assert(commands@ =~= rotate_commands(*cmd).take(i + 1));
            i += 1;
        }
        assert(rotate_commands(*cmd).take(i as int) =~= rotate_commands(*cmd));
        Ok(commands)
    }

    /// What a linear command comes to on this device.
    pub open spec fn spec_linear_result(&self, cmd: LinearCmd) -> Result<Seq<ProtocolCommand>, ButtplugError> {
        if self.spec_supports_message(ButtplugDeviceMessageType::LinearCmd) is Err {
            Err(self.spec_supports_message(ButtplugDeviceMessageType::LinearCmd)->Err_0)
        } else {
            match spec_indices_valid(
                cmd.spec_levels(),
                self.device_attributes.message_attributes@.linear_cmd.len() as u32,
                0,
            ) {
                Err(e) => Err(ButtplugError::ButtplugDeviceError(e)),
                Ok(()) => Ok(linear_commands(cmd)),
            }
        }
    }

    /// Handles a linear command: every subcommand has to name a linear
    /// feature the device has, and each goes out as it stands.
    #[verifier::loop_isolation(false)]
    pub fn handle_linear_cmd(&self, cmd: &LinearCmd) -> (r: ProtocolResult)
        requires
            self.well_formed(),
        ensures
            result_is(r, self.spec_linear_result(*cmd)),
            
    {
        if let Err(e) = self.supports_message(ButtplugDeviceMessageType::LinearCmd) {
            return Err(e);
        }
        let count = self.device_attributes.message_attributes.linear_cmd.len();
        let mut commands: Vec<ProtocolCommand> = Vec::new();
        let mut i: usize = 0;
        while i < cmd.vectors.len()
            invariant
                i <= cmd.vectors@.len(),
                count <= u32::MAX,
                spec_indices_valid(cmd.spec_levels(), count as u32, 0) == spec_indices_valid(
                    cmd.spec_levels(),
                    count as u32,
                    i as int,
                ),
                commands@ == linear_commands(*cmd).take(i as int),
            decreases cmd.vectors@.len() - i,
        {
            let subcommand = &cmd.vectors[i];
            if subcommand.index as usize >= count {
                return Err(
                    ButtplugError::ButtplugDeviceError(
                        ButtplugDeviceError::DeviceFeatureIndexError {
                            feature_count: count as u32,
                            index: subcommand.index,
                        },
                    ),
                );
            }
            commands.push(
                ProtocolCommand::Linear {
                    index: subcommand.index,
                    duration: subcommand.duration,
                    position: subcommand.position,
                },
            );
            assert(commands@ =~= linear_commands(*cmd).take(i + 1));
            i += 1;
        }
        assert(linear_commands(*cmd).take(i as int) =~= linear_commands(*cmd));
        Ok(commands)
    }

    /// What a command for one sensor comes to: the command must be one the
    /// device takes, and the sensor one it has.
    pub open spec fn spec_sensor_result(
        &self,
        message_type: ButtplugDeviceMessageType,
        sensor_count: nat,
        index: u32,
        command: ProtocolCommand,
    ) -> Result<Seq<ProtocolCommand>, ButtplugError> {
        if self.spec_supports_message(message_type) is Err {
            Err(self.spec_supports_message(message_type)->Err_0)
        } else if index >= sensor_count {
            Err(
                ButtplugError::ButtplugDeviceError(
                    ButtplugDeviceError::DeviceFeatureIndexError {
                        feature_count: sensor_count as u32,
                        index,
                    },
                ),
            )
        } else {
            Ok(seq![command])
        }
    }

    /// Handles a command for one sensor.
    fn handle_sensor_cmd(
        &self,
        message_type: ButtplugDeviceMessageType,
        sensor_count: usize,
        index: u32,
        command: ProtocolCommand,
    ) -> (r: ProtocolResult)
        requires
            sensor_count <= u32::MAX,
        ensures
            result_is(r, self.spec_sensor_result(message_type, sensor_count as nat, index, command)),
    {
        if let Err(e) = self.supports_message(message_type) {
            return Err(e);
        }
        if index as usize >= sensor_count {
            return Err(
                ButtplugError::ButtplugDeviceError(
                    ButtplugDeviceError::DeviceFeatureIndexError {
                        feature_count: sensor_count as u32,
                        index,
                    },
                ),
            );
        }
        let mut commands: Vec<ProtocolCommand> = Vec::new();
        commands.push(command);
        assert(commands@ =~= seq![command]);
        Ok(commands)
    }

    /// What a raw command comes to: it must be one the device takes, which
    /// it is only where raw commands were allowed, and the hardware must be
    /// there and have the endpoint.
    pub open spec fn spec_raw_result(
        &self,
        hardware: &DeviceImpl,
        message_type: ButtplugDeviceMessageType,
        command: DeviceImplCommand,
    ) -> Result<Seq<ProtocolCommand>, ButtplugError> {
        if self.spec_supports_message(message_type) is Err {
            Err(self.spec_supports_message(message_type)->Err_0)
        } else {
            match hardware.spec_submit(command) {
                Err(e) => Err(ButtplugError::ButtplugDeviceError(e)),
                Ok(c) => Ok(seq![ProtocolCommand::Hardware(c)]),
            }
        }
    }

    /// Handles a raw command.
    fn handle_raw_cmd(
        &self,
        hardware: &DeviceImpl,
        message_type: ButtplugDeviceMessageType,
        command: DeviceImplCommand,
    ) -> (r: ProtocolResult)
        ensures
            result_is(r, self.spec_raw_result(hardware, message_type, command)),
            
    {
        if let Err(e) = self.supports_message(message_type) {
            return Err(e);
        }
        match hardware.submit(command) {
            Err(e) => Err(ButtplugError::ButtplugDeviceError(e)),
            Ok(c) => {
                let mut commands: Vec<ProtocolCommand> = Vec::new();
                commands.push(ProtocolCommand::Hardware(c));
                assert(commands@ =~= seq![ProtocolCommand::Hardware(c)]);
                Ok(commands)
            },
        }
    }
}

impl ButtplugProtocol {
    /// What a command comes to on a device in this state with this hardware:
    /// the refusal, or the commands that go out, in their order.
    pub open spec fn spec_handle_command(
        &self,
        hardware: &DeviceImpl,
        message: ButtplugDeviceCommandMessageUnion,
    ) -> Result<Seq<ProtocolCommand>, ButtplugError> {
        let attributes = self.device_attributes.message_attributes@;
        match message {
            ButtplugDeviceCommandMessageUnion::ScalarCmd(cmd) => self.spec_scalar_result(cmd),
            ButtplugDeviceCommandMessageUnion::LinearCmd(cmd) => self.spec_linear_result(cmd),
            ButtplugDeviceCommandMessageUnion::RotateCmd(cmd) => self.spec_rotate_result(cmd),
            ButtplugDeviceCommandMessageUnion::StopDeviceCmd(_) => Ok(
                scalar_commands(
                    self.last_scalars@,
                    stopped_levels(self.last_scalars@.len()),
                    self.scalar_features(),
                    self.last_scalars@.len() as int,
                ) + rotators_stopped(attributes.rotate_cmd.len()),
            ),
            ButtplugDeviceCommandMessageUnion::SensorReadCmd(cmd) => self.spec_sensor_result(
                ButtplugDeviceMessageType::SensorReadCmd,
                attributes.sensor_read_cmd.len(),
                cmd.sensor_index,
                ProtocolCommand::SensorRead { index: cmd.sensor_index, sensor_type: cmd.sensor_type },
            ),
            ButtplugDeviceCommandMessageUnion::SensorSubscribeCmd(cmd) => self.spec_sensor_result(
                ButtplugDeviceMessageType::SensorSubscribeCmd,
                attributes.sensor_subscribe_cmd.len(),
                cmd.sensor_index,
                ProtocolCommand::SensorSubscribe {
                    index: cmd.sensor_index,
                    sensor_type: cmd.sensor_type,
                },
            ),
            ButtplugDeviceCommandMessageUnion::SensorUnsubscribeCmd(cmd) => self.spec_sensor_result(
                ButtplugDeviceMessageType::SensorUnsubscribeCmd,
                attributes.sensor_subscribe_cmd.len(),
                cmd.sensor_index,
                ProtocolCommand::SensorUnsubscribe {
                    index: cmd.sensor_index,
                    sensor_type: cmd.sensor_type,
                },
            ),
            ButtplugDeviceCommandMessageUnion::RawWriteCmd(cmd) => self.spec_raw_result(
                hardware,
                ButtplugDeviceMessageType::RawWriteCmd,
                DeviceImplCommand::Write(
                    DeviceWriteCmd {
                        endpoint: cmd.endpoint,
                        data: cmd.data,
                        write_with_response: cmd.write_with_response,
                    },
                ),
            ),
            ButtplugDeviceCommandMessageUnion::RawReadCmd(cmd) => self.spec_raw_result(
                hardware,
                ButtplugDeviceMessageType::RawReadCmd,
                DeviceImplCommand::Read(
                    DeviceReadCmd {
                        endpoint: cmd.endpoint,
                        length: cmd.expected_length,
                        timeout_ms: cmd.timeout,
                    },
                ),
            ),
            ButtplugDeviceCommandMessageUnion::RawSubscribeCmd(cmd) => self.spec_raw_result(
                hardware,
                ButtplugDeviceMessageType::RawSubscribeCmd,
                DeviceImplCommand::Subscribe(DeviceSubscribeCmd { endpoint: cmd.endpoint }),
            ),
            ButtplugDeviceCommandMessageUnion::RawUnsubscribeCmd(cmd) => self.spec_raw_result(
                hardware,
                ButtplugDeviceMessageType::RawUnsubscribeCmd,
                DeviceImplCommand::Unsubscribe(DeviceUnsubscribeCmd { endpoint: cmd.endpoint }),
            ),
        }
    }

    /// What the features were last told once a command has been handled: a
    /// scalar command that is taken leaves its levels, a stop leaves zeros,
    /// and nothing else changes what is remembered.
    pub open spec fn spec_levels_after_command(
        &self,
        hardware: &DeviceImpl,
        message: ButtplugDeviceCommandMessageUnion,
    ) -> Seq<Option<u64>> {
        match message {
            ButtplugDeviceCommandMessageUnion::ScalarCmd(cmd) => if self.spec_scalar_result(cmd) is Ok {
                levels_after(
                    self.last_scalars@,
                    desired_levels(cmd.scalars@, self.last_scalars@.len()),
                )
            } else {
                self.last_scalars@
            },
            ButtplugDeviceCommandMessageUnion::StopDeviceCmd(_) => levels_after(
                self.last_scalars@,
                stopped_levels(self.last_scalars@.len()),
            ),
            _ => self.last_scalars@,
        }
    }

    /// Handles a command: checks it against what the device takes and the
    /// features it has, and hands back what is to be told to the device.
    pub fn handle_command(
        &mut self,
        hardware: &DeviceImpl,
        message: ButtplugDeviceCommandMessageUnion,
    ) -> (r: ProtocolResult)
        requires
            old(self).well_formed(),
        ensures
            final(self).well_formed(),
            final(self).protocol_identifier == old(self).protocol_identifier,
            final(self).protocol_attributes_identifier == old(self).protocol_attributes_identifier,
            final(self).device_attributes == old(self).device_attributes,
            final(self).last_scalars@ == old(self).spec_levels_after_command(hardware, message),
            result_is(r, old(self).spec_handle_command(hardware, message)),
            
    {
        match message {
            ButtplugDeviceCommandMessageUnion::ScalarCmd(cmd) => self.handle_scalar_cmd(&cmd),
            ButtplugDeviceCommandMessageUnion::LinearCmd(cmd) => self.handle_linear_cmd(&cmd),
            ButtplugDeviceCommandMessageUnion::RotateCmd(cmd) => self.handle_rotate_cmd(&cmd),
            ButtplugDeviceCommandMessageUnion::StopDeviceCmd(_) => Ok(self.handle_stop_device_cmd()),
            ButtplugDeviceCommandMessageUnion::SensorReadCmd(cmd) => self.handle_sensor_cmd(
                ButtplugDeviceMessageType::SensorReadCmd,
                self.device_attributes.message_attributes.sensor_read_cmd.len(),
                cmd.sensor_index,
                ProtocolCommand::SensorRead { index: cmd.sensor_index, sensor_type: cmd.sensor_type },
            ),
            ButtplugDeviceCommandMessageUnion::SensorSubscribeCmd(cmd) => self.handle_sensor_cmd(
                ButtplugDeviceMessageType::SensorSubscribeCmd,
                self.device_attributes.message_attributes.sensor_subscribe_cmd.len(),
                cmd.sensor_index,
                ProtocolCommand::SensorSubscribe {
                    index: cmd.sensor_index,
                    sensor_type: cmd.sensor_type,
                },
            ),
            ButtplugDeviceCommandMessageUnion::SensorUnsubscribeCmd(cmd) => self.handle_sensor_cmd(
                ButtplugDeviceMessageType::SensorUnsubscribeCmd,
                self.device_attributes.message_attributes.sensor_subscribe_cmd.len(),
                cmd.sensor_index,
                ProtocolCommand::SensorUnsubscribe {
                    index: cmd.sensor_index,
                    sensor_type: cmd.sensor_type,
                },
            ),
            ButtplugDeviceCommandMessageUnion::RawWriteCmd(cmd) => self.handle_raw_cmd(
                hardware,
                ButtplugDeviceMessageType::RawWriteCmd,
                DeviceImplCommand::from(cmd),
            ),
            ButtplugDeviceCommandMessageUnion::RawReadCmd(cmd) => self.handle_raw_cmd(
                hardware,
                ButtplugDeviceMessageType::RawReadCmd,
                DeviceImplCommand::from(cmd),
            ),
            ButtplugDeviceCommandMessageUnion::RawSubscribeCmd(cmd) => self.handle_raw_cmd(
                hardware,
                ButtplugDeviceMessageType::RawSubscribeCmd,
                DeviceImplCommand::from(cmd),
            ),
            ButtplugDeviceCommandMessageUnion::RawUnsubscribeCmd(cmd) => self.handle_raw_cmd(
                hardware,
                ButtplugDeviceMessageType::RawUnsubscribeCmd,
                DeviceImplCommand::from(cmd),
            ),
        }
    }

    /// A command that is taken names only features the device has: each
    /// subcommand's index lies below the number of features of its kind.
    pub proof fn lemma_accepted_indices_in_bounds(
        &self,
        hardware: &DeviceImpl,
        message: ButtplugDeviceCommandMessageUnion,
    )
        requires
            self.well_formed(),
            self.spec_handle_command(hardware, message) is Ok,
        ensures
            message matches ButtplugDeviceCommandMessageUnion::ScalarCmd(cmd) ==> forall|i: int|
                0 <= i < cmd.scalars@.len() ==> (#[trigger] cmd.scalars@[i]).index
                    < self.device_attributes.message_attributes@.scalar_cmd.len(),
            message matches ButtplugDeviceCommandMessageUnion::RotateCmd(cmd) ==> forall|i: int|
                0 <= i < cmd.rotations@.len() ==> (#[trigger] cmd.rotations@[i]).index
                    < self.device_attributes.message_attributes@.rotate_cmd.len(),
            message matches ButtplugDeviceCommandMessageUnion::LinearCmd(cmd) ==> forall|i: int|
                0 <= i < cmd.vectors@.len() ==> (#[trigger] cmd.vectors@[i]).index
                    < self.device_attributes.message_attributes@.linear_cmd.len(),
            message matches ButtplugDeviceCommandMessageUnion::SensorReadCmd(cmd) ==> cmd.sensor_index
                < self.device_attributes.message_attributes@.sensor_read_cmd.len(),
            message matches ButtplugDeviceCommandMessageUnion::SensorSubscribeCmd(cmd)
                ==> cmd.sensor_index
                < self.device_attributes.message_attributes@.sensor_subscribe_cmd.len(),
            message matches ButtplugDeviceCommandMessageUnion::SensorUnsubscribeCmd(cmd)
                ==> cmd.sensor_index
                < self.device_attributes.message_attributes@.sensor_subscribe_cmd.len(),
    {
        let attributes = self.device_attributes.message_attributes@;
        match message {
            ButtplugDeviceCommandMessageUnion::ScalarCmd(cmd) => {
                lemma_indices_valid(cmd.spec_levels(), attributes.scalar_cmd.len() as u32, 0);
                assert forall|i: int| 0 <= i < cmd.scalars@.len() implies (#[trigger] cmd.scalars@[i]).index
                    < attributes.scalar_cmd.len() by {
                    assert(cmd.spec_levels()[i].0 == cmd.scalars@[i].index);
                }
            },
            ButtplugDeviceCommandMessageUnion::RotateCmd(cmd) => {
                lemma_indices_valid(cmd.spec_levels(), attributes.rotate_cmd.len() as u32, 0);
                assert forall|i: int|
                    0 <= i < cmd.rotations@.len() implies (#[trigger] cmd.rotations@[i]).index
                    < attributes.rotate_cmd.len() by {
                    assert(cmd.spec_levels()[i].0 == cmd.rotations@[i].index);
                }
            },
            ButtplugDeviceCommandMessageUnion::LinearCmd(cmd) => {
                lemma_indices_valid(cmd.spec_levels(), attributes.linear_cmd.len() as u32, 0);
                assert forall|i: int| 0 <= i < cmd.vectors@.len() implies (#[trigger] cmd.vectors@[i]).index
                    < attributes.linear_cmd.len() by {
                    assert(cmd.spec_levels()[i].0 == cmd.vectors@[i].index);
                }
            },
            _ => {},
        }
    }
}

/// As many commands go out as there are features that have to be told their
/// level. Each is for one such feature and carries the level asked of it, and
/// the commands come in the order of the features, so that no feature is told
/// twice.
pub proof fn lemma_scalar_commands(
    last: Seq<Option<u64>>,
    desired: Seq<Option<u64>>,
    features: Seq<GenericDeviceMessageAttributes>,
    upto: int,
)
    requires
        0 <= upto <= features.len(),
        features.len() <= u32::MAX,
    ensures
        scalar_commands(last, desired, features, upto).len() == write_count(last, desired, upto),
        forall|k: int|
            0 <= k < scalar_commands(last, desired, features, upto).len() ==> {
                let command = #[trigger] scalar_commands(last, desired, features, upto)[k];
                &&& command matches ProtocolCommand::Scalar { index, actuator_type, scalar }
                &&& index < upto
                &&& needs_write(last, desired, index as int)
                &&& desired[index as int] == Some(scalar)
                &&& actuator_type == features[index as int].actuator_type
            },
        forall|j: int, k: int|
            0 <= j < k < scalar_commands(last, desired, features, upto).len() ==> feature_of(
                #[trigger] scalar_commands(last, desired, features, upto)[j],
            ) < feature_of(#[trigger] scalar_commands(last, desired, features, upto)[k]),
        forall|f: int|
            0 <= f < upto && needs_write(last, desired, f) ==> exists|k: int|
                0 <= k < scalar_commands(last, desired, features, upto).len() && feature_of(
                    #[trigger] scalar_commands(last, desired, features, upto)[k],
                ) == f,
    decreases upto,
{
    if upto > 0 {
        lemma_scalar_commands(last, desired, features, upto - 1);
        let before = scalar_commands(last, desired, features, upto - 1);
        let now = scalar_commands(last, desired, features, upto);
        if needs_write(last, desired, upto - 1) {
            assert(now.len() == before.len() + 1);
            assert(feature_of(now[before.len() as int]) == upto - 1);
            assert forall|f: int| 0 <= f < upto && needs_write(last, desired, f) implies exists|k: int|
                0 <= k < now.len() && feature_of(#[trigger] now[k]) == f by {
                if f < upto - 1 {
                    let k = choose|k: int|
                        0 <= k < before.len() && feature_of(#[trigger] before[k]) == f;
                    assert(now[k] == before[k]);
                } else {
                    assert(feature_of(now[before.len() as int]) == f);
                }
            }
            assert forall|j: int, k: int| 0 <= j < k < now.len() implies feature_of(#[trigger] now[j])
                < feature_of(#[trigger] now[k]) by {
                assert(now[j] == before[j]);
                if k < before.len() {
                    assert(now[k] == before[k]);
                }
            }
        } else {
            assert(now == before);
        }
    }
}

/// A feature whose asked level differs from what it was last told is told
/// exactly once: one command is for it, and no other is.
pub proof fn lemma_changed_level_written_once(
    last: Seq<Option<u64>>,
    desired: Seq<Option<u64>>,
    features: Seq<GenericDeviceMessageAttributes>,
    feature: int,
)
    requires
        0 <= feature < features.len(),
        features.len() <= u32::MAX,
        needs_write(last, desired, feature),
    ensures
        exists|k: int|
            {
                &&& 0 <= k < scalar_commands(last, desired, features, features.len() as int).len()
                &&& #[trigger] scalar_commands(last, desired, features, features.len() as int)[k]
                    == ProtocolCommand::Scalar {
                    index: feature as u32,
                    actuator_type: features[feature].actuator_type,
                    scalar: desired[feature]->0,
                }
                &&& forall|j: int|
                    0 <= j < scalar_commands(last, desired, features, features.len() as int).len()
                        && j != k ==> feature_of(
                        #[trigger] scalar_commands(last, desired, features, features.len() as int)[j],
                    ) != feature
            },
{
    let commands = scalar_commands(last, desired, features, features.len() as int);
    lemma_scalar_commands(last, desired, features, features.len() as int);
    let k = choose|k: int| 0 <= k < commands.len() && feature_of(#[trigger] commands[k]) == feature;
    assert forall|j: int| 0 <= j < commands.len() && j != k implies feature_of(#[trigger] commands[j])
        != feature by {
        if j < k {
            assert(feature_of(commands[j]) < feature_of(commands[k]));
        } else {
            assert(feature_of(commands[k]) < feature_of(commands[j]));
        }
    }
    assert(commands[k] == ProtocolCommand::Scalar {
        index: feature as u32,
        actuator_type: features[feature].actuator_type,
        scalar: desired[feature]->0,
    });
}

impl ButtplugProtocol {
    /// The levels that a scalar command asks of this device's features.
    pub open spec fn spec_asked(&self, cmd: ScalarCmd) -> Seq<Option<u64>> {
        desired_levels(cmd.scalars@, self.last_scalars@.len())
    }

    /// Whether a scalar command changes a feature: it asks a level of the
    /// feature that is not the level the feature was last told.
    pub open spec fn spec_changes(&self, cmd: ScalarCmd, feature: int) -> bool {
        needs_write(self.last_scalars@, self.spec_asked(cmd), feature)
    }

    /// What goes out for a scalar command that the device takes.
    pub open spec fn spec_sent(&self, cmd: ScalarCmd) -> Seq<ProtocolCommand> {
        self.spec_scalar_result(cmd)->Ok_0
    }

    /// A scalar command that follows another, whatever the two ask for. One
    /// command goes out for each feature that the second changes, carrying
    /// the new level, and none for any other feature; the commands come in
    /// the order of the features, so no feature is told twice. A command
    /// that changes a feature therefore sends something, and one that changes
    /// none sends nothing. Afterwards every feature that the second command
    /// names is remembered at the level asked of it, and every other at what
    /// it was.
    pub proof fn lemma_changing_scalar_cmd(
        protocol: ButtplugProtocol,
        told: ButtplugProtocol,
        first: ScalarCmd,
        second: ScalarCmd,
    )
        requires
            protocol.well_formed(),
            protocol.spec_scalar_result(first) is Ok,
            told.device_attributes == protocol.device_attributes,
            told.last_scalars@ == levels_after(protocol.last_scalars@, protocol.spec_asked(first)),
            told.spec_scalar_result(second) is Ok,
        ensures
            told.spec_sent(second).len() == write_count(
                told.last_scalars@,
                told.spec_asked(second),
                told.last_scalars@.len() as int,
            ),
            forall|f: int|
                0 <= f < told.last_scalars@.len() && #[trigger] told.spec_changes(second, f)
                    ==> exists|k: int|
                    0 <= k < told.spec_sent(second).len() && #[trigger] told.spec_sent(second)[k]
                        == (ProtocolCommand::Scalar {
                        index: f as u32,
                        actuator_type: told.scalar_features()[f].actuator_type,
                        scalar: told.spec_asked(second)[f]->0,
                    }),
            forall|k: int|
                0 <= k < told.spec_sent(second).len() ==> 0 <= feature_of(
                    #[trigger] told.spec_sent(second)[k],
                ) < told.last_scalars@.len() && told.spec_changes(
                    second,
                    feature_of(told.spec_sent(second)[k]),
                ),
            forall|j: int, k: int|
                0 <= j < k < told.spec_sent(second).len() ==> feature_of(
                    #[trigger] told.spec_sent(second)[j],
                ) < feature_of(#[trigger] told.spec_sent(second)[k]),
            told.spec_sent(second).len() > 0 <==> exists|f: int|
                0 <= f < told.last_scalars@.len() && #[trigger] told.spec_changes(second, f),
            forall|f: int|
                0 <= f < told.last_scalars@.len() ==> #[trigger] levels_after(
                    told.last_scalars@,
                    told.spec_asked(second),
                )[f] == (if told.spec_asked(second)[f] is Some {
                    told.spec_asked(second)[f]
                } else {
                    told.last_scalars@[f]
                }),
    {
        let count = told.last_scalars@.len();
        let asked = told.spec_asked(second);
        let sent = told.spec_sent(second);
        assert(count == protocol.last_scalars@.len());
        assert(told.scalar_features() == protocol.scalar_features());
        lemma_scalar_commands(told.last_scalars@, asked, told.scalar_features(), count as int);
        assert forall|f: int|
            0 <= f < count && #[trigger] told.spec_changes(second, f) implies exists|k: int|
            0 <= k < sent.len() && #[trigger] sent[k] == (ProtocolCommand::Scalar {
                index: f as u32,
                actuator_type: told.scalar_features()[f].actuator_type,
                scalar: asked[f]->0,
            }) by {
            lemma_changed_level_written_once(told.last_scalars@, asked, told.scalar_features(), f);
        }
        if sent.len() > 0 {
            assert(told.spec_changes(second, feature_of(sent[0])));
        }
        if exists|f: int| 0 <= f < count && #[trigger] told.spec_changes(second, f) {
            let f = choose|f: int| 0 <= f < count && #[trigger] told.spec_changes(second, f);
            lemma_changed_level_written_once(told.last_scalars@, asked, told.scalar_features(), f);
        }
    }
}

/// The feature that a command speaks of; for a command to the hardware
/// itself, which speaks of none, a number no feature has.
pub open spec fn feature_of(command: ProtocolCommand) -> int {
    match command {
        ProtocolCommand::Scalar { index, .. } => index as int,
        ProtocolCommand::Rotate { index, .. } => index as int,
        ProtocolCommand::Linear { index, .. } => index as int,
        ProtocolCommand::SensorRead { index, .. } => index as int,
        ProtocolCommand::SensorSubscribe { index, .. } => index as int,
        ProtocolCommand::SensorUnsubscribe { index, .. } => index as int,
        ProtocolCommand::Hardware(_) => -1,
    }
}

/// Asking once more for the levels that were just sent sends nothing: no
/// feature has to be told, and what is remembered stays.
pub proof fn lemma_repeated_levels_write_nothing(
    last: Seq<Option<u64>>,
    desired: Seq<Option<u64>>,
    features: Seq<GenericDeviceMessageAttributes>,
)
    requires
        last.len() == features.len(),
        desired.len() == features.len(),
        features.len() <= u32::MAX,
    ensures
        scalar_commands(levels_after(last, desired), desired, features, features.len() as int)
            == Seq::<ProtocolCommand>::empty(),
        write_count(levels_after(last, desired), desired, features.len() as int) == 0,
        levels_after(levels_after(last, desired), desired) == levels_after(last, desired),
{
    let told = levels_after(last, desired);
    lemma_nothing_to_write(told, desired, features, features.len() as int);
    assert(levels_after(told, desired) =~= told);
}

/// Where no feature has to be told its level, no command goes out.
proof fn lemma_nothing_to_write(
    last: Seq<Option<u64>>,
    desired: Seq<Option<u64>>,
    features: Seq<GenericDeviceMessageAttributes>,
    upto: int,
)
    requires
        0 <= upto <= features.len(),
        forall|f: int| 0 <= f < upto ==> !needs_write(last, desired, f),
    ensures
        scalar_commands(last, desired, features, upto) == Seq::<ProtocolCommand>::empty(),
        write_count(last, desired, upto) == 0,
    decreases upto,
{
    if upto > 0 {
        lemma_nothing_to_write(last, desired, features, upto - 1);
    }
}

/// Two scalar commands with the same subcommands, one after the other: the
/// second sends nothing. What the first sends is one command for each feature
/// whose asked level differs from what it was last told, and none else.
pub proof fn lemma_idempotent_scalar_cmd(protocol: ButtplugProtocol, cmd: ScalarCmd)
    requires
        protocol.well_formed(),
        protocol.spec_scalar_result(cmd) is Ok,
    ensures
        ({
            let desired = desired_levels(cmd.scalars@, protocol.last_scalars@.len());
            let first = protocol.spec_scalar_result(cmd)->Ok_0;
            &&& first.len() == write_count(
                protocol.last_scalars@,
                desired,
                protocol.last_scalars@.len() as int,
            )
            &&& forall|second: ButtplugProtocol|
                second.device_attributes == protocol.device_attributes && second.last_scalars@
                    == levels_after(protocol.last_scalars@, desired)
                    ==> (#[trigger] second.spec_scalar_result(cmd) matches Ok(commands)
                    && commands.len() == 0)
        }),
{
    let count = protocol.last_scalars@.len();
    let desired = desired_levels(cmd.scalars@, count);
    lemma_scalar_commands(protocol.last_scalars@, desired, protocol.scalar_features(), count as int);
    lemma_repeated_levels_write_nothing(protocol.last_scalars@, desired, protocol.scalar_features());
    assert forall|second: ButtplugProtocol|
        second.device_attributes == protocol.device_attributes && second.last_scalars@
            == levels_after(protocol.last_scalars@, desired) implies (
    #[trigger] second.spec_scalar_result(cmd) matches Ok(commands) && commands.len() == 0) by {
        assert(second.last_scalars@.len() == count);
        assert(second.scalar_features() == protocol.scalar_features());
    }
}

} // verus!
