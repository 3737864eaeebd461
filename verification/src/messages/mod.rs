//! The messages of the protocol, one type for each, and what all of them
//! share: an id that ties a reply to its request, and a check of their own
//! fields.
//!
//! Levels, speeds and positions are double-precision numbers on the wire.
//! Here each is carried as the sixty-four bits of that number, untouched:
//! all that is ever asked of one is whether it lies in the unit interval and
//! whether it is the one that was sent last, and both can be read off the
//! bits.

pub mod converter;
mod device_added;
mod device_added_v2;
mod device_list;
mod device_list_v2;
mod device_message_info;
mod device_removed;
mod error;
mod fleshlight_launch_fw12_cmd;
mod kiiroo_cmd;
mod legacy_attributes;
mod linear_cmd;
mod message_attributes;
mod message_union;
mod message_union_v0;
mod message_union_v1;
mod message_union_v2;
mod lovense_cmd;
mod ok;
mod ping;
mod raw_read_cmd;
mod raw_reading;
mod raw_subscribe_cmd;
mod raw_unsubscribe_cmd;
mod raw_write_cmd;
mod request_device_list;
mod request_server_info;
mod rotate_cmd;
mod scalar_cmd;
mod scanning_finished;
mod sensor_read_cmd;
mod sensor_reading;
mod sensor_subscribe_cmd;
mod sensor_unsubscribe_cmd;
mod server_info;
mod single_motor_vibrate_cmd;
mod start_scanning;
mod stop_all_devices;
mod stop_device_cmd;
mod stop_scanning;
mod vibrate_cmd;
mod vorze_a10_cyclone_cmd;

pub use device_added::DeviceAdded;
pub use device_added_v2::DeviceAddedV2;
pub use device_list::DeviceList;
pub use device_list_v2::{DeviceListV2, DeviceMessageInfoV2};
pub use device_message_info::DeviceMessageInfo;
pub use device_removed::DeviceRemoved;
pub use error::Error;
pub use fleshlight_launch_fw12_cmd::FleshlightLaunchFW12Cmd;
pub use kiiroo_cmd::KiirooCmd;
pub use legacy_attributes::{
    counted_entry, entries_view, legacy_attributes, legacy_motion_entries, legacy_raw_entries,
    legacy_vibrate_entries, plain_entry, step_counts, wire_count, MessageAttributes,
    MessageAttributesView,
};
pub use linear_cmd::{LinearCmd, VectorSubcommand};
pub use message_attributes::{
    duplicate_endpoints, duplicate_features, duplicate_sensors, lemma_vibrator_count, vibrator_count,
    vibrator_steps, DeviceMessageAttributes, DeviceMessageAttributesView,
    GenericDeviceMessageAttributes, SensorDeviceMessageAttributes,
};
pub use lovense_cmd::LovenseCmd;
pub use message_union::{
    ButtplugDeviceCommandMessageUnion, ButtplugDeviceManagerMessageUnion, ButtplugMessageUnion,
    ButtplugSystemMessageUnion,
};
pub use message_union_v0::ButtplugMessageUnionVersion0;
pub use message_union_v1::ButtplugMessageUnionVersion1;
pub use message_union_v2::ButtplugMessageUnionVersion2;
pub use ok::OkMessage;
pub use ping::Ping;
pub use raw_read_cmd::RawReadCmd;
pub use raw_reading::RawReading;
pub use raw_subscribe_cmd::RawSubscribeCmd;
pub use raw_unsubscribe_cmd::RawUnsubscribeCmd;
pub use raw_write_cmd::RawWriteCmd;
pub use request_device_list::RequestDeviceList;
pub use request_server_info::RequestServerInfo;
pub use rotate_cmd::{RotateCmd, RotationSubcommand};
pub use scalar_cmd::{ScalarCmd, ScalarSubcommand};
pub use scanning_finished::ScanningFinished;
pub use sensor_read_cmd::SensorReadCmd;
pub use sensor_reading::SensorReading;
pub use sensor_subscribe_cmd::SensorSubscribeCmd;
pub use sensor_unsubscribe_cmd::SensorUnsubscribeCmd;
pub use server_info::ServerInfo;
pub use single_motor_vibrate_cmd::SingleMotorVibrateCmd;
pub use start_scanning::StartScanning;
pub use stop_all_devices::StopAllDevices;
pub use stop_device_cmd::StopDeviceCmd;
pub use stop_scanning::StopScanning;
pub use vibrate_cmd::{VibrateCmd, VibrateSubcommand};
pub use vorze_a10_cyclone_cmd::VorzeA10CycloneCmd;

use crate::errors::{ButtplugMessageError, InvalidContents};
use vstd::prelude::*;

verus! {

/// A revision of the wire format.
#[derive(Clone, Copy, Debug, PartialEq, Eq, Hash, Structural)]
pub enum ButtplugMessageSpecVersion {
    Version0,
    Version1,
    Version2,
    Version3,
}

impl ButtplugMessageSpecVersion {
    /// The number a version goes by on the wire.
    pub open spec fn spec_number(self) -> u32 {
        match self {
            ButtplugMessageSpecVersion::Version0 => 0,
            ButtplugMessageSpecVersion::Version1 => 1,
            ButtplugMessageSpecVersion::Version2 => 2,
            ButtplugMessageSpecVersion::Version3 => 3,
        }
    }

    /// Returns the number this version goes by on the wire.
    #[verifier::when_used_as_spec(spec_number)]
    pub fn number(self) -> (r: u32)
        ensures
            r == self.spec_number(),
    {
        match self {
            ButtplugMessageSpecVersion::Version0 => 0,
            ButtplugMessageSpecVersion::Version1 => 1,
            ButtplugMessageSpecVersion::Version2 => 2,
            ButtplugMessageSpecVersion::Version3 => 3,
        }
    }

    /// Reads a wire number; a number past the newest version has none.
    pub fn from_number(number: u32) -> (r: Option<ButtplugMessageSpecVersion>)
        ensures
            r matches Some(v) ==> v.spec_number() == number,
            r is None <==> number > 3,
    {
        if number == 0 {
            Some(ButtplugMessageSpecVersion::Version0)
        } else if number == 1 {
            Some(ButtplugMessageSpecVersion::Version1)
        } else if number == 2 {
            Some(ButtplugMessageSpecVersion::Version2)
        } else if number == 3 {
            Some(ButtplugMessageSpecVersion::Version3)
        } else {
            None
        }
    }

    /// The older of two versions.
    pub open spec fn spec_min(self, other: ButtplugMessageSpecVersion) -> ButtplugMessageSpecVersion {
        if self.spec_number() <= other.spec_number() {
            self
        } else {
            other
        }
    }

    /// Returns the older of two versions, the one both sides can speak.
    pub fn min(self, other: ButtplugMessageSpecVersion) -> (r: ButtplugMessageSpecVersion)
        ensures
            r == self.spec_min(other),
    {
        if self.number() <= other.number() {
            self
        } else {
            other
        }
    }
}

/// What every message has: its id.
pub trait ButtplugMessage {
    /// The id the message carries.
    spec fn spec_id(&self) -> u32;

    /// Returns the id of the message.
    fn id(&self) -> (r: u32)
        ensures
            r == self.spec_id(),
    ;

    /// Sets the id of the message.
    fn set_id(&mut self, id: u32)
        ensures
            final(self).spec_id() == id,
    ;
}

/// What every message to or from a device has besides: the device's index.
pub trait ButtplugDeviceMessage: ButtplugMessage {
    /// The index of the device the message is about.
    spec fn spec_device_index(&self) -> u32;

    /// Returns the index of the device the message is about.
    fn device_index(&self) -> (r: u32)
        ensures
            r == self.spec_device_index(),
    ;

    /// Points the message at another device.
    fn set_device_index(&mut self, device_index: u32)
        ensures
            final(self).spec_device_index() == device_index,
            final(self).spec_id() == old(self).spec_id(),
    ;
}

/// The check each message makes of its own fields.
pub trait ButtplugMessageValidator {
    /// The first rule the message breaks, if it breaks one.
    spec fn spec_is_valid(&self) -> Result<(), ButtplugMessageError>;

    /// Checks the message's fields and names the first rule that is broken.
    fn is_valid(&self) -> (r: Result<(), ButtplugMessageError>)
        ensures
            r == self.spec_is_valid(),
    ;
}

/// The id reserved for what the server sends unasked.
pub const SYSTEM_ID: u32 = 0;

/// The bits of the double-precision number one.
pub const SCALAR_ONE: u64 = 0x3FF0_0000_0000_0000;

/// The bits of the double-precision number negative zero.
pub const SCALAR_NEGATIVE_ZERO: u64 = 0x8000_0000_0000_0000;

/// Whether `value`, the bits of a double-precision number, stand for a number
/// of the unit interval, both ends included.
///
/// Among the numbers that are not negative the order of the bits is the order
/// of the numbers, so these are the patterns from zero up to one. Negative
/// zero compares equal to zero and is in; every other negative number, the
/// infinities and every not-a-number pattern lie above one and are out.
pub open spec fn in_command_range(value: u64) -> bool {
    value <= SCALAR_ONE || value == SCALAR_NEGATIVE_ZERO
}

/// What the id check of a client message yields.
pub open spec fn spec_is_not_system_id(id: u32) -> Result<(), ButtplugMessageError> {
    if id == SYSTEM_ID {
        Err(ButtplugMessageError::InvalidMessageContents(InvalidContents::SystemId))
    } else {
        Ok(())
    }
}

/// Refuses the reserved id on a message that a client sends.
pub fn is_not_system_id(id: u32) -> (r: Result<(), ButtplugMessageError>)
    ensures
        r == spec_is_not_system_id(id),
{
    if id == SYSTEM_ID {
        Err(ButtplugMessageError::InvalidMessageContents(InvalidContents::SystemId))
    } else {
        Ok(())
    }
}

/// What the id check of a server notification yields.
pub open spec fn spec_is_system_id(id: u32) -> Result<(), ButtplugMessageError> {
    if id == SYSTEM_ID {
        Ok(())
    } else {
        Err(ButtplugMessageError::InvalidMessageContents(InvalidContents::NotSystemId))
    }
}

/// Refuses any id but the reserved one on a notification.
pub fn is_system_id(id: u32) -> (r: Result<(), ButtplugMessageError>)
    ensures
        r == spec_is_system_id(id),
{
    if id == SYSTEM_ID {
        Ok(())
    } else {
        Err(ButtplugMessageError::InvalidMessageContents(InvalidContents::NotSystemId))
    }
}

/// What the range check of one subcommand yields.
pub open spec fn spec_is_in_command_range(index: u32, value: u64) -> Result<
    (),
    ButtplugMessageError,
> {
    if in_command_range(value) {
        Ok(())
    } else {
        Err(
            ButtplugMessageError::InvalidMessageContents(
                InvalidContents::OutOfRange { index, value },
            ),
        )
    }
}

/// Refuses a level outside the unit interval, naming the feature and the level.
pub fn is_in_command_range(index: u32, value: u64) -> (r: Result<(), ButtplugMessageError>)
    ensures
        r == spec_is_in_command_range(index, value),
{
    if value <= SCALAR_ONE || value == SCALAR_NEGATIVE_ZERO {
        Ok(())
    } else {
        Err(
            ButtplugMessageError::InvalidMessageContents(
                InvalidContents::OutOfRange { index, value },
            ),
        )
    }
}

/// What the range check yields for the levels from position `from` on: the
/// first one outside the unit interval is named with its feature.
pub open spec fn spec_levels_valid(levels: Seq<(u32, u64)>, from: int) -> Result<
    (),
    ButtplugMessageError,
>
    decreases levels.len() - from,
{
    if from < 0 || from >= levels.len() {
        Ok(())
    } else if !in_command_range(levels[from].1) {
        spec_is_in_command_range(levels[from].0, levels[from].1)
    } else {
        spec_levels_valid(levels, from + 1)
    }
}

/// The range check passes exactly when every level lies in the unit interval,
/// and what it names otherwise is a level that does not.
pub proof fn lemma_levels_valid(levels: Seq<(u32, u64)>, from: int)
    requires
        0 <= from,
    ensures
        spec_levels_valid(levels, from) is Ok <==> forall|i: int|
            from <= i < levels.len() ==> in_command_range(#[trigger] levels[i].1),
        spec_levels_valid(levels, from) matches Err(e) ==> exists|i: int|
            from <= i < levels.len() && !in_command_range(#[trigger] levels[i].1) && e
                == ButtplugMessageError::InvalidMessageContents(
                InvalidContents::OutOfRange { index: levels[i].0, value: levels[i].1 },
            ) && forall|j: int| from <= j < i ==> in_command_range(#[trigger] levels[j].1),
    decreases levels.len() - from,
{
    if from < levels.len() {
        lemma_levels_valid(levels, from + 1);
    }
}

/// The name of every message of the protocol, past and present.
#[derive(Clone, Copy, Debug, PartialEq, Eq, Hash, Structural)]
pub enum ButtplugMessageType {
    // Status messages
    OkMessage,
    Error,
    Ping,
    // Handshake messages
    RequestServerInfo,
    ServerInfo,
    // Device enumeration messages
    DeviceList,
    DeviceAdded,
    DeviceRemoved,
    StartScanning,
    StopScanning,
    ScanningFinished,
    RequestDeviceList,
    // Generic commands
    StopAllDevices,
    VibrateCmd,
    LinearCmd,
    RotateCmd,
    ScalarCmd,
    StopDeviceCmd,
    // Sensor commands
    SensorReadCmd,
    SensorSubscribeCmd,
    SensorUnsubscribeCmd,
    SensorReading,
    // Raw commands
    RawWriteCmd,
    RawReadCmd,
    RawSubscribeCmd,
    RawUnsubscribeCmd,
    RawReading,
    // Deprecated generic commands
    SingleMotorVibrateCmd,
    // Deprecated device specific commands
    FleshlightLaunchFW12Cmd,
    LovenseCmd,
    KiirooCmd,
    VorzeA10CycloneCmd,
}

/// The name of every message that commands a device.
#[derive(Clone, Copy, Debug, PartialEq, Eq, Hash, Structural)]
pub enum ButtplugDeviceMessageType {
    // Generic commands
    VibrateCmd,
    LinearCmd,
    RotateCmd,
    ScalarCmd,
    StopDeviceCmd,
    // Sensor commands
    SensorReadCmd,
    SensorSubscribeCmd,
    SensorUnsubscribeCmd,
    // Raw commands
    RawWriteCmd,
    RawReadCmd,
    RawSubscribeCmd,
    RawUnsubscribeCmd,
    // Deprecated generic commands
    SingleMotorVibrateCmd,
    // Deprecated device specific commands
    FleshlightLaunchFW12Cmd,
    LovenseCmd,
    KiirooCmd,
    VorzeA10CycloneCmd,
}

/// What a feature that takes a level does with it.
#[derive(Clone, Copy, Debug, PartialEq, Eq, Hash, Structural)]
pub enum ActuatorType {
    Vibrate,
    Rotate,
    Oscillate,
    Constrict,
    Inflate,
    Position,
}

/// What a feature that can be read measures.
#[derive(Clone, Copy, Debug, PartialEq, Eq, Hash, Structural)]
pub enum SensorType {
    Battery,
    RSSI,
    Button,
    Pressure,
}

} // verus!
