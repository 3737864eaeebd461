//! A message together with the wire version it is in.

use crate::errors::{ButtplugError, ButtplugMessageError};
use crate::messages::{
    ButtplugMessage, ButtplugMessageSpecVersion, ButtplugMessageType, ButtplugMessageUnion,
    ButtplugMessageUnionVersion0, ButtplugMessageUnionVersion1, ButtplugMessageUnionVersion2,
    ButtplugMessageValidator, Error,
};
use vstd::prelude::*;

verus! {

/// A message in one of the wire versions.
#[derive(Clone, Debug, PartialEq, Eq)]
pub enum ButtplugMessageVariant {
    Version0(ButtplugMessageUnionVersion0),
    Version1(ButtplugMessageUnionVersion1),
    Version2(ButtplugMessageUnionVersion2),
    Version3(ButtplugMessageUnion),
}

impl ButtplugMessageVariant {
    /// The wire version the message is in.
    pub open spec fn spec_version(&self) -> ButtplugMessageSpecVersion {
        match self {
            ButtplugMessageVariant::Version0(_) => ButtplugMessageSpecVersion::Version0,
            ButtplugMessageVariant::Version1(_) => ButtplugMessageSpecVersion::Version1,
            ButtplugMessageVariant::Version2(_) => ButtplugMessageSpecVersion::Version2,
            ButtplugMessageVariant::Version3(_) => ButtplugMessageSpecVersion::Version3,
        }
    }

    /// Returns the wire version the message is in.
    pub fn version(&self) -> (r: ButtplugMessageSpecVersion)
        ensures
            r == self.spec_version(),
    {
        match self {
            ButtplugMessageVariant::Version0(_) => ButtplugMessageSpecVersion::Version0,
            ButtplugMessageVariant::Version1(_) => ButtplugMessageSpecVersion::Version1,
            ButtplugMessageVariant::Version2(_) => ButtplugMessageSpecVersion::Version2,
            ButtplugMessageVariant::Version3(_) => ButtplugMessageSpecVersion::Version3,
        }
    }

    /// The id of the message.
    pub open spec fn spec_id(&self) -> u32 {
        match self {
            ButtplugMessageVariant::Version0(msg) => msg.spec_id(),
            ButtplugMessageVariant::Version1(msg) => msg.spec_id(),
            ButtplugMessageVariant::Version2(msg) => msg.spec_id(),
            ButtplugMessageVariant::Version3(msg) => msg.spec_id(),
        }
    }

    /// Returns the id of the message.
    pub fn id(&self) -> (r: u32)
        ensures
            r == self.spec_id(),
    {
        match self {
            ButtplugMessageVariant::Version0(msg) => msg.id(),
            ButtplugMessageVariant::Version1(msg) => msg.id(),
            ButtplugMessageVariant::Version2(msg) => msg.id(),
            ButtplugMessageVariant::Version3(msg) => msg.id(),
        }
    }

    /// The name of the message.
    pub open spec fn spec_message_type(&self) -> ButtplugMessageType {
        match self {
            ButtplugMessageVariant::Version0(msg) => msg.spec_message_type(),
            ButtplugMessageVariant::Version1(msg) => msg.spec_message_type(),
            ButtplugMessageVariant::Version2(msg) => msg.spec_message_type(),
            ButtplugMessageVariant::Version3(msg) => msg.spec_message_type(),
        }
    }

    /// Returns the name of the message.
    pub fn message_type(&self) -> (r: ButtplugMessageType)
        ensures
            r == self.spec_message_type(),
    {
        match self {
            ButtplugMessageVariant::Version0(msg) => msg.message_type(),
            ButtplugMessageVariant::Version1(msg) => msg.message_type(),
            ButtplugMessageVariant::Version2(msg) => msg.message_type(),
            ButtplugMessageVariant::Version3(msg) => msg.message_type(),
        }
    }

    /// What the message's check of its own fields yields.
    pub open spec fn spec_is_valid(&self) -> Result<(), ButtplugMessageError> {
        match self {
            ButtplugMessageVariant::Version0(msg) => msg.spec_is_valid(),
            ButtplugMessageVariant::Version1(msg) => msg.spec_is_valid(),
            ButtplugMessageVariant::Version2(msg) => msg.spec_is_valid(),
            ButtplugMessageVariant::Version3(msg) => msg.spec_is_valid(),
        }
    }

    /// Checks the message's fields and names the first rule that is broken.
    pub fn is_valid(&self) -> (r: Result<(), ButtplugMessageError>)
        ensures
            r == self.spec_is_valid(),
    {
        match self {
            ButtplugMessageVariant::Version0(msg) => msg.is_valid(),
            ButtplugMessageVariant::Version1(msg) => msg.is_valid(),
            ButtplugMessageVariant::Version2(msg) => msg.is_valid(),
            ButtplugMessageVariant::Version3(msg) => msg.is_valid(),
        }
    }

    /// The index of the device that the one-speed command is for, if the
    /// message is that command.
    pub open spec fn spec_single_motor_device(&self) -> Option<u32> {
        match self {
            ButtplugMessageVariant::Version0(ButtplugMessageUnionVersion0::SingleMotorVibrateCmd(m)) => Some(
                m.device_index,
            ),
            ButtplugMessageVariant::Version1(ButtplugMessageUnionVersion1::SingleMotorVibrateCmd(m)) => Some(
                m.device_index,
            ),
            _ => None,
        }
    }

    /// Returns the index of the device that the one-speed command is for, if
    /// the message is that command.
    pub fn single_motor_device(&self) -> (r: Option<u32>)
        ensures
            r == self.spec_single_motor_device(),
    {
        match self {
            ButtplugMessageVariant::Version0(ButtplugMessageUnionVersion0::SingleMotorVibrateCmd(m)) => Some(
                m.device_index,
            ),
            ButtplugMessageVariant::Version1(ButtplugMessageUnionVersion1::SingleMotorVibrateCmd(m)) => Some(
                m.device_index,
            ),
            _ => None,
        }
    }

    /// Whether `r` is what the message comes to in the newest wire version,
    /// for a receiving device with this many vibrators.
    pub open spec fn upgrades(
        msg: ButtplugMessageVariant,
        vibrators: u32,
        r: Result<ButtplugMessageUnion, ButtplugError>,
    ) -> bool {
        match msg {
            ButtplugMessageVariant::Version0(m) => ButtplugMessageUnionVersion0::upgrades(m, vibrators, r),
            ButtplugMessageVariant::Version1(m) => ButtplugMessageUnionVersion1::upgrades(m, vibrators, r),
            ButtplugMessageVariant::Version2(m) => ButtplugMessageUnionVersion2::upgrades(m, r),
            ButtplugMessageVariant::Version3(m) => r matches Ok(up) && up == m,
        }
    }

    /// Says in the newest wire version what the message says. The id is
    /// never touched.
    pub fn upgrade(msg: ButtplugMessageVariant, vibrators: u32) -> (r: Result<
        ButtplugMessageUnion,
        ButtplugError,
    >)
        ensures
            Self::upgrades(msg, vibrators, r),
            r matches Ok(up) ==> up.spec_id() == msg.spec_id(),
    {
        match msg {
            ButtplugMessageVariant::Version0(m) => ButtplugMessageUnionVersion0::upgrade(m, vibrators),
            ButtplugMessageVariant::Version1(m) => ButtplugMessageUnionVersion1::upgrade(m, vibrators),
            ButtplugMessageVariant::Version2(m) => ButtplugMessageUnionVersion2::upgrade(m),
            ButtplugMessageVariant::Version3(m) => Ok(m),
        }
    }

    /// Whether `r` is what a message of the newest wire version comes to in
    /// `version`: nothing where the version cannot say it.
    pub open spec fn downgrades(
        msg: ButtplugMessageUnion,
        version: ButtplugMessageSpecVersion,
        r: Option<ButtplugMessageVariant>,
    ) -> bool {
        match version {
            ButtplugMessageSpecVersion::Version0 => match r {
                Some(ButtplugMessageVariant::Version0(down)) => ButtplugMessageUnionVersion0::downgrades(
                    msg,
                    Some(down),
                ),
                Some(_) => false,
                None => ButtplugMessageUnionVersion0::downgrades(msg, None),
            },
            ButtplugMessageSpecVersion::Version1 => match r {
                Some(ButtplugMessageVariant::Version1(down)) => ButtplugMessageUnionVersion1::downgrades(
                    msg,
                    Some(down),
                ),
                Some(_) => false,
                None => ButtplugMessageUnionVersion1::downgrades(msg, None),
            },
            ButtplugMessageSpecVersion::Version2 => match r {
                Some(ButtplugMessageVariant::Version2(down)) => ButtplugMessageUnionVersion2::downgrades(
                    msg,
                    Some(down),
                ),
                Some(_) => false,
                None => ButtplugMessageUnionVersion2::downgrades(msg, None),
            },
            ButtplugMessageSpecVersion::Version3 => r == Some(ButtplugMessageVariant::Version3(msg)),
        }
    }

    /// Says in `version` what a message of the newest wire version says,
    /// where the version can say it. The id is never touched.
    pub fn downgrade(msg: ButtplugMessageUnion, version: ButtplugMessageSpecVersion) -> (r: Option<
        ButtplugMessageVariant,
    >)
        ensures
            Self::downgrades(msg, version, r),
            r matches Some(down) ==> down.spec_id() == msg.spec_id() && down.spec_version() == version,
    {
        match version {
            ButtplugMessageSpecVersion::Version0 => match ButtplugMessageUnionVersion0::downgrade(msg) {
                Some(down) => Some(ButtplugMessageVariant::Version0(down)),
                None => None,
            },
            ButtplugMessageSpecVersion::Version1 => match ButtplugMessageUnionVersion1::downgrade(msg) {
                Some(down) => Some(ButtplugMessageVariant::Version1(down)),
                None => None,
            },
            ButtplugMessageSpecVersion::Version2 => match ButtplugMessageUnionVersion2::downgrade(msg) {
                Some(down) => Some(ButtplugMessageVariant::Version2(down)),
                None => None,
            },
            ButtplugMessageSpecVersion::Version3 => Some(ButtplugMessageVariant::Version3(msg)),
        }
    }

    /// The error message that the variant holds, if it holds one.
    pub open spec fn spec_error(&self) -> Option<Error> {
        match self {
            ButtplugMessageVariant::Version0(ButtplugMessageUnionVersion0::Error(e)) => Some(*e),
            ButtplugMessageVariant::Version1(ButtplugMessageUnionVersion1::Error(e)) => Some(*e),
            ButtplugMessageVariant::Version2(ButtplugMessageUnionVersion2::Error(e)) => Some(*e),
            ButtplugMessageVariant::Version3(ButtplugMessageUnion::Error(e)) => Some(*e),
            _ => None,
        }
    }

    /// Whether the variant is the error message that reports `error` for the
    /// request with this id, in this wire version.
    pub open spec fn reports(
        &self,
        version: ButtplugMessageSpecVersion,
        id: u32,
        error: ButtplugError,
    ) -> bool {
        &&& self.spec_version() == version
        &&& self.spec_error() matches Some(e)
        &&& e.id == id
        &&& e.error_code == error.spec_error_code()
        &&& e.error_message@ == error.spec_description()
    }

    /// Makes the error message that reports `error` for the request with this
    /// id, in this wire version.
    pub fn error(version: ButtplugMessageSpecVersion, id: u32, error: ButtplugError) -> (r: Self)
        ensures
            r.reports(version, id, error),
            r.spec_id() == id,
    {
        let message = Error::from_error(id, error);
        match version {
            ButtplugMessageSpecVersion::Version0 => ButtplugMessageVariant::Version0(
                ButtplugMessageUnionVersion0::Error(message),
            ),
            ButtplugMessageSpecVersion::Version1 => ButtplugMessageVariant::Version1(
                ButtplugMessageUnionVersion1::Error(message),
            ),
            ButtplugMessageSpecVersion::Version2 => ButtplugMessageVariant::Version2(
                ButtplugMessageUnionVersion2::Error(message),
            ),
            ButtplugMessageSpecVersion::Version3 => ButtplugMessageVariant::Version3(
                ButtplugMessageUnion::Error(message),
            ),
        }
    }
}

} // verus!
