//! Error kinds and their wire codes.

use crate::messages::{ButtplugDeviceMessageType, ButtplugMessageSpecVersion, ButtplugMessageType};
use crate::device::Endpoint;
use vstd::prelude::*;
use vstd::string::StringExecFns;

verus! {

/// The numeric class of an error as it appears on the wire.
#[derive(Clone, Copy, Debug, PartialEq, Eq, Structural)]
pub enum ErrorCode {
    ErrorUnknown,
    ErrorInit,
    ErrorPing,
    ErrorMessage,
    ErrorDevice,
}

impl ErrorCode {
    /// The wire number of each code.
    pub open spec fn spec_code(self) -> u8 {
        match self {
            ErrorCode::ErrorUnknown => 0,
            ErrorCode::ErrorInit => 1,
            ErrorCode::ErrorPing => 2,
            ErrorCode::ErrorMessage => 3,
            ErrorCode::ErrorDevice => 4,
        }
    }

    /// Returns the wire number of this code.
    #[verifier::when_used_as_spec(spec_code)]
    pub fn code(self) -> (r: u8)
        ensures
            r == self.spec_code(),
    {
        match self {
            ErrorCode::ErrorUnknown => 0,
            ErrorCode::ErrorInit => 1,
            ErrorCode::ErrorPing => 2,
            ErrorCode::ErrorMessage => 3,
            ErrorCode::ErrorDevice => 4,
        }
    }

    /// The code that a wire number stands for, if any.
    pub open spec fn spec_from_code(code: u8) -> Option<ErrorCode> {
        if code == 0 {
            Some(ErrorCode::ErrorUnknown)
        } else if code == 1 {
            Some(ErrorCode::ErrorInit)
        } else if code == 2 {
            Some(ErrorCode::ErrorPing)
        } else if code == 3 {
            Some(ErrorCode::ErrorMessage)
        } else if code == 4 {
            Some(ErrorCode::ErrorDevice)
        } else {
            None
        }
    }

    /// Reads a wire number back into a code.
    pub fn from_code(code: u8) -> (r: Option<ErrorCode>)
        ensures
            r == Self::spec_from_code(code),
            r matches Some(c) ==> c.spec_code() == code,
            r is None <==> code > 4,
    {
        if code == 0 {
            Some(ErrorCode::ErrorUnknown)
        } else if code == 1 {
            Some(ErrorCode::ErrorInit)
        } else if code == 2 {
            Some(ErrorCode::ErrorPing)
        } else if code == 3 {
            Some(ErrorCode::ErrorMessage)
        } else if code == 4 {
            Some(ErrorCode::ErrorDevice)
        } else {
            None
        }
    }

    /// Every code survives the trip to its wire number and back.
    pub proof fn lemma_code_round_trip(code: ErrorCode)
        ensures
            Self::spec_from_code(code.spec_code()) == Some(code),
    {
    }
}

/// What is wrong with the contents of a message.
#[derive(Clone, Copy, Debug, PartialEq, Eq, Structural)]
pub enum InvalidContents {
    /// A client message carried the id reserved for server notifications.
    SystemId,
    /// A server notification carried an id other than the reserved one.
    NotSystemId,
    /// The subcommand for feature `index` carried `value`, the bits of a
    /// number outside the unit interval.
    OutOfRange { index: u32, value: u64 },
}

/// A message that is malformed, unsupported or out of place.
#[derive(Clone, Copy, Debug, PartialEq, Eq, Structural)]
pub enum ButtplugMessageError {
    /// The message breaks a rule on its own fields.
    InvalidMessageContents(InvalidContents),
    /// The message is one that only a server sends, or that this part of the
    /// server does not take.
    UnexpectedMessageType(ButtplugMessageType),
    /// The device does not take messages of this type.
    DeviceNotSupportedMessageType(ButtplugDeviceMessageType),
    /// The text that came over the wire could not be read as messages.
    MessageSerializationError,
}

/// A failure of the opening exchange.
#[derive(Clone, Copy, Debug, PartialEq, Eq, Structural)]
pub enum ButtplugHandshakeError {
    /// A message arrived in a wire version other than the one agreed on.
    MessageSpecVersionMismatch { expected: ButtplugMessageSpecVersion, received: ButtplugMessageSpecVersion },
    /// Something other than a request for server info opened the session.
    RequestServerInfoExpected,
    /// A second request for server info arrived.
    HandshakeAlreadyHappened,
}

/// A failure of a command addressed to a device.
#[derive(Clone, Copy, Debug, PartialEq, Eq, Structural)]
pub enum ButtplugDeviceError {
    /// No live device has this index.
    DeviceNotAvailable(u32),
    /// A subcommand named feature `index` of a device that has `feature_count`.
    DeviceFeatureIndexError { feature_count: u32, index: u32 },
    /// The hardware does not have this endpoint.
    InvalidEndpoint(Endpoint),
    /// The hardware is no longer connected.
    DeviceNotConnected,
    /// The vendor protocol gave up on the command.
    ProtocolSpecificError,
    /// The hardware could not be reached to begin with.
    DeviceConnectionError,
    /// The protocol has nothing on record for the model of the device.
    ProtocolAttributesNotFound,
}

/// The client stayed silent for longer than it promised.
#[derive(Clone, Copy, Debug, PartialEq, Eq, Structural)]
pub enum ButtplugPingError {
    PingedOut,
}

/// A failure outside the protocol, such as a transport that broke.
#[derive(Clone, Copy, Debug, PartialEq, Eq, Structural)]
pub enum ButtplugUnknownError {
    TransportFailure,
}

/// A configuration that cannot be put to work.
#[derive(Clone, Copy, Debug, PartialEq, Eq, Structural)]
pub enum ButtplugDeviceConfigError {
    /// A specifier or a set of attributes names a protocol that was never
    /// registered.
    ProtocolNotRegistered,
    /// A set of attributes lists more features than an index can count.
    TooManyFeatures,
    /// Two reservations name the same device or the same index.
    ReservedIndexConflict,
}

/// A server that cannot be put together.
#[derive(Clone, Debug, PartialEq, Eq)]
pub enum ButtplugServerError {
    /// The device configuration is not in order.
    DeviceConfigurationManagerError(ButtplugDeviceConfigError),
    /// Two transports go by this one name.
    DeviceManagerTypeAlreadyAdded(String),
}

/// Any error that can be answered with a wire error message.
#[derive(Clone, Copy, Debug, PartialEq, Eq, Structural)]
pub enum ButtplugError {
    ButtplugMessageError(ButtplugMessageError),
    ButtplugHandshakeError(ButtplugHandshakeError),
    ButtplugDeviceError(ButtplugDeviceError),
    ButtplugPingError(ButtplugPingError),
    ButtplugUnknownError(ButtplugUnknownError),
}

impl ButtplugError {
    /// The wire code of each error kind.
    pub open spec fn spec_error_code(self) -> ErrorCode {
        match self {
            ButtplugError::ButtplugMessageError(_) => ErrorCode::ErrorMessage,
            ButtplugError::ButtplugHandshakeError(_) => ErrorCode::ErrorInit,
            ButtplugError::ButtplugDeviceError(_) => ErrorCode::ErrorDevice,
            ButtplugError::ButtplugPingError(_) => ErrorCode::ErrorPing,
            ButtplugError::ButtplugUnknownError(_) => ErrorCode::ErrorUnknown,
        }
    }

    /// Returns the wire code this error is reported under.
    #[verifier::when_used_as_spec(spec_error_code)]
    pub fn error_code(self) -> (r: ErrorCode)
        ensures
            r == self.spec_error_code(),
    {
        match self {
            ButtplugError::ButtplugMessageError(_) => ErrorCode::ErrorMessage,
            ButtplugError::ButtplugHandshakeError(_) => ErrorCode::ErrorInit,
            ButtplugError::ButtplugDeviceError(_) => ErrorCode::ErrorDevice,
            ButtplugError::ButtplugPingError(_) => ErrorCode::ErrorPing,
            ButtplugError::ButtplugUnknownError(_) => ErrorCode::ErrorUnknown,
        }
    }

    /// The text that goes out with each error kind.
    pub open spec fn spec_description(self) -> Seq<char> {
        match self {
            ButtplugError::ButtplugMessageError(e) => match e {
                ButtplugMessageError::InvalidMessageContents(_) => "Message contents are invalid"@,
                ButtplugMessageError::UnexpectedMessageType(_) => "Message type is not expected here"@,
                ButtplugMessageError::DeviceNotSupportedMessageType(_) =>
                    "Device does not support this message type"@,
                ButtplugMessageError::MessageSerializationError => "Message could not be read"@,
            },
            ButtplugError::ButtplugHandshakeError(e) => match e {
                ButtplugHandshakeError::MessageSpecVersionMismatch { .. } =>
                    "Message spec version does not match the handshake"@,
                ButtplugHandshakeError::RequestServerInfoExpected =>
                    "Expected RequestServerInfo as the first message"@,
                ButtplugHandshakeError::HandshakeAlreadyHappened => "Handshake already happened"@,
            },
            ButtplugError::ButtplugDeviceError(e) => match e {
                ButtplugDeviceError::DeviceNotAvailable(_) => "Device index is not available"@,
                ButtplugDeviceError::DeviceFeatureIndexError { .. } =>
                    "Device feature index is out of range"@,
                ButtplugDeviceError::InvalidEndpoint(_) => "Device does not have this endpoint"@,
                ButtplugDeviceError::DeviceNotConnected => "Device is not connected"@,
                ButtplugDeviceError::ProtocolSpecificError => "Device protocol error"@,
                ButtplugDeviceError::DeviceConnectionError => "Device connection failed"@,
                ButtplugDeviceError::ProtocolAttributesNotFound =>
                    "Protocol has no attributes for this device"@,
            },
            ButtplugError::ButtplugPingError(_) => "Ping timer expired"@,
            ButtplugError::ButtplugUnknownError(_) => "Unknown error"@,
        }
    }

    /// Returns the text that goes out with this error.
    pub fn description(self) -> (r: String)
        ensures
            r@ == self.spec_description(),
    {
        let text = match self {
            ButtplugError::ButtplugMessageError(e) => match e {
                ButtplugMessageError::InvalidMessageContents(_) => "Message contents are invalid",
                ButtplugMessageError::UnexpectedMessageType(_) => "Message type is not expected here",
                ButtplugMessageError::DeviceNotSupportedMessageType(_) =>
                    "Device does not support this message type",
                ButtplugMessageError::MessageSerializationError => "Message could not be read",
            },
            ButtplugError::ButtplugHandshakeError(e) => match e {
                ButtplugHandshakeError::MessageSpecVersionMismatch { .. } =>
                    "Message spec version does not match the handshake",
                ButtplugHandshakeError::RequestServerInfoExpected =>
                    "Expected RequestServerInfo as the first message",
                ButtplugHandshakeError::HandshakeAlreadyHappened => "Handshake already happened",
            },
            ButtplugError::ButtplugDeviceError(e) => match e {
                ButtplugDeviceError::DeviceNotAvailable(_) => "Device index is not available",
                ButtplugDeviceError::DeviceFeatureIndexError { .. } =>
                    "Device feature index is out of range",
                ButtplugDeviceError::InvalidEndpoint(_) => "Device does not have this endpoint",
                ButtplugDeviceError::DeviceNotConnected => "Device is not connected",
                ButtplugDeviceError::ProtocolSpecificError => "Device protocol error",
                ButtplugDeviceError::DeviceConnectionError => "Device connection failed",
                ButtplugDeviceError::ProtocolAttributesNotFound =>
                    "Protocol has no attributes for this device",
            },
            ButtplugError::ButtplugPingError(_) => "Ping timer expired",
            ButtplugError::ButtplugUnknownError(_) => "Unknown error",
        };
        String::from_str(text)
    }
}

} // verus!
