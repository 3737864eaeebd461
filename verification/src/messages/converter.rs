//! The two refusals that converting between wire versions can end in.

use crate::errors::{ButtplugError, ButtplugMessageError};
use crate::messages::{ButtplugDeviceMessageType, ButtplugMessageType};
use vstd::prelude::*;

verus! {

/// The refusal of a message that only a server sends.
pub open spec fn unexpected_message(message_type: ButtplugMessageType) -> ButtplugError {
    ButtplugError::ButtplugMessageError(ButtplugMessageError::UnexpectedMessageType(message_type))
}

/// The refusal of a command that nothing in the newest version stands for.
pub open spec fn unsupported_message(message_type: ButtplugDeviceMessageType) -> ButtplugError {
    ButtplugError::ButtplugMessageError(
        ButtplugMessageError::DeviceNotSupportedMessageType(message_type),
    )
}

} // verus!
