//! A live device: a connection to hardware together with the state of the
//! protocol that speaks to it.

use crate::device::protocol::{result_is, ButtplugProtocol, ProtocolResult};
use crate::device::{
    form_device_identifier, spec_device_identifier, ButtplugDeviceCommand, DeviceImpl,
    ProtocolAttributesIdentifier, ServerDeviceIdentifier,
};
use crate::errors::ButtplugDeviceError;
use crate::messages::{
    ButtplugDeviceCommandMessageUnion, ButtplugDeviceMessageType, DeviceMessageAttributes,
};
use vstd::prelude::*;
use vstd::string::StringExecFns;

verus! {

/// A connection to hardware, the protocol that speaks to it, the name a user
/// gave the device, and the one-line form of the device's key.
#[derive(Clone, Debug, Eq)]
pub struct ButtplugDevice {
    pub protocol: ButtplugProtocol,
    pub device: DeviceImpl,
    pub display_name: Option<String>,
    pub device_identifier: String,
}

impl vstd::std_specs::cmp::PartialEqSpecImpl for ButtplugDevice {
    open spec fn obeys_eq_spec() -> bool {
        true
    }

    open spec fn eq_spec(&self, other: &ButtplugDevice) -> bool {
        self.same_identifier(other)
    }
}

impl PartialEq for ButtplugDevice {
    /// Two devices are equal when they have the same key, whatever else may
    /// differ between them.
    fn eq(&self, other: &ButtplugDevice) -> (r: bool) {
        self.device.address == other.device.address && self.protocol.protocol_identifier
            == other.protocol.protocol_identifier && self.protocol.protocol_attributes_identifier
            == other.protocol.protocol_attributes_identifier
    }
}

impl ButtplugDevice {
    /// Whether the protocol's state is in order and the one-line key is the
    /// one that belongs to protocol, model and address.
    pub open spec fn well_formed(&self) -> bool {
        &&& self.protocol.well_formed()
        &&& self.device_identifier@ == spec_device_identifier(
            self.protocol.protocol_identifier@,
            self.protocol.protocol_attributes_identifier,
            self.device.address@,
        )
    }

    /// Says whether the device is in order.
    pub fn is_well_formed(&self) -> (r: bool)
        ensures
            r == self.well_formed(),
    {
        let expected = form_device_identifier(
            self.protocol.protocol_identifier(),
            self.protocol.protocol_attributes_identifier(),
            self.device.address(),
        );
        self.protocol.is_well_formed() && self.device_identifier == expected
    }

    /// The key of the device: address, protocol and model.
    pub open spec fn spec_identifier(&self) -> ServerDeviceIdentifier {
        ServerDeviceIdentifier {
            address: self.device.address,
            protocol: self.protocol.protocol_identifier,
            attributes_identifier: self.protocol.protocol_attributes_identifier,
        }
    }

    /// Whether two devices have the same key.
    pub open spec fn same_identifier(&self, other: &ButtplugDevice) -> bool {
        self.spec_identifier().same(&other.spec_identifier())
    }

    /// Puts a protocol and a connection together into a device without a
    /// user's name.
    pub fn new(protocol: ButtplugProtocol, device: DeviceImpl) -> (r: Self)
        requires
            protocol.well_formed(),
        ensures
            r.well_formed(),
            r.protocol == protocol,
            r.device == device,
            r.display_name is None,
    {
        let device_identifier = form_device_identifier(
            protocol.protocol_identifier(),
            protocol.protocol_attributes_identifier(),
            device.address(),
        );
        ButtplugDevice { protocol, device, display_name: None, device_identifier }
    }

    /// Returns the one-line form of the device's key.
    pub fn device_identifier(&self) -> (r: &str)
        ensures
            r@ == self.device_identifier@,
    {
        self.device_identifier.as_str()
    }

    /// Returns the key of the device.
    pub fn identifier(&self) -> (r: ServerDeviceIdentifier)
        ensures
            r == self.spec_identifier(),
    {
        ServerDeviceIdentifier {
            address: self.device.address.clone(),
            protocol: self.protocol.protocol_identifier.clone(),
            attributes_identifier: self.protocol.protocol_attributes_identifier.duplicate(),
        }
    }

    /// Returns the address of the hardware.
    pub fn device_impl_address(&self) -> (r: &str)
        ensures
            r@ == self.device.address@,
    {
        self.device.address()
    }

    /// Returns the name of the protocol.
    pub fn protocol_identifier(&self) -> (r: &str)
        ensures
            r@ == self.protocol.protocol_identifier@,
    {
        self.protocol.protocol_identifier()
    }

    /// Returns the model within the protocol.
    pub fn protocol_attributes_identifier(&self) -> (r: &ProtocolAttributesIdentifier)
        ensures
            r == &self.protocol.protocol_attributes_identifier,
    {
        self.protocol.protocol_attributes_identifier()
    }

    /// Gives the device a name of the user's choosing.
    pub fn set_display_name(&mut self, name: &str)
        ensures
            final(self).display_name matches Some(given) && given@ == name@,
            final(self).protocol == old(self).protocol,
            final(self).device == old(self).device,
            final(self).device_identifier == old(self).device_identifier,
    {
        self.display_name = Some(name.to_owned());
    }

    /// Returns the name the user gave the device, if any.
    pub fn display_name(&self) -> (r: Option<String>)
        ensures
            r == self.display_name,
    {
        match &self.display_name {
            Some(name) => Some(name.clone()),
            None => None,
        }
    }

    /// Whether raw commands are open on the device.
    pub open spec fn raw_allowed(&self) -> bool {
        self.protocol.device_attributes.message_attributes@.supports(
            ButtplugDeviceMessageType::RawSubscribeCmd,
        )
    }

    /// The name the device goes by: the model's name, marked where raw
    /// commands are open so that the privilege shows.
    pub open spec fn spec_name(&self) -> Seq<char> {
        if self.raw_allowed() {
            self.protocol.device_attributes.name@ + " (Raw Messages Allowed)"@
        } else {
            self.protocol.device_attributes.name@
        }
    }

    /// Returns the name the device goes by.
    pub fn name(&self) -> (r: String)
        ensures
            r@ == self.spec_name(),
    {
        // Raw commands are open on every endpoint or on none, so any one raw
        // command tells.
        if self.protocol.supports_message(ButtplugDeviceMessageType::RawSubscribeCmd).is_ok() {
            let mut name = String::from_str(self.protocol.name());
            name.append(" (Raw Messages Allowed)");
            name
        } else {
            String::from_str(self.protocol.name())
        }
    }

    /// Asks to end the connection.
    pub fn disconnect(&self) -> (r: Result<ButtplugDeviceCommand, ButtplugDeviceError>)
        ensures
            r == (if self.device.connected {
                Ok::<ButtplugDeviceCommand, ButtplugDeviceError>(ButtplugDeviceCommand::Disconnect)
            } else {
                Err(ButtplugDeviceError::DeviceNotConnected)
            }),
    {
        self.device.disconnect()
    }

    /// Returns what the device takes.
    pub fn message_attributes(&self) -> (r: DeviceMessageAttributes)
        ensures
            r@ == self.protocol.device_attributes.message_attributes@,
    {
        self.protocol.device_attributes.message_attributes.duplicate()
    }

    /// Hands a command to the device's protocol. What comes back is what has
    /// to be told to the hardware for the command to be carried out; the
    /// device remembers the levels it sends.
    pub fn parse_message(&mut self, message: ButtplugDeviceCommandMessageUnion) -> (r: ProtocolResult)
        requires
            old(self).well_formed(),
        ensures
            final(self).well_formed(),
            final(self).device == old(self).device,
            final(self).display_name == old(self).display_name,
            final(self).device_identifier == old(self).device_identifier,
            final(self).protocol.protocol_identifier == old(self).protocol.protocol_identifier,
            final(self).protocol.protocol_attributes_identifier
                == old(self).protocol.protocol_attributes_identifier,
            final(self).protocol.device_attributes == old(self).protocol.device_attributes,
            final(self).protocol.last_scalars@ == old(self).protocol.spec_levels_after_command(
                &old(self).device,
                message,
            ),
            result_is(r, old(self).protocol.spec_handle_command(&old(self).device, message)),
    {
        self.protocol.handle_command(&self.device, message)
    }
}

} // verus!
