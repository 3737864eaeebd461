//! The way of a piece of hardware from being found to being a live device:
//! it is held against the configuration, connected, asked for its model,
//! given what the model takes, set up, and registered. Each step waits on
//! the hardware and is the caller's to carry out; what the outcome of a
//! step leads to is decided here.

use crate::device::configuration_manager::{
    attributes_position, first_matching_specifier, gated_attributes, DeviceConfigurationManager,
};
use crate::device::specifier::ProtocolCommunicationSpecifier;
use crate::device::{ButtplugDevice, DeviceImpl, ProtocolAttributesIdentifier};
use crate::errors::{ButtplugDeviceError, ButtplugError};
use vstd::prelude::*;

verus! {

/// Where a piece of hardware stands on its way.
#[derive(Clone, Copy, Debug, PartialEq, Eq, Structural)]
pub enum DeviceDiscoveryState {
    /// A transport has found the hardware.
    Advertised,
    /// A protocol's specifier fits the hardware.
    Matched,
    /// The hardware is connected.
    Connected,
    /// The hardware has said which model it is.
    Identified,
    /// The protocol has something on record for the model.
    AttributesResolved,
    /// The hardware is set up, and the device is made.
    Ready,
    /// The device is live under an index.
    Registered,
    /// The hardware is gone, and the device with it.
    Removed,
    /// A step failed. Nothing is announced of hardware that ends here.
    Dropped,
}

/// What the caller has to do next with a piece of hardware.
#[derive(Clone, Copy, Debug, PartialEq, Eq, Structural)]
pub enum DiscoveryAction {
    /// Connect to the hardware.
    Connect,
    /// Ask the hardware which model it is.
    Identify,
    /// Look up what the model takes.
    ResolveAttributes,
    /// Set the hardware up.
    Initialize,
    /// Nothing: the way has ended, or the step was out of turn.
    Nothing,
}

/// A piece of hardware on its way to being a device.
#[derive(Clone, Debug, PartialEq, Eq)]
pub struct DeviceDiscovery {
    pub state: DeviceDiscoveryState,
    pub address: String,
    pub specifier: ProtocolCommunicationSpecifier,
    pub hardware: Option<DeviceImpl>,
    pub identifier: Option<ProtocolAttributesIdentifier>,
}

impl ButtplugDevice {
    /// What making a device comes to, given what connecting and asking for
    /// the model came to. Hardware that no protocol claims is no device and
    /// no error either. For hardware that a protocol claims, a failure to
    /// connect or to name the model is handed on, and so is it when the
    /// protocol has nothing on record for the model. The device that is made
    /// has no name of the user's choosing yet.
    pub open spec fn spec_try_create_device(
        configuration: &DeviceConfigurationManager,
        specifier: &ProtocolCommunicationSpecifier,
        hardware: Result<DeviceImpl, ButtplugError>,
        identifier: Result<ProtocolAttributesIdentifier, ButtplugError>,
        r: Result<Option<ButtplugDevice>, ButtplugError>,
    ) -> bool {
        match first_matching_specifier(configuration.communication_specifiers@, specifier, 0) {
            None => r matches Ok(None),
            Some(position) => match (hardware, identifier) {
                (Err(e), _) => r matches Err(failure) && failure == e,
                (Ok(_), Err(e)) => r matches Err(failure) && failure == e,
                (Ok(connected), Ok(model)) => {
                    let protocol = configuration.communication_specifiers@[position].protocol@;
                    match attributes_position(configuration.protocol_attributes@, protocol, &model) {
                        None => r matches Err(failure) && failure == ButtplugError::ButtplugDeviceError(
                            ButtplugDeviceError::ProtocolAttributesNotFound,
                        ),
                        Some(found) => {
                            let recorded = configuration.protocol_attributes@[found].attributes;
                            &&& r matches Ok(Some(device))
                            &&& device.well_formed()
                            &&& device.device == connected
                            &&& device.display_name is None
                            &&& device.protocol.device_attributes.display_name
                                == recorded.display_name
                            &&& device.protocol.protocol_identifier@ == protocol
                            &&& device.protocol.protocol_attributes_identifier == model
                            &&& device.protocol.device_attributes.name == recorded.name
                            &&& device.protocol.device_attributes.message_attributes@
                                == gated_attributes(
                                recorded.message_attributes@,
                                configuration.allow_raw_messages,
                                connected.endpoints@,
                            )
                            &&& forall|f: int|
                                0 <= f < device.protocol.last_scalars@.len()
                                    ==> device.protocol.last_scalars@[f] is None
                        },
                    }
                },
            },
        }
    }

    /// Makes the device for a piece of hardware, given what connecting to it
    /// and asking it for its model came to.
    pub fn try_create_device(
        configuration: &DeviceConfigurationManager,
        specifier: &ProtocolCommunicationSpecifier,
        hardware: Result<DeviceImpl, ButtplugError>,
        identifier: Result<ProtocolAttributesIdentifier, ButtplugError>,
    ) -> (r: Result<Option<ButtplugDevice>, ButtplugError>)
        requires
            configuration.well_formed(),
        ensures
            Self::spec_try_create_device(configuration, specifier, hardware, identifier, r),
    {
        // Hardware that no protocol claims is not an error: there is just
        // nothing to make of it. Once a protocol claims it, anything that
        // goes wrong is one.
        let protocol_builder = match configuration.protocol_builder(specifier) {
            Some(builder) => builder,
            None => {
                return Ok(None);
            },
        };
        let connected = match hardware {
            Ok(connected) => connected,
            Err(e) => {
                return Err(e);
            },
        };
        let model = match identifier {
            Ok(model) => model,
            Err(e) => {
                return Err(e);
            },
        };
        match protocol_builder.create(model, connected) {
            Some(device) => Ok(Some(device)),
            None => Err(
                ButtplugError::ButtplugDeviceError(ButtplugDeviceError::ProtocolAttributesNotFound),
            ),
        }
    }
}

impl DeviceDiscovery {
    /// Takes note of hardware that a transport has found.
    pub fn new(address: &str, specifier: ProtocolCommunicationSpecifier) -> (r: Self)
        ensures
            r.state == DeviceDiscoveryState::Advertised,
            r.address@ == address@,
            r.specifier == specifier,
            r.hardware is None,
            r.identifier is None,
    {
        DeviceDiscovery {
            state: DeviceDiscoveryState::Advertised,
            address: address.to_owned(),
            specifier,
            hardware: None,
            identifier: None,
        }
    }

    /// Whether hardware may be taken further: its address is welcome and a
    /// protocol's specifier fits it.
    pub open spec fn spec_claimed(&self, configuration: &DeviceConfigurationManager) -> bool {
        configuration.spec_address_allowed(self.address@) && first_matching_specifier(
            configuration.communication_specifiers@,
            &self.specifier,
            0,
        ) is Some
    }

    /// Holds hardware that was found against the configuration. Hardware
    /// whose address is welcome and that a protocol's specifier fits is to be
    /// connected; any other is dropped. Out of turn the step does nothing.
    pub fn match_specifier(&mut self, configuration: &DeviceConfigurationManager) -> (r: DiscoveryAction)
        ensures
            final(self).address == old(self).address,
            final(self).specifier == old(self).specifier,
            final(self).hardware == old(self).hardware,
            final(self).identifier == old(self).identifier,
            old(self).state != DeviceDiscoveryState::Advertised ==> r == DiscoveryAction::Nothing
                && final(self).state == old(self).state,
            old(self).state == DeviceDiscoveryState::Advertised && old(self).spec_claimed(configuration)
                ==> r == DiscoveryAction::Connect && final(self).state == DeviceDiscoveryState::Matched,
            old(self).state == DeviceDiscoveryState::Advertised && !old(self).spec_claimed(configuration)
                ==> r == DiscoveryAction::Nothing && final(self).state == DeviceDiscoveryState::Dropped,
    {
        match self.state {
            DeviceDiscoveryState::Advertised => {},
            _ => {
                return DiscoveryAction::Nothing;
            },
        }
        if configuration.address_allowed(self.address.as_str()) && configuration.protocol_builder(
            &self.specifier,
        ).is_some() {
            self.state = DeviceDiscoveryState::Matched;
            DiscoveryAction::Connect
        } else {
            self.state = DeviceDiscoveryState::Dropped;
            DiscoveryAction::Nothing
        }
    }

    /// Takes note of what connecting came to. Hardware that is connected is
    /// to be asked for its model; hardware that is not is dropped. Out of
    /// turn the step does nothing.
    pub fn connected(&mut self, result: Result<DeviceImpl, ButtplugError>) -> (r: DiscoveryAction)
        ensures
            final(self).address == old(self).address,
            final(self).specifier == old(self).specifier,
            final(self).identifier == old(self).identifier,
            old(self).state != DeviceDiscoveryState::Matched ==> r == DiscoveryAction::Nothing && *final(self) == *old(self),
            old(self).state == DeviceDiscoveryState::Matched ==> match result {
                Ok(hardware) => r == DiscoveryAction::Identify && final(self).state
                    == DeviceDiscoveryState::Connected && final(self).hardware == Some(hardware),
                Err(_) => r == DiscoveryAction::Nothing && final(self).state
                    == DeviceDiscoveryState::Dropped && final(self).hardware == old(self).hardware,
            },
    {
        match self.state {
            DeviceDiscoveryState::Matched => {},
            _ => {
                return DiscoveryAction::Nothing;
            },
        }
        match result {
            Ok(hardware) => {
                self.hardware = Some(hardware);
                self.state = DeviceDiscoveryState::Connected;
                DiscoveryAction::Identify
            },
            Err(_) => {
                self.state = DeviceDiscoveryState::Dropped;
                DiscoveryAction::Nothing
            },
        }
    }

    /// Whether the configuration has something on record for a model of the
    /// protocol that claimed the hardware.
    pub open spec fn spec_resolves(
        &self,
        configuration: &DeviceConfigurationManager,
        model: &ProtocolAttributesIdentifier,
    ) -> bool {
        match first_matching_specifier(configuration.communication_specifiers@, &self.specifier, 0) {
            Some(position) => attributes_position(
                configuration.protocol_attributes@,
                configuration.communication_specifiers@[position].protocol@,
                model,
            ) is Some,
            None => false,
        }
    }

    /// Takes note of what asking for the model came to. Hardware that named
    /// its model is identified, and what the model takes is to be looked up;
    /// hardware that did not is dropped. Out of turn the step does nothing.
    pub fn identified(&mut self, result: Result<ProtocolAttributesIdentifier, ButtplugError>) -> (r:
        DiscoveryAction)
        ensures
            final(self).address == old(self).address,
            final(self).specifier == old(self).specifier,
            final(self).hardware == old(self).hardware,
            old(self).state != DeviceDiscoveryState::Connected ==> r == DiscoveryAction::Nothing && *final(self)
                == *old(self),
            old(self).state == DeviceDiscoveryState::Connected ==> match result {
                Ok(model) => r == DiscoveryAction::ResolveAttributes && final(self).state
                    == DeviceDiscoveryState::Identified && final(self).identifier == Some(model),
                Err(_) => r == DiscoveryAction::Nothing && final(self).state
                    == DeviceDiscoveryState::Dropped && final(self).identifier == old(self).identifier,
            },
    {
        match self.state {
            DeviceDiscoveryState::Connected => {},
            _ => {
                return DiscoveryAction::Nothing;
            },
        }
        match result {
            Ok(model) => {
                self.identifier = Some(model);
                self.state = DeviceDiscoveryState::Identified;
                DiscoveryAction::ResolveAttributes
            },
            Err(_) => {
                self.state = DeviceDiscoveryState::Dropped;
                DiscoveryAction::Nothing
            },
        }
    }

    /// Looks up what the model of identified hardware takes. Where the
    /// protocol has something on record for the model, or for its default,
    /// the attributes are resolved, and the hardware is to be set up.
    /// Hardware for whose model nothing is on record is dropped. Out of turn
    /// the step does nothing.
    pub fn resolve_attributes(&mut self, configuration: &DeviceConfigurationManager) -> (r: DiscoveryAction)
        ensures
            final(self).address == old(self).address,
            final(self).specifier == old(self).specifier,
            final(self).hardware == old(self).hardware,
            final(self).identifier == old(self).identifier,
            old(self).state != DeviceDiscoveryState::Identified ==> r == DiscoveryAction::Nothing
                && final(self).state == old(self).state,
            old(self).state == DeviceDiscoveryState::Identified ==> (if old(self).identifier matches Some(
                model,
            ) && old(self).spec_resolves(configuration, &model) {
                r == DiscoveryAction::Initialize && final(self).state
                    == DeviceDiscoveryState::AttributesResolved
            } else {
                r == DiscoveryAction::Nothing && final(self).state == DeviceDiscoveryState::Dropped
            }),
    {
        match self.state {
            DeviceDiscoveryState::Identified => {},
            _ => {
                return DiscoveryAction::Nothing;
            },
        }
        let resolved = match &self.identifier {
            Some(model) => match configuration.protocol_builder(&self.specifier) {
                Some(builder) => builder.has_attributes_for(model),
                None => false,
            },
            None => false,
        };
        if resolved {
            self.state = DeviceDiscoveryState::AttributesResolved;
            DiscoveryAction::Initialize
        } else {
            self.state = DeviceDiscoveryState::Dropped;
            DiscoveryAction::Nothing
        }
    }

    /// Takes note of what setting the hardware up came to, and makes the
    /// device where it went well. The device that comes back is ready to be
    /// registered, and the hardware and the model have gone into it. Hardware
    /// that could not be set up is dropped. Out of turn the step does
    /// nothing.
    pub fn initialized(&mut self, configuration: &DeviceConfigurationManager, result: Result<(), ButtplugError>) -> (r:
        Option<ButtplugDevice>)
        requires
            configuration.well_formed(),
        ensures
            final(self).address == old(self).address,
            final(self).specifier == old(self).specifier,
            old(self).state != DeviceDiscoveryState::AttributesResolved ==> r is None && *final(self)
                == *old(self),
            old(self).state == DeviceDiscoveryState::AttributesResolved ==> {
                &&& final(self).hardware is None
                &&& final(self).identifier is None
                &&& final(self).state == (if r is Some {
                    DeviceDiscoveryState::Ready
                } else {
                    DeviceDiscoveryState::Dropped
                })
                &&& r is Some <==> {
                    &&& result is Ok
                    &&& old(self).hardware is Some
                    &&& old(self).identifier matches Some(model)
                    &&& old(self).spec_resolves(configuration, &model)
                }
                &&& r matches Some(device) ==> ButtplugDevice::spec_try_create_device(
                    configuration,
                    &old(self).specifier,
                    Ok(old(self).hardware->0),
                    Ok(old(self).identifier->0),
                    Ok(Some(device)),
                )
            },
    {
        match self.state {
            DeviceDiscoveryState::AttributesResolved => {},
            _ => {
                return None;
            },
        }
        self.state = DeviceDiscoveryState::Dropped;
        let hardware = self.hardware.take();
        let model = self.identifier.take();
        if result.is_err() {
            return None;
        }
        match (hardware, model) {
            (Some(hardware), Some(model)) => {
                match ButtplugDevice::try_create_device(
                    configuration,
                    &self.specifier,
                    Ok(hardware),
                    Ok(model),
                ) {
                    Ok(Some(device)) => {
                        self.state = DeviceDiscoveryState::Ready;
                        Some(device)
                    },
                    _ => None,
                }
            },
            _ => None,
        }
    }

    /// Takes note of whether the device manager took the device on. A
    /// device that it did not take on, because another with the same key is
    /// live already, is dropped without a word. Out of turn the step does
    /// nothing.
    pub fn registered(&mut self, taken: bool)
        ensures
            *final(self) == (DeviceDiscovery {
                state: if old(self).state == DeviceDiscoveryState::Ready {
                    if taken {
                        DeviceDiscoveryState::Registered
                    } else {
                        DeviceDiscoveryState::Dropped
                    }
                } else {
                    old(self).state
                },
                ..*old(self)
            }),
    {
        match self.state {
            DeviceDiscoveryState::Ready => {
                self.state = if taken {
                    DeviceDiscoveryState::Registered
                } else {
                    DeviceDiscoveryState::Dropped
                };
            },
            _ => {},
        }
    }

    /// Takes note that the hardware of a live device is gone. Out of turn
    /// the step does nothing.
    pub fn removed(&mut self)
        ensures
            *final(self) == (DeviceDiscovery {
                state: if old(self).state == DeviceDiscoveryState::Registered {
                    DeviceDiscoveryState::Removed
                } else {
                    old(self).state
                },
                ..*old(self)
            }),
    {
        match self.state {
            DeviceDiscoveryState::Registered => {
                self.state = DeviceDiscoveryState::Removed;
            },
            _ => {},
        }
    }
}

} // verus!
