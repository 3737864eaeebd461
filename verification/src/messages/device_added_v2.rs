use crate::errors::ButtplugMessageError;
use crate::messages::{
    entries_view, is_system_id, legacy_attributes, spec_is_system_id, ButtplugDeviceMessage,
    ButtplugMessage, ButtplugMessageSpecVersion, ButtplugMessageValidator, DeviceAdded,
    MessageAttributes,
};
use vstd::prelude::*;

verus! {

/// Tells a client of an older wire version that a device has become live.
#[derive(Clone, Debug, PartialEq, Eq)]
pub struct DeviceAddedV2 {
    /// The id that ties a reply to its request.
    pub id: u32,
    /// The index of the device.
    pub device_index: u32,
    /// The name the device is shown under.
    pub device_name: String,
    /// The commands the device takes, as the older versions say it.
    pub device_messages: Vec<MessageAttributes>,
}

impl DeviceAddedV2 {
    /// Creates the message under the reserved id.
    pub fn new(device_index: u32, device_name: &str, device_messages: Vec<MessageAttributes>) -> (r:
        Self)
        ensures
            r.id == 0,
            r.device_index == device_index,
            r.device_name@ == device_name@,
            r.device_messages == device_messages,
    {
        DeviceAddedV2 { id: 0, device_index, device_name: device_name.to_owned(), device_messages }
    }

    /// Whether this message says to a client of an older wire version what
    /// `added` says: the same id, device and name, and of what the device
    /// takes as much as the version can say.
    pub open spec fn downgrades(&self, added: DeviceAdded, version: ButtplugMessageSpecVersion) -> bool {
        &&& self.id == added.id
        &&& self.device_index == added.device_index
        &&& self.device_name == added.device_name
        &&& entries_view(self.device_messages@) == legacy_attributes(added.device_messages@, version)
    }

    /// Says to a client of an older wire version what `added` says.
    pub fn downgrade(added: DeviceAdded, version: ButtplugMessageSpecVersion) -> (r: Self)
        ensures
            r.downgrades(added, version),
    {
        let device_messages = added.device_messages.legacy(version);
        DeviceAddedV2 {
            id: added.id,
            device_index: added.device_index,
            device_name: added.device_name,
            device_messages,
        }
    }
}

impl ButtplugMessage for DeviceAddedV2 {
    open spec fn spec_id(&self) -> u32 {
        self.id
    }

    fn id(&self) -> (r: u32) {
        self.id
    }

    fn set_id(&mut self, id: u32)
        ensures
            *final(self) == (DeviceAddedV2 { id, ..*old(self) }),
    {
        self.id = id;
    }
}

impl ButtplugDeviceMessage for DeviceAddedV2 {
    open spec fn spec_device_index(&self) -> u32 {
        self.device_index
    }

    fn device_index(&self) -> (r: u32) {
        self.device_index
    }

    fn set_device_index(&mut self, device_index: u32)
        ensures
            *final(self) == (DeviceAddedV2 { device_index, ..*old(self) }),
    {
        self.device_index = device_index;
    }
}

impl ButtplugMessageValidator for DeviceAddedV2 {
    /// The server sends this message unasked, so only the reserved id is taken.
    open spec fn spec_is_valid(&self) -> Result<(), ButtplugMessageError> {
        spec_is_system_id(self.id)
    }

    fn is_valid(&self) -> (r: Result<(), ButtplugMessageError>) {
        is_system_id(self.id)
    }
}

} // verus!
