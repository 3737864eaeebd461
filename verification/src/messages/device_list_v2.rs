use crate::errors::ButtplugMessageError;
use crate::messages::{
    entries_view, legacy_attributes, ButtplugMessage, ButtplugMessageSpecVersion,
    ButtplugMessageValidator, DeviceList, DeviceMessageInfo, MessageAttributes,
};
use vstd::prelude::*;

verus! {

/// One entry of the device list as the older wire versions have it.
#[derive(Clone, Debug, PartialEq, Eq)]
pub struct DeviceMessageInfoV2 {
    /// The index the device is addressed by.
    pub device_index: u32,
    /// The name the device is shown under.
    pub device_name: String,
    /// The commands the device takes, as the older versions say it.
    pub device_messages: Vec<MessageAttributes>,
}

impl DeviceMessageInfoV2 {
    /// Whether this entry says to a client of an older wire version what
    /// `info` says.
    pub open spec fn downgrades(&self, info: DeviceMessageInfo, version: ButtplugMessageSpecVersion) -> bool {
        &&& self.device_index == info.device_index
        &&& self.device_name == info.device_name
        &&& entries_view(self.device_messages@) == legacy_attributes(info.device_messages@, version)
    }
}

/// Answers a client of an older wire version that asked for the device list.
#[derive(Clone, Debug, PartialEq, Eq)]
pub struct DeviceListV2 {
    /// The id that ties a reply to its request.
    pub id: u32,
    /// The live devices, in no particular order.
    pub devices: Vec<DeviceMessageInfoV2>,
}

impl DeviceListV2 {
    /// Whether this message says to a client of an older wire version what
    /// `list` says: the same id, and entry for entry the same devices.
    pub open spec fn downgrades(&self, list: DeviceList, version: ButtplugMessageSpecVersion) -> bool {
        &&& self.id == list.id
        &&& self.devices@.len() == list.devices@.len()
        &&& forall|i: int|
            0 <= i < self.devices@.len() ==> (#[trigger] self.devices@[i]).downgrades(
                list.devices@[i],
                version,
            )
    }

    /// Says to a client of an older wire version what `list` says.
    pub fn downgrade(list: &DeviceList, version: ButtplugMessageSpecVersion) -> (r: Self)
        ensures
            r.downgrades(*list, version),
    {
        let mut devices: Vec<DeviceMessageInfoV2> = Vec::new();
        let mut i: usize = 0;
        while i < list.devices.len()
            invariant
                i <= list.devices@.len(),
                devices@.len() == i,
                forall|j: int|
                    0 <= j < i ==> (#[trigger] devices@[j]).downgrades(list.devices@[j], version),
            decreases list.devices@.len() - i,
        {
            let info = &list.devices[i];
            devices.push(
                DeviceMessageInfoV2 {
                    device_index: info.device_index,
                    device_name: info.device_name.clone(),
                    device_messages: info.device_messages.legacy(version),
                },
            );
            i += 1;
        }
        DeviceListV2 { id: list.id, devices }
    }
}

impl ButtplugMessage for DeviceListV2 {
    open spec fn spec_id(&self) -> u32 {
        self.id
    }

    fn id(&self) -> (r: u32) {
        self.id
    }

    fn set_id(&mut self, id: u32)
        ensures
            *final(self) == (DeviceListV2 { id, ..*old(self) }),
    {
        self.id = id;
    }
}

impl ButtplugMessageValidator for DeviceListV2 {
    /// The server sends this message, in reply or unasked: any id is taken.
    open spec fn spec_is_valid(&self) -> Result<(), ButtplugMessageError> {
        Ok(())
    }

    fn is_valid(&self) -> (r: Result<(), ButtplugMessageError>) {
        Ok(())
    }
}

} // verus!
