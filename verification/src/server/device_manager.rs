//! The device manager: it keeps the devices that are live, each under its
//! index, routes commands to them and answers what is asked about them.

use crate::device::configuration_manager::{
    first_reservation_for, lemma_reservation, spec_is_reserved, DeviceConfigurationManager,
    DeviceConfigurationManagerBuilder, ReservedIndex,
};
use crate::device::protocol::{ProtocolCommand, ProtocolDeviceAttributes};
use crate::device::specifier::ProtocolCommunicationSpecifier;
use crate::device::{
    ButtplugDevice, ButtplugDeviceEvent, ProtocolAttributesIdentifier, ServerDeviceIdentifier,
};
use crate::errors::{
    ButtplugDeviceError, ButtplugError, ButtplugMessageError, ButtplugServerError,
};
use crate::messages::{
    vibrator_count, wire_count, ButtplugDeviceCommandMessageUnion,
    ButtplugDeviceManagerMessageUnion, ButtplugDeviceMessage, ButtplugMessage,
    ButtplugMessageUnion, ButtplugSystemMessageUnion, DeviceAdded, DeviceList, DeviceMessageInfo,
    DeviceRemoved, OkMessage, RawReading, ScanningFinished, StopDeviceCmd,
};
use crate::server::comm_manager::{
    HardwareCommunicationManager, HardwareCommunicationManagerBuilder,
};
use crate::server::device_map::{
    contains_device, device_indexes, get_device, insert_device, live_devices, new_device_map,
    remove_device,
};
use dashmap::DashMap;
use std::collections::hash_map::RandomState;
use vstd::prelude::*;

verus! {

/// What is known of a live device besides what it takes.
#[derive(Clone, Debug, PartialEq, Eq)]
pub struct ServerDeviceInfo {
    pub identifier: ServerDeviceIdentifier,
    pub display_name: Option<String>,
}

/// Something for the caller to carry out.
#[derive(Clone, Debug, PartialEq, Eq)]
pub enum ManagerAction {
    /// Tell the device under this index what the commands say, in their
    /// order. Where the device cannot be told, that is the answer to the
    /// request.
    Device { index: u32, commands: Vec<ProtocolCommand> },
    /// Tell the device under this index to stop, by what the commands say, in
    /// their order. The request is answered once every device has been tried,
    /// whether or not it could be told.
    Stop { index: u32, commands: Vec<ProtocolCommand> },
    /// Have the transport at this position look for devices.
    StartScanning { manager: usize },
    /// Have the transport at this position stop looking.
    StopScanning { manager: usize },
}

/// What the manager makes of a request: the reply that is due once the
/// actions are carried out, and the actions.
#[derive(Clone, Debug, PartialEq, Eq)]
pub struct ManagerOutcome {
    pub reply: ButtplugSystemMessageUnion,
    pub actions: Vec<ManagerAction>,
}

/// What the manager knows of a transport: its name, whether it can look for
/// devices at all, and whether it is looking right now.
#[derive(Clone, Debug, PartialEq, Eq)]
pub struct CommunicationManagerState {
    pub name: String,
    pub can_scan: bool,
    pub scanning: bool,
}

/// Whether some live device has this key.
pub open spec fn has_identifier(
    devices: Map<u32, ButtplugDevice>,
    identifier: ServerDeviceIdentifier,
) -> bool {
    exists|index: u32| #[trigger]
        devices.dom().contains(index) && devices[index].spec_identifier().same(&identifier)
}

/// Whether no two live devices have the same key.
pub open spec fn identifiers_unique(devices: Map<u32, ButtplugDevice>) -> bool {
    forall|a: u32, b: u32|
        #![trigger devices[a], devices[b]]
        devices.dom().contains(a) && devices.dom().contains(b) && a != b ==> !devices[a].same_identifier(
            &devices[b],
        )
}

/// Whether every live device stands where the reservations want it: under
/// the index kept for it if one is, and under an index kept for nobody
/// otherwise.
pub open spec fn reservations_kept(
    devices: Map<u32, ButtplugDevice>,
    reserved: Seq<ReservedIndex>,
) -> bool {
    forall|index: u32| #[trigger]
        devices.dom().contains(index) ==> match first_reservation_for(
            reserved,
            &devices[index].spec_identifier(),
            0,
        ) {
            Some(position) => reserved[position].index == index,
            None => !spec_is_reserved(reserved, index),
        }
}

/// Whether an index is free for a device that has none kept for it: it is
/// at least one, no device stands under it, and it is kept for nobody.
pub open spec fn index_free(
    devices: Map<u32, ButtplugDevice>,
    reserved: Seq<ReservedIndex>,
    index: u32,
) -> bool {
    index >= 1 && !devices.dom().contains(index) && !spec_is_reserved(reserved, index)
}

/// Whether `index` is the index that a new device with this key gets: the
/// one kept for it, or else the smallest free one.
pub open spec fn is_assigned_index(
    devices: Map<u32, ButtplugDevice>,
    reserved: Seq<ReservedIndex>,
    identifier: ServerDeviceIdentifier,
    index: u32,
) -> bool {
    match first_reservation_for(reserved, &identifier, 0) {
        Some(position) => reserved[position].index == index,
        None => index_free(devices, reserved, index) && forall|smaller: u32|
            1 <= smaller < index ==> !#[trigger] index_free(devices, reserved, smaller),
    }
}

/// Whether there is an index for a new device with this key.
pub open spec fn index_available(
    devices: Map<u32, ButtplugDevice>,
    reserved: Seq<ReservedIndex>,
    identifier: ServerDeviceIdentifier,
) -> bool {
    first_reservation_for(reserved, &identifier, 0) is Some || exists|index: u32| #[trigger]
        index_free(devices, reserved, index)
}

/// Whether the live devices are in order: each one is, no two have the same
/// key, and each stands where the reservations want it.
pub open spec fn devices_in_order(
    devices: Map<u32, ButtplugDevice>,
    reserved: Seq<ReservedIndex>,
) -> bool {
    &&& forall|index: u32| #[trigger] devices.dom().contains(index) ==> devices[index].well_formed()
    &&& identifiers_unique(devices)
    &&& reservations_kept(devices, reserved)
}

/// Devices that are in order stay in order when one index changes hands and
/// nothing else does, provided that what stands under the index afterwards,
/// if anything, is a device in order, has a key that no device under another
/// index has, and stands where the reservations want it.
proof fn lemma_stays_in_order(
    before: Map<u32, ButtplugDevice>,
    after: Map<u32, ButtplugDevice>,
    reserved: Seq<ReservedIndex>,
    changed: u32,
)
    requires
        devices_in_order(before, reserved),
        forall|k: u32|
            k != changed && #[trigger] after.dom().contains(k) ==> before.dom().contains(k) && after[k]
                == before[k],
        after.dom().contains(changed) ==> {
            &&& after[changed].well_formed()
            &&& forall|other: u32|
                other != changed && #[trigger] before.dom().contains(other)
                    ==> !before[other].same_identifier(&after[changed])
            &&& match first_reservation_for(reserved, &after[changed].spec_identifier(), 0) {
                Some(position) => reserved[position].index == changed,
                None => !spec_is_reserved(reserved, changed),
            }
        },
    ensures
        devices_in_order(after, reserved),
{
    assert forall|a: u32, b: u32|
        #![trigger after[a], after[b]]
        after.dom().contains(a) && after.dom().contains(b) && a != b implies !after[a].same_identifier(
        &after[b],
    ) by {
        if a == changed {
            assert(before.dom().contains(b));
        } else if b == changed {
            assert(before.dom().contains(a));
        } else {
            assert(before.dom().contains(a));
            assert(before.dom().contains(b));
        }
    }
    assert forall|k: u32| #[trigger] after.dom().contains(k) implies match first_reservation_for(
        reserved,
        &after[k].spec_identifier(),
        0,
    ) {
        Some(position) => reserved[position].index == k,
        None => !spec_is_reserved(reserved, k),
    } by {
        if k != changed {
            assert(before.dom().contains(k));
        }
    }
    assert forall|k: u32| #[trigger] after.dom().contains(k) implies after[k].well_formed() by {
        if k != changed {
            assert(before.dom().contains(k));
        }
    }
}

/// The device manager.
pub struct ServerDeviceManager {
    devices: DashMap<u32, ButtplugDevice, RandomState>,
    configuration: DeviceConfigurationManager,
    comm_managers: Vec<CommunicationManagerState>,
}

impl ServerDeviceManager {
    /// The live devices, each under its index.
    pub closed spec fn devices(&self) -> Map<u32, ButtplugDevice> {
        live_devices(self.devices)
    }

    /// The configuration the manager works with.
    pub closed spec fn configuration(&self) -> DeviceConfigurationManager {
        self.configuration
    }

    /// The transports, in the order they were registered.
    pub closed spec fn transports(&self) -> Seq<CommunicationManagerState> {
        self.comm_managers@
    }

    /// What holds of the manager at all times: the configuration is in
    /// order, every live device is, no two live devices have the same key,
    /// and every live device stands where the reservations want it.
    pub open spec fn well_formed(&self) -> bool {
        &&& self.configuration().well_formed()
        &&& devices_in_order(self.devices(), self.configuration().reserved_indexes@)
    }

    /// Creates a manager without devices.
    pub fn new(configuration: DeviceConfigurationManager, comm_managers: Vec<CommunicationManagerState>) -> (r:
        Self)
        requires
            configuration.well_formed(),
        ensures
            r.well_formed(),
            r.configuration() == configuration,
            r.transports() == comm_managers@,
            r.devices() =~= Map::empty(),
    {
        ServerDeviceManager { devices: new_device_map(), configuration, comm_managers }
    }

    /// Returns the configuration the manager works with.
    pub fn device_configuration(&self) -> (r: &DeviceConfigurationManager)
        ensures
            *r == self.configuration(),
    {
        &self.configuration
    }

    /// Says whether some live device has this key.
    fn holds_identifier(&self, identifier: &ServerDeviceIdentifier) -> (r: bool)
        ensures
            r == has_identifier(self.devices(), *identifier),
    {
        let indexes = device_indexes(&self.devices);
        let mut i: usize = 0;
        while i < indexes.len()
            invariant
                i <= indexes@.len(),
                forall|index: u32|
                    indexes@.contains(index) <==> self.devices().dom().contains(index),
                forall|j: int|
                    0 <= j < i ==> !self.devices()[#[trigger] indexes@[j]].spec_identifier().same(
                        identifier,
                    ),
            decreases indexes@.len() - i,
        {
            let index = indexes[i];
            assert(indexes@.contains(index));
            match get_device(&self.devices, index) {
                Some(device) => {
                    if device.identifier() == *identifier {
                        return true;
                    }
                },
                None => {},
            }
            i += 1;
        }
        assert forall|index: u32| #[trigger]
            self.devices().dom().contains(index) implies !self.devices()[index].spec_identifier().same(
            identifier,
        ) by {
            assert(indexes@.contains(index));
            let j = choose|j: int| 0 <= j < indexes@.len() && indexes@[j] == index;
            assert(!self.devices()[indexes@[j]].spec_identifier().same(identifier));
        }
        false
    }

    /// Finds the smallest free index.
    fn smallest_free_index(&self) -> (r: Option<u32>)
        ensures
            r matches Some(index) ==> index_free(
                self.devices(),
                self.configuration().reserved_indexes@,
                index,
            ) && forall|smaller: u32|
                1 <= smaller < index ==> !#[trigger] index_free(
                    self.devices(),
                    self.configuration().reserved_indexes@,
                    smaller,
                ),
            r is None ==> forall|index: u32|
                !#[trigger] index_free(self.devices(), self.configuration().reserved_indexes@, index),
    {
        let mut index: u32 = 1;
        loop
            invariant
                index >= 1,
                forall|smaller: u32|
                    1 <= smaller < index ==> !#[trigger] index_free(
                        self.devices(),
                        self.configuration().reserved_indexes@,
                        smaller,
                    ),
            decreases u32::MAX - index,
        {
            if !contains_device(&self.devices, index) && !self.configuration.is_reserved(index) {
                return Some(index);
            }
            if index == u32::MAX {
                return None;
            }
            index += 1;
        }
    }

    /// Takes a device on: it becomes live under the index kept for it, or
    /// else under the smallest free index, and the message that announces it
    /// comes back. A device whose key a live device already has is turned
    /// away without a word, and so is one for which no index is left.
    pub fn add_device(&mut self, device: ButtplugDevice) -> (r: Option<DeviceAdded>)
        requires
            old(self).well_formed(),
            device.well_formed(),
        ensures
            final(self).well_formed(),
            final(self).configuration() == old(self).configuration(),
            final(self).transports() == old(self).transports(),
            r is Some <==> !has_identifier(old(self).devices(), device.spec_identifier())
                && index_available(
                old(self).devices(),
                old(self).configuration().reserved_indexes@,
                device.spec_identifier(),
            ),
            r is None ==> final(self).devices() == old(self).devices(),
            r matches Some(added) ==> {
                &&& added.id == 0
                &&& is_assigned_index(
                    old(self).devices(),
                    old(self).configuration().reserved_indexes@,
                    device.spec_identifier(),
                    added.device_index,
                )
                &&& !old(self).devices().dom().contains(added.device_index)
                &&& final(self).devices() == old(self).devices().insert(added.device_index, device)
                &&& added.device_name@ == device.spec_name()
                &&& added.device_messages@ == device.protocol.device_attributes.message_attributes@
            },
    {
        let identifier = device.identifier();
        if self.holds_identifier(&identifier) {
            return None;
        }
        let ghost reserved = self.configuration().reserved_indexes@;
        proof {
            lemma_reservation(reserved, &identifier, 0);
        }
        let index = match self.configuration.reserved_index(&identifier) {
            Some(index) => {
                proof {
                    let position = first_reservation_for(reserved, &identifier, 0)->0;
                    if self.devices().dom().contains(index) {
                        let other = self.devices()[index].spec_identifier();
                        lemma_reservation(reserved, &other, 0);
                        assert(!other.same(&identifier));
                        match first_reservation_for(reserved, &other, 0) {
                            Some(q) => {
                                assert(reserved[q].index == index);
                                assert(q != position);
                                if q < position {
                                    assert(reserved[q].index != reserved[position].index);
                                } else {
                                    assert(reserved[position].index != reserved[q].index);
                                }
                            },
                            None => {
                                assert(reserved[position].index == index);
                                assert(spec_is_reserved(reserved, index));
                            },
                        }
                    }
                }
                index
            },
            None => match self.smallest_free_index() {
                Some(index) => index,
                None => {
                    return None;
                },
            },
        };
        let added = DeviceAdded::new(index, device.name().as_str(), device.message_attributes());
        let _ = insert_device(&mut self.devices, index, device);
        proof {
            assert(index_free(old(self).devices(), reserved, index) || first_reservation_for(
                reserved,
                &identifier,
                0,
            ) is Some);
            lemma_stays_in_order(old(self).devices(), self.devices(), reserved, index);
        }
        Some(added)
    }

    /// Lets a device go: nothing stands under the index afterwards, and the
    /// message that says so comes back if a device stood there.
    pub fn remove_device(&mut self, index: u32) -> (r: Option<DeviceRemoved>)
        requires
            old(self).well_formed(),
        ensures
            final(self).well_formed(),
            final(self).configuration() == old(self).configuration(),
            final(self).transports() == old(self).transports(),
            final(self).devices() == old(self).devices().remove(index),
            r == (if old(self).devices().dom().contains(index) {
                Some(DeviceRemoved { id: 0, device_index: index })
            } else {
                None
            }),
    {
        let removed = remove_device(&mut self.devices, index);
        proof {
            lemma_stays_in_order(
                old(self).devices(),
                self.devices(),
                self.configuration().reserved_indexes@,
                index,
            );
        }
        match removed {
            Some(_) => Some(DeviceRemoved::new(index)),
            None => None,
        }
    }

    /// Says what is known of the device under an index.
    pub fn device_info(&self, index: u32) -> (r: Result<ServerDeviceInfo, ButtplugDeviceError>)
        ensures
            !self.devices().dom().contains(index) ==> r == Err::<
                ServerDeviceInfo,
                ButtplugDeviceError,
            >(ButtplugDeviceError::DeviceNotAvailable(index)),
            self.devices().dom().contains(index) ==> r == Ok::<ServerDeviceInfo, ButtplugDeviceError>(
                ServerDeviceInfo {
                    identifier: self.devices()[index].spec_identifier(),
                    display_name: self.devices()[index].display_name,
                },
            ),
    {
        match get_device(&self.devices, index) {
            Some(device) => Ok(
                ServerDeviceInfo {
                    identifier: device.identifier(),
                    display_name: device.display_name(),
                },
            ),
            None => Err(ButtplugDeviceError::DeviceNotAvailable(index)),
        }
    }
}

/// What the first `upto` transports are asked when scanning is to begin or
/// to end: each one that can look for devices is asked, in the order of the
/// transports.
pub open spec fn scanning_actions(
    transports: Seq<CommunicationManagerState>,
    upto: int,
    start: bool,
) -> Seq<ManagerAction>
    decreases upto,
{
    if upto <= 0 || upto > transports.len() {
        Seq::empty()
    } else if transports[upto - 1].can_scan {
        scanning_actions(transports, upto - 1, start).push(
            if start {
                ManagerAction::StartScanning { manager: (upto - 1) as usize }
            } else {
                ManagerAction::StopScanning { manager: (upto - 1) as usize }
            },
        )
    } else {
        scanning_actions(transports, upto - 1, start)
    }
}

/// The transports once scanning has begun: each one that can look for
/// devices is looking.
pub open spec fn transports_scanning(transports: Seq<CommunicationManagerState>) -> Seq<
    CommunicationManagerState,
> {
    Seq::new(
        transports.len(),
        |i: int|
            CommunicationManagerState {
                scanning: transports[i].scanning || transports[i].can_scan,
                ..transports[i]
            },
    )
}

/// Whether any transport is looking for devices.
pub open spec fn any_scanning(transports: Seq<CommunicationManagerState>) -> bool {
    exists|i: int| 0 <= i < transports.len() && (#[trigger] transports[i]).scanning
}

/// The device as it is once a command has been handled: what its features
/// were last told is brought up to date, and nothing else changes.
pub open spec fn device_after(
    before: ButtplugDevice,
    after: ButtplugDevice,
    message: ButtplugDeviceCommandMessageUnion,
) -> bool {
    &&& after.device == before.device
    &&& after.display_name == before.display_name
    &&& after.device_identifier == before.device_identifier
    &&& after.protocol.protocol_identifier == before.protocol.protocol_identifier
    &&& after.protocol.protocol_attributes_identifier == before.protocol.protocol_attributes_identifier
    &&& after.protocol.device_attributes == before.protocol.device_attributes
    &&& after.protocol.last_scalars@ == before.protocol.spec_levels_after_command(
        &before.device,
        message,
    )
}

/// The command that stops the device under an index.
pub open spec fn stop_command(index: u32) -> ButtplugDeviceCommandMessageUnion {
    ButtplugDeviceCommandMessageUnion::StopDeviceCmd(StopDeviceCmd { id: 1, device_index: index })
}

impl ServerDeviceManager {
    /// Puts a device back under its index after a command has changed what
    /// it remembers.
    fn update_device(&mut self, index: u32, device: ButtplugDevice)
        requires
            old(self).well_formed(),
            old(self).devices().dom().contains(index),
            device.well_formed(),
            device.spec_identifier() == old(self).devices()[index].spec_identifier(),
        ensures
            final(self).well_formed(),
            final(self).configuration() == old(self).configuration(),
            final(self).transports() == old(self).transports(),
            final(self).devices() == old(self).devices().insert(index, device),
    {
        let _ = insert_device(&mut self.devices, index, device);
        proof {
            lemma_stays_in_order(
                old(self).devices(),
                self.devices(),
                self.configuration().reserved_indexes@,
                index,
            );
        }
    }

    /// What routing a command to its device comes to. Where no live device
    /// has the index, that is the refusal and nothing changes. Otherwise the
    /// device's protocol decides: its refusal is handed on, and where it
    /// takes the command the actions are its commands for that one device and
    /// the reply is the confirmation under the command's id. The device is
    /// brought up to date; every other device stays as it is.
    pub open spec fn device_message_routed(
        before: ServerDeviceManager,
        after: ServerDeviceManager,
        message: ButtplugDeviceCommandMessageUnion,
        r: Result<ManagerOutcome, ButtplugError>,
    ) -> bool {
        let index = message.spec_device_index();
        if !before.devices().dom().contains(index) {
            &&& r == Err::<ManagerOutcome, ButtplugError>(
                ButtplugError::ButtplugDeviceError(ButtplugDeviceError::DeviceNotAvailable(index)),
            )
            &&& after.devices() == before.devices()
        } else {
            let device = before.devices()[index];
            &&& after.devices().dom() =~= before.devices().dom()
            &&& forall|other: u32|
                other != index && before.devices().dom().contains(other) ==> #[trigger] after.devices()[other]
                    == before.devices()[other]
            &&& device_after(device, after.devices()[index], message)
            &&& match (r, device.protocol.spec_handle_command(&device.device, message)) {
                (Ok(outcome), Ok(commands)) => {
                    &&& outcome.reply == ButtplugSystemMessageUnion::OkMessage(
                        OkMessage { id: message.spec_id() },
                    )
                    &&& outcome.actions@.len() == 1
                    &&& outcome.actions@[0] matches ManagerAction::Device { index: told, commands: sent }
                    &&& told == index
                    &&& sent@ == commands
                },
                (Err(e), Err(refusal)) => e == refusal,
                _ => false,
            }
        }
    }

    /// Routes a command to the device it is for.
    pub fn parse_device_message(&mut self, device_msg: ButtplugDeviceCommandMessageUnion) -> (r: Result<
        ManagerOutcome,
        ButtplugError,
    >)
        requires
            old(self).well_formed(),
        ensures
            final(self).well_formed(),
            final(self).configuration() == old(self).configuration(),
            final(self).transports() == old(self).transports(),
            Self::device_message_routed(*old(self), *final(self), device_msg, r),
            r matches Ok(outcome) ==> outcome.reply.spec_id() == device_msg.spec_id(),
    {
        let id = device_msg.id();
        let index = device_msg.device_index();
        match get_device(&self.devices, index) {
            Some(device) => {
                let mut device = device;
                let ghost before = device;
                match device.parse_message(device_msg) {
                    Ok(commands) => {
                        self.update_device(index, device);
                        let mut actions: Vec<ManagerAction> = Vec::new();
                        actions.push(ManagerAction::Device { index, commands });
                        Ok(
                            ManagerOutcome {
                                reply: ButtplugSystemMessageUnion::OkMessage(OkMessage::new(id)),
                                actions,
                            },
                        )
                    },
                    Err(e) => {
                        self.update_device(index, device);
                        Err(e)
                    },
                }
            },
            None => Err(
                ButtplugError::ButtplugDeviceError(ButtplugDeviceError::DeviceNotAvailable(index)),
            ),
        }
    }

    /// What stopping every device comes to: each live device is told to
    /// stop, once, and remembers that it was; the reply is the confirmation
    /// under the request's id, which is due whether or not every device
    /// could be told. The devices are told in the order the map hands them
    /// out, of which nothing is known.
    pub open spec fn all_devices_stopped(
        before: ServerDeviceManager,
        after: ServerDeviceManager,
        id: u32,
        outcome: ManagerOutcome,
    ) -> bool {
        &&& outcome.reply == ButtplugSystemMessageUnion::OkMessage(OkMessage { id })
        &&& after.devices().dom() =~= before.devices().dom()
        &&& forall|index: u32| #[trigger]
            before.devices().dom().contains(index) ==> device_after(
                before.devices()[index],
                after.devices()[index],
                stop_command(index),
            )
        &&& forall|i: int|
            0 <= i < outcome.actions@.len() ==> {
                &&& #[trigger] outcome.actions@[i] matches ManagerAction::Stop { index, commands }
                &&& before.devices().dom().contains(index)
                &&& before.devices()[index].protocol.spec_handle_command(
                    &before.devices()[index].device,
                    stop_command(index),
                ) == Ok::<Seq<ProtocolCommand>, ButtplugError>(commands@)
            }
        &&& forall|i: int, j: int|
            0 <= i < j < outcome.actions@.len() ==> told_device(#[trigger] outcome.actions@[i])
                != told_device(#[trigger] outcome.actions@[j])
        &&& forall|index: u32| #[trigger]
            before.devices().dom().contains(index) ==> exists|i: int|
                0 <= i < outcome.actions@.len() && told_device(#[trigger] outcome.actions@[i])
                    == Some(index)
    }

    /// Stops every device.
    pub fn stop_all_devices(&mut self, id: u32) -> (r: ManagerOutcome)
        requires
            old(self).well_formed(),
        ensures
            final(self).well_formed(),
            final(self).configuration() == old(self).configuration(),
            final(self).transports() == old(self).transports(),
            Self::all_devices_stopped(*old(self), *final(self), id, r),
    {
        let indexes = device_indexes(&self.devices);
        let mut actions: Vec<ManagerAction> = Vec::new();
        let mut i: usize = 0;
        while i < indexes.len()
            invariant
                i <= indexes@.len(),
                indexes@.no_duplicates(),
                forall|index: u32|
                    indexes@.contains(index) <==> old(self).devices().dom().contains(index),
                old(self).well_formed(),
                self.well_formed(),
                self.configuration() == old(self).configuration(),
                self.transports() == old(self).transports(),
                self.devices().dom() =~= old(self).devices().dom(),
                actions@.len() == i,
                forall|j: int|
                    0 <= j < i ==> device_after(
                        old(self).devices()[#[trigger] indexes@[j]],
                        self.devices()[indexes@[j]],
                        stop_command(indexes@[j]),
                    ),
                forall|j: int|
                    i <= j < indexes@.len() ==> self.devices()[#[trigger] indexes@[j]]
                        == old(self).devices()[indexes@[j]],
                forall|j: int|
                    0 <= j < i ==> {
                        &&& #[trigger] actions@[j] matches ManagerAction::Stop { index, commands }
                        &&& index == indexes@[j]
                        &&& old(self).devices().dom().contains(index)
                        &&& old(self).devices()[index].protocol.spec_handle_command(
                            &old(self).devices()[index].device,
                            stop_command(index),
                        ) == Ok::<Seq<ProtocolCommand>, ButtplugError>(commands@)
                    },
            decreases indexes@.len() - i,
        {
            let index = indexes[i];
            assert(indexes@.contains(index));
            match get_device(&self.devices, index) {
                Some(device) => {
                    let mut device = device;
                    match device.parse_message(
                        ButtplugDeviceCommandMessageUnion::StopDeviceCmd(StopDeviceCmd::new(index)),
                    ) {
                        Ok(commands) => {
                            self.update_device(index, device);
                            actions.push(ManagerAction::Stop { index, commands });
                        },
                        Err(_) => {
                            // Every device takes the stop command.
                            assert(false);
                        },
                    }
                },
                None => {
                    // A device stands under every index the map hands out.
                    assert(false);
                },
            }
            i += 1;
        }
        proof {
            assert forall|index: u32| #[trigger]
                old(self).devices().dom().contains(index) implies device_after(
                old(self).devices()[index],
                self.devices()[index],
                stop_command(index),
            ) && exists|k: int|
                0 <= k < actions@.len() && told_device(#[trigger] actions@[k]) == Some(index) by {
                assert(indexes@.contains(index));
                let j = choose|j: int| 0 <= j < indexes@.len() && indexes@[j] == index;
                assert(told_device(actions@[j]) == Some(index));
            }
        }
        ManagerOutcome { reply: ButtplugSystemMessageUnion::OkMessage(OkMessage::new(id)), actions }
    }

    /// What the list of live devices has to hold: one entry for each live
    /// device, with its index, the name it goes by and what it takes. The
    /// entries come in the order the map hands the devices out, of which
    /// nothing is known.
    pub open spec fn lists_devices(devices: Map<u32, ButtplugDevice>, list: Seq<DeviceMessageInfo>) -> bool {
        &&& forall|i: int|
            0 <= i < list.len() ==> {
                let entry = #[trigger] list[i];
                &&& devices.dom().contains(entry.device_index)
                &&& entry.device_name@ == devices[entry.device_index].spec_name()
                &&& entry.device_messages@
                    == devices[entry.device_index].protocol.device_attributes.message_attributes@
            }
        &&& forall|i: int, j: int|
            0 <= i < j < list.len() ==> (#[trigger] list[i]).device_index != (#[trigger] list[j]).device_index
        &&& forall|index: u32| #[trigger]
            devices.dom().contains(index) ==> exists|i: int|
                0 <= i < list.len() && (#[trigger] list[i]).device_index == index
    }

    /// Lists the live devices.
    pub fn device_list(&self) -> (r: Vec<DeviceMessageInfo>)
        ensures
            Self::lists_devices(self.devices(), r@),
    {
        let indexes = device_indexes(&self.devices);
        let mut list: Vec<DeviceMessageInfo> = Vec::new();
        let mut i: usize = 0;
        while i < indexes.len()
            invariant
                i <= indexes@.len(),
                indexes@.no_duplicates(),
                forall|index: u32|
                    indexes@.contains(index) <==> self.devices().dom().contains(index),
                list@.len() == i,
                forall|j: int|
                    0 <= j < i ==> {
                        let entry = #[trigger] list@[j];
                        &&& entry.device_index == indexes@[j]
                        &&& self.devices().dom().contains(entry.device_index)
                        &&& entry.device_name@ == self.devices()[entry.device_index].spec_name()
                        &&& entry.device_messages@
                            == self.devices()[entry.device_index].protocol.device_attributes.message_attributes@
                    },
            decreases indexes@.len() - i,
        {
            let index = indexes[i];
            assert(indexes@.contains(index));
            match get_device(&self.devices, index) {
                Some(device) => {
                    list.push(
                        DeviceMessageInfo::new(
                            index,
                            device.name().as_str(),
                            device.message_attributes(),
                        ),
                    );
                },
                None => {
                    // A device stands under every index the map hands out.
                    assert(false);
                },
            }
            i += 1;
        }
        proof {
            assert forall|index: u32| #[trigger] self.devices().dom().contains(index) implies exists|k: int|
                0 <= k < list@.len() && (#[trigger] list@[k]).device_index == index by {
                assert(indexes@.contains(index));
                let j = choose|j: int| 0 <= j < indexes@.len() && indexes@[j] == index;
                assert(list@[j].device_index == index);
            }
        }
        list
    }

    /// Has every transport that can look for devices do so.
    pub fn start_scanning(&mut self, id: u32) -> (r: ManagerOutcome)
        ensures
            old(self).well_formed() ==> final(self).well_formed(),
            final(self).configuration() == old(self).configuration(),
            final(self).devices() == old(self).devices(),
            final(self).transports() == transports_scanning(old(self).transports()),
            r.reply == ButtplugSystemMessageUnion::OkMessage(OkMessage { id }),
            r.actions@ == scanning_actions(
                old(self).transports(),
                old(self).transports().len() as int,
                true,
            ),
    {
        let mut actions: Vec<ManagerAction> = Vec::new();
        let mut i: usize = 0;
        while i < self.comm_managers.len()
            invariant
                i <= self.comm_managers@.len(),
                self.comm_managers@.len() == old(self).comm_managers@.len(),
                self.devices == old(self).devices,
                self.configuration == old(self).configuration,
                forall|j: int|
                    0 <= j < i ==> self.comm_managers@[j] == transports_scanning(
                        old(self).comm_managers@,
                    )[j],
                forall|j: int|
                    i <= j < self.comm_managers@.len() ==> self.comm_managers@[j]
                        == old(self).comm_managers@[j],
                actions@ == scanning_actions(old(self).comm_managers@, i as int, true),
            decreases self.comm_managers@.len() - i,
        {
            if self.comm_managers[i].can_scan {
                self.comm_managers[i].scanning = true;
                actions.push(ManagerAction::StartScanning { manager: i });
            }
            i += 1;
        }
        assert(self.comm_managers@ =~= transports_scanning(old(self).comm_managers@));
        ManagerOutcome { reply: ButtplugSystemMessageUnion::OkMessage(OkMessage::new(id)), actions }
    }

    /// Has every transport that can look for devices stop. Each goes on
    /// counting as looking until it says itself that it has finished.
    pub fn stop_scanning(&self, id: u32) -> (r: ManagerOutcome)
        ensures
            r.reply == ButtplugSystemMessageUnion::OkMessage(OkMessage { id }),
            r.actions@ == scanning_actions(self.transports(), self.transports().len() as int, false),
    {
        let mut actions: Vec<ManagerAction> = Vec::new();
        let mut i: usize = 0;
        while i < self.comm_managers.len()
            invariant
                i <= self.comm_managers@.len(),
                actions@ == scanning_actions(self.comm_managers@, i as int, false),
            decreases self.comm_managers@.len() - i,
        {
            if self.comm_managers[i].can_scan {
                actions.push(ManagerAction::StopScanning { manager: i });
            }
            i += 1;
        }
        ManagerOutcome { reply: ButtplugSystemMessageUnion::OkMessage(OkMessage::new(id)), actions }
    }

    /// Says whether any transport is looking for devices.
    pub fn scanning(&self) -> (r: bool)
        ensures
            r == any_scanning(self.transports()),
    {
        let mut i: usize = 0;
        while i < self.comm_managers.len()
            invariant
                i <= self.comm_managers@.len(),
                forall|j: int| 0 <= j < i ==> !(#[trigger] self.comm_managers@[j]).scanning,
            decreases self.comm_managers@.len() - i,
        {
            if self.comm_managers[i].scanning {
                return true;
            }
            i += 1;
        }
        false
    }

    /// Takes note that a transport has finished looking for devices. Once
    /// the last transport that was looking has finished, the message that
    /// tells the client comes back; until then, and for a transport that was
    /// not looking or is not there, nothing does.
    pub fn scanning_finished(&mut self, manager: usize) -> (r: Option<ScanningFinished>)
        ensures
            old(self).well_formed() ==> final(self).well_formed(),
            final(self).configuration() == old(self).configuration(),
            final(self).devices() == old(self).devices(),
            final(self).transports() == (if manager < old(self).transports().len() {
                old(self).transports().update(
                    manager as int,
                    CommunicationManagerState {
                        scanning: false,
                        ..old(self).transports()[manager as int]
                    },
                )
            } else {
                old(self).transports()
            }),
            r == (if manager < old(self).transports().len() && old(self).transports()[manager as int].scanning
                && !any_scanning(final(self).transports()) {
                Some(ScanningFinished { id: 0 })
            } else {
                None
            }),
    {
        if manager >= self.comm_managers.len() {
            return None;
        }
        let was_scanning = self.comm_managers[manager].scanning;
        self.comm_managers[manager].scanning = false;
        assert(self.comm_managers@ =~= old(self).comm_managers@.update(
            manager as int,
            CommunicationManagerState { scanning: false, ..old(self).comm_managers@[manager as int] },
        ));
        if was_scanning && !self.scanning() {
            Some(ScanningFinished::new())
        } else {
            None
        }
    }

    /// What the manager makes of a request that it answers itself.
    pub open spec fn manager_message_answered(
        before: ServerDeviceManager,
        after: ServerDeviceManager,
        message: ButtplugDeviceManagerMessageUnion,
        outcome: ManagerOutcome,
    ) -> bool {
        match message {
            ButtplugDeviceManagerMessageUnion::RequestDeviceList(msg) => {
                &&& after.devices() == before.devices()
                &&& after.transports() == before.transports()
                &&& outcome.actions@.len() == 0
                &&& outcome.reply matches ButtplugSystemMessageUnion::DeviceList(list)
                &&& list.id == msg.id
                &&& Self::lists_devices(before.devices(), list.devices@)
            },
            ButtplugDeviceManagerMessageUnion::StopAllDevices(msg) => {
                &&& after.transports() == before.transports()
                &&& Self::all_devices_stopped(before, after, msg.id, outcome)
            },
            ButtplugDeviceManagerMessageUnion::StartScanning(msg) => {
                &&& after.devices() == before.devices()
                &&& after.transports() == transports_scanning(before.transports())
                &&& outcome.reply == ButtplugSystemMessageUnion::OkMessage(OkMessage { id: msg.id })
                &&& outcome.actions@ == scanning_actions(
                    before.transports(),
                    before.transports().len() as int,
                    true,
                )
            },
            ButtplugDeviceManagerMessageUnion::StopScanning(msg) => {
                &&& after.devices() == before.devices()
                &&& after.transports() == before.transports()
                &&& outcome.reply == ButtplugSystemMessageUnion::OkMessage(OkMessage { id: msg.id })
                &&& outcome.actions@ == scanning_actions(
                    before.transports(),
                    before.transports().len() as int,
                    false,
                )
            },
        }
    }

    /// Answers a request about the devices as a whole: lists them, stops
    /// them all, or has the transports begin or end looking for more.
    pub fn parse_device_manager_message(&mut self, manager_msg: ButtplugDeviceManagerMessageUnion) -> (r:
        ManagerOutcome)
        requires
            old(self).well_formed(),
        ensures
            final(self).well_formed(),
            final(self).configuration() == old(self).configuration(),
            Self::manager_message_answered(*old(self), *final(self), manager_msg, r),
            r.reply.spec_id() == manager_msg.spec_id(),
    {
        match manager_msg {
            ButtplugDeviceManagerMessageUnion::RequestDeviceList(msg) => {
                let devices = self.device_list();
                let mut device_list = DeviceList::new(devices);
                device_list.set_id(msg.id());
                ManagerOutcome {
                    reply: ButtplugSystemMessageUnion::DeviceList(device_list),
                    actions: Vec::new(),
                }
            },
            ButtplugDeviceManagerMessageUnion::StopAllDevices(msg) => self.stop_all_devices(msg.id()),
            ButtplugDeviceManagerMessageUnion::StartScanning(msg) => self.start_scanning(msg.id()),
            ButtplugDeviceManagerMessageUnion::StopScanning(msg) => self.stop_scanning(msg.id()),
        }
    }

    /// What the manager makes of a message. A command for a device is routed
    /// to it; a request about the devices as a whole is answered; anything
    /// else is refused as out of place, and nothing changes.
    pub open spec fn message_parsed(
        before: ServerDeviceManager,
        after: ServerDeviceManager,
        message: ButtplugMessageUnion,
        r: Result<ManagerOutcome, ButtplugError>,
    ) -> bool {
        match ButtplugDeviceCommandMessageUnion::spec_try_from(message) {
            Ok(device_msg) => after.transports() == before.transports() && Self::device_message_routed(
                before,
                after,
                device_msg,
                r,
            ),
            Err(other) => match ButtplugDeviceManagerMessageUnion::spec_try_from(other) {
                Ok(manager_msg) => r matches Ok(outcome) && Self::manager_message_answered(
                    before,
                    after,
                    manager_msg,
                    outcome,
                ),
                Err(refused) => {
                    &&& after.devices() == before.devices()
                    &&& after.transports() == before.transports()
                    &&& r == Err::<ManagerOutcome, ButtplugError>(
                        ButtplugError::ButtplugMessageError(
                            ButtplugMessageError::UnexpectedMessageType(refused.spec_message_type()),
                        ),
                    )
                },
            },
        }
    }

    /// Handles a message from a client. The reply that comes back carries
    /// the id of the message.
    pub fn parse_message(&mut self, msg: ButtplugMessageUnion) -> (r: Result<ManagerOutcome, ButtplugError>)
        requires
            old(self).well_formed(),
        ensures
            final(self).well_formed(),
            final(self).configuration() == old(self).configuration(),
            Self::message_parsed(*old(self), *final(self), msg, r),
            r matches Ok(outcome) ==> outcome.reply.spec_id() == msg.spec_id(),
    {
        // A command for a device goes straight to the device.
        match ButtplugDeviceCommandMessageUnion::try_from(msg) {
            Ok(device_msg) => self.parse_device_message(device_msg),
            Err(other) => match ButtplugDeviceManagerMessageUnion::try_from(other) {
                Ok(manager_msg) => Ok(self.parse_device_manager_message(manager_msg)),
                Err(refused) => Err(
                    ButtplugError::ButtplugMessageError(
                        ButtplugMessageError::UnexpectedMessageType(refused.message_type()),
                    ),
                ),
            },
        }
    }
}

/// The device that an action is for, if it is for one.
pub open spec fn told_device(action: ManagerAction) -> Option<u32> {
    match action {
        ManagerAction::Device { index, .. } => Some(index),
        ManagerAction::Stop { index, .. } => Some(index),
        _ => None,
    }
}

/// Whether the transport at `position` goes by a name that one before it
/// has.
pub open spec fn name_taken(transports: Seq<CommunicationManagerState>, position: int) -> bool {
    exists|i: int| 0 <= i < position && (#[trigger] transports[i]).name@ == transports[position].name@
}

/// The position of the first transport from `from` on that goes by a name
/// that one before it has.
pub open spec fn first_name_taken(transports: Seq<CommunicationManagerState>, from: int) -> Option<int>
    decreases transports.len() - from,
{
    if from < 0 || from >= transports.len() {
        None
    } else if name_taken(transports, from) {
        Some(from)
    } else {
        first_name_taken(transports, from + 1)
    }
}

/// Whether a transport is one of those that fight over the same devices
/// when more than one of them looks for devices.
pub open spec fn may_collide(transport: CommunicationManagerState) -> bool {
    transport.can_scan && (transport.name@ == "BtlePlugCommunicationManager"@ || transport.name@
        == "LovenseSerialDongleCommunicationManager"@ || transport.name@
        == "LovenseHIDDongleCommunicationManager"@)
}

/// The names of those of the first `upto` transports that may collide.
pub open spec fn colliding_names(transports: Seq<CommunicationManagerState>, upto: int) -> Seq<Seq<char>>
    decreases upto,
{
    if upto <= 0 || upto > transports.len() {
        Seq::empty()
    } else if may_collide(transports[upto - 1]) {
        colliding_names(transports, upto - 1).push(transports[upto - 1].name@)
    } else {
        colliding_names(transports, upto - 1)
    }
}

/// The device manager as it is being put together.
pub struct ServerDeviceManagerBuilder {
    pub configuration_manager_builder: DeviceConfigurationManagerBuilder,
    pub comm_managers: Vec<CommunicationManagerState>,
}

impl Default for ServerDeviceManagerBuilder {
    fn default() -> (r: Self)
        ensures
            r.comm_managers@.len() == 0,
            !r.configuration_manager_builder.skip_default_protocols,
            !r.configuration_manager_builder.allow_raw_messages,
            r.configuration_manager_builder.protocols@.len() == 0,
            r.configuration_manager_builder.communication_specifiers@.len() == 0,
            r.configuration_manager_builder.protocol_attributes@.len() == 0,
            r.configuration_manager_builder.allowed_addresses@.len() == 0,
            r.configuration_manager_builder.denied_addresses@.len() == 0,
            r.configuration_manager_builder.reserved_indexes@.len() == 0,
    {
        ServerDeviceManagerBuilder {
            configuration_manager_builder: DeviceConfigurationManagerBuilder::default(),
            comm_managers: Vec::new(),
        }
    }
}

impl ServerDeviceManagerBuilder {
    /// Registers a transport by what the manager has to know of it: its
    /// name and whether it can look for devices.
    pub fn add_comm_manager(&mut self, name: &str, can_scan: bool) -> (r: &mut Self)
        ensures
            r.comm_managers@.len() == old(self).comm_managers@.len() + 1,
            r.comm_managers@.drop_last() == old(self).comm_managers@,
            r.comm_managers@.last().name@ == name@,
            r.comm_managers@.last().can_scan == can_scan,
            !r.comm_managers@.last().scanning,
            r.configuration_manager_builder == old(self).configuration_manager_builder,
            *final(self) == *final(r),
    {
        self.comm_managers.push(
            CommunicationManagerState { name: String::from_str(name), can_scan, scanning: false },
        );
        assert(self.comm_managers@.drop_last() =~= old(self).comm_managers@);
        self
    }

    /// Registers a transport. The transport is made on the spot and asked
    /// for its name and whether it can look for devices, and is registered
    /// under what it answers.
    pub fn comm_manager<T: HardwareCommunicationManagerBuilder>(&mut self, builder: T) -> (r: &mut Self)
        ensures
            r.comm_managers@.len() == old(self).comm_managers@.len() + 1,
            r.comm_managers@.drop_last() == old(self).comm_managers@,
            exists|manager: T::Manager, name: &'static str|
                #![auto]
                {
                    &&& call_ensures(T::finish, (&builder,), manager)
                    &&& call_ensures(
                        <T::Manager as HardwareCommunicationManager>::name,
                        (&manager,),
                        name,
                    )
                    &&& call_ensures(
                        <T::Manager as HardwareCommunicationManager>::can_scan,
                        (&manager,),
                        r.comm_managers@.last().can_scan,
                    )
                    &&& r.comm_managers@.last().name@ == name@
                },
            !r.comm_managers@.last().scanning,
            r.configuration_manager_builder == old(self).configuration_manager_builder,
            *final(self) == *final(r),
    {
        let manager = builder.finish();
        let name = manager.name();
        let can_scan = manager.can_scan();
        self.add_comm_manager(name, can_scan);
        self
    }

    /// Welcomes an address. Once any address is welcomed, no other is.
    pub fn allowed_address(&mut self, address: &str) -> (r: &mut Self)
        ensures
            r.comm_managers == old(self).comm_managers,
            r.configuration_manager_builder.allowed_addresses@.len() == old(
                self,
            ).configuration_manager_builder.allowed_addresses@.len() + 1,
            r.configuration_manager_builder.allowed_addresses@.last()@ == address@,
            r.configuration_manager_builder.allowed_addresses@.drop_last() == old(
                self,
            ).configuration_manager_builder.allowed_addresses@,
            r.configuration_manager_builder == (DeviceConfigurationManagerBuilder {
                allowed_addresses: r.configuration_manager_builder.allowed_addresses,
                ..old(self).configuration_manager_builder
            }),
            *final(self) == *final(r),
    {
        self.configuration_manager_builder.allowed_address(address);
        self
    }

    /// Turns an address away.
    pub fn denied_address(&mut self, address: &str) -> (r: &mut Self)
        ensures
            r.comm_managers == old(self).comm_managers,
            r.configuration_manager_builder.denied_addresses@.len() == old(
                self,
            ).configuration_manager_builder.denied_addresses@.len() + 1,
            r.configuration_manager_builder.denied_addresses@.last()@ == address@,
            r.configuration_manager_builder.denied_addresses@.drop_last() == old(
                self,
            ).configuration_manager_builder.denied_addresses@,
            r.configuration_manager_builder == (DeviceConfigurationManagerBuilder {
                denied_addresses: r.configuration_manager_builder.denied_addresses,
                ..old(self).configuration_manager_builder
            }),
            *final(self) == *final(r),
    {
        self.configuration_manager_builder.denied_address(address);
        self
    }

    /// Keeps an index for a device.
    pub fn reserved_index(&mut self, identifier: &ServerDeviceIdentifier, index: u32) -> (r: &mut Self)
        ensures
            r.comm_managers == old(self).comm_managers,
            r.configuration_manager_builder.reserved_indexes@ == old(
                self,
            ).configuration_manager_builder.reserved_indexes@.push(
                ReservedIndex { identifier: *identifier, index },
            ),
            r.configuration_manager_builder == (DeviceConfigurationManagerBuilder {
                reserved_indexes: r.configuration_manager_builder.reserved_indexes,
                ..old(self).configuration_manager_builder
            }),
            *final(self) == *final(r),
    {
        self.configuration_manager_builder.reserved_index(identifier, index);
        self
    }

    /// Registers a protocol by its name.
    pub fn protocol_factory(&mut self, protocol_name: &str) -> (r: &mut Self)
        ensures
            r.comm_managers == old(self).comm_managers,
            r.configuration_manager_builder.protocols@.len() == old(
                self,
            ).configuration_manager_builder.protocols@.len() + 1,
            r.configuration_manager_builder.protocols@.last()@ == protocol_name@,
            r.configuration_manager_builder.protocols@.drop_last() == old(
                self,
            ).configuration_manager_builder.protocols@,
            r.configuration_manager_builder == (DeviceConfigurationManagerBuilder {
                protocols: r.configuration_manager_builder.protocols,
                ..old(self).configuration_manager_builder
            }),
            *final(self) == *final(r),
    {
        self.configuration_manager_builder.protocol_factory(protocol_name);
        self
    }

    /// Says what the hardware of a protocol looks like.
    pub fn communication_specifier(
        &mut self,
        protocol_name: &str,
        specifier: ProtocolCommunicationSpecifier,
    ) -> (r: &mut Self)
        ensures
            r.comm_managers == old(self).comm_managers,
            r.configuration_manager_builder.communication_specifiers@.len() == old(
                self,
            ).configuration_manager_builder.communication_specifiers@.len() + 1,
            r.configuration_manager_builder.communication_specifiers@.last().protocol@
                == protocol_name@,
            r.configuration_manager_builder.communication_specifiers@.last().specifier == specifier,
            r.configuration_manager_builder.communication_specifiers@.drop_last() == old(
                self,
            ).configuration_manager_builder.communication_specifiers@,
            r.configuration_manager_builder == (DeviceConfigurationManagerBuilder {
                communication_specifiers: r.configuration_manager_builder.communication_specifiers,
                ..old(self).configuration_manager_builder
            }),
            *final(self) == *final(r),
    {
        self.configuration_manager_builder.communication_specifier(protocol_name, specifier);
        self
    }

    /// Says what a model of a protocol takes.
    pub fn protocol_attributes(
        &mut self,
        protocol_name: &str,
        identifier: ProtocolAttributesIdentifier,
        attributes: ProtocolDeviceAttributes,
    ) -> (r: &mut Self)
        ensures
            r.comm_managers == old(self).comm_managers,
            r.configuration_manager_builder.protocol_attributes@.len() == old(
                self,
            ).configuration_manager_builder.protocol_attributes@.len() + 1,
            r.configuration_manager_builder.protocol_attributes@.last().protocol@ == protocol_name@,
            r.configuration_manager_builder.protocol_attributes@.last().identifier == identifier,
            r.configuration_manager_builder.protocol_attributes@.last().attributes == attributes,
            r.configuration_manager_builder.protocol_attributes@.drop_last() == old(
                self,
            ).configuration_manager_builder.protocol_attributes@,
            r.configuration_manager_builder == (DeviceConfigurationManagerBuilder {
                protocol_attributes: r.configuration_manager_builder.protocol_attributes,
                ..old(self).configuration_manager_builder
            }),
            *final(self) == *final(r),
    {
        self.configuration_manager_builder.protocol_attributes(protocol_name, identifier, attributes);
        self
    }

    /// Asks that the protocols that come with the server be left out.
    pub fn skip_default_protocols(&mut self) -> (r: &mut Self)
        ensures
            r.comm_managers == old(self).comm_managers,
            r.configuration_manager_builder == (DeviceConfigurationManagerBuilder {
                skip_default_protocols: true,
                ..old(self).configuration_manager_builder
            }),
            *final(self) == *final(r),
    {
        self.configuration_manager_builder.skip_default_protocols();
        self
    }

    /// Opens raw commands on every device.
    pub fn allow_raw_messages(&mut self) -> (r: &mut Self)
        ensures
            r.comm_managers == old(self).comm_managers,
            r.configuration_manager_builder == (DeviceConfigurationManagerBuilder {
                allow_raw_messages: true,
                ..old(self).configuration_manager_builder
            }),
            *final(self) == *final(r),
    {
        self.configuration_manager_builder.allow_raw_messages();
        self
    }

    /// Finds the first transport that goes by a name one before it has.
    #[verifier::loop_isolation(false)]
    fn find_name_taken(&self) -> (r: Option<usize>)
        ensures
            r matches Some(position) ==> first_name_taken(self.comm_managers@, 0) == Some(
                position as int,
            ) && position < self.comm_managers@.len(),
            r is None ==> first_name_taken(self.comm_managers@, 0) is None,
    {
        let mut j: usize = 0;
        while j < self.comm_managers.len()
            invariant
                j <= self.comm_managers@.len(),
                first_name_taken(self.comm_managers@, 0) == first_name_taken(
                    self.comm_managers@,
                    j as int,
                ),
            decreases self.comm_managers@.len() - j,
        {
            let mut i: usize = 0;
            while i < j
                invariant
                    i <= j < self.comm_managers@.len(),
                    forall|k: int|
                        0 <= k < i ==> (#[trigger] self.comm_managers@[k]).name@
                            != self.comm_managers@[j as int].name@,
                decreases j - i,
            {
                if self.comm_managers[i].name == self.comm_managers[j].name {
                    assert(name_taken(self.comm_managers@, j as int));
                    return Some(j);
                }
                i += 1;
            }
            j += 1;
        }
        None
    }

    /// What putting the manager together comes to: the refusal or nothing.
    /// A configuration that is not in order is reported first; after that
    /// the first transport whose name one before it already has.
    pub open spec fn spec_finish_error(&self) -> Option<ButtplugServerError> {
        match self.configuration_manager_builder.spec_check() {
            Err(e) => Some(ButtplugServerError::DeviceConfigurationManagerError(e)),
            Ok(()) => match first_name_taken(self.comm_managers@, 0) {
                Some(position) => Some(
                    ButtplugServerError::DeviceManagerTypeAlreadyAdded(
                        self.comm_managers@[position].name,
                    ),
                ),
                None => None,
            },
        }
    }

    /// Puts the manager together: with the configuration as it was given,
    /// the transports as they were registered, and no device. The builder
    /// goes on holding what it held, so that it can
    /// be added to and finished again. Where the configuration is not in
    /// order or two transports go by one name there is no manager.
    pub fn finish(&mut self) -> (r: Result<ServerDeviceManager, ButtplugServerError>)
        ensures
            r matches Err(e) ==> old(self).spec_finish_error() == Some(e) && *final(self) == *old(self),
            r matches Ok(manager) ==> {
                &&& old(self).spec_finish_error() is None
                &&& manager.well_formed()
                &&& manager.devices() =~= Map::empty()
                &&& manager.transports() == old(self).comm_managers@
                &&& manager.configuration().allow_raw_messages == old(
                    self,
                ).configuration_manager_builder.allow_raw_messages
                &&& manager.configuration().protocols == old(self).configuration_manager_builder.protocols
                &&& manager.configuration().communication_specifiers == old(
                    self,
                ).configuration_manager_builder.communication_specifiers
                &&& manager.configuration().protocol_attributes == old(
                    self,
                ).configuration_manager_builder.protocol_attributes
                &&& manager.configuration().allowed_addresses == old(
                    self,
                ).configuration_manager_builder.allowed_addresses
                &&& manager.configuration().denied_addresses == old(
                    self,
                ).configuration_manager_builder.denied_addresses
                &&& manager.configuration().reserved_indexes == old(
                    self,
                ).configuration_manager_builder.reserved_indexes
                &&& final(self).comm_managers@ == old(self).comm_managers@
                &&& final(self).configuration_manager_builder.same_contents(
                    &old(self).configuration_manager_builder,
                )
                &&& final(self).spec_finish_error() is None
            },
    {
        if let Err(e) = self.configuration_manager_builder.check() {
            return Err(ButtplugServerError::DeviceConfigurationManagerError(e));
        }
        if let Some(position) = self.find_name_taken() {
            return Err(
                ButtplugServerError::DeviceManagerTypeAlreadyAdded(
                    self.comm_managers[position].name.clone(),
                ),
            );
        }
        match self.configuration_manager_builder.finish() {
            Ok(configuration) => {
                let mut comm_managers: Vec<CommunicationManagerState> = Vec::new();
                let mut i: usize = 0;
                while i < self.comm_managers.len()
                    invariant
                        i <= self.comm_managers@.len(),
                        comm_managers@ == self.comm_managers@.take(i as int),
                    decreases self.comm_managers@.len() - i,
                {
                    let transport = &self.comm_managers[i];
                    comm_managers.push(
                        CommunicationManagerState {
                            name: transport.name.clone(),
                            can_scan: transport.can_scan,
                            scanning: transport.scanning,
                        },
                    );
                    i += 1;
                }
                assert(self.comm_managers@.take(i as int) == self.comm_managers@);
                Ok(ServerDeviceManager::new(configuration, comm_managers))
            },
            Err(e) => Err(ButtplugServerError::DeviceConfigurationManagerError(e)),
        }
    }
}

impl ServerDeviceManager {
    /// Names the transports that may fight over the same devices: those
    /// that are known to reach the same hardware by different roads and can
    /// look for devices. With more than one of them at work connections may
    /// break each other, which is worth a warning to the user.
    pub fn colliding_comm_managers(&self) -> (r: Vec<String>)
        ensures
            r@.len() == colliding_names(self.transports(), self.transports().len() as int).len(),
            forall|i: int|
                0 <= i < r@.len() ==> (#[trigger] r@[i])@ == colliding_names(
                    self.transports(),
                    self.transports().len() as int,
                )[i],
    {
        let bluetooth = String::from_str("BtlePlugCommunicationManager");
        let serial_dongle = String::from_str("LovenseSerialDongleCommunicationManager");
        let hid_dongle = String::from_str("LovenseHIDDongleCommunicationManager");
        let mut names: Vec<String> = Vec::new();
        let mut i: usize = 0;
        while i < self.comm_managers.len()
            invariant
                i <= self.comm_managers@.len(),
                bluetooth@ == "BtlePlugCommunicationManager"@,
                serial_dongle@ == "LovenseSerialDongleCommunicationManager"@,
                hid_dongle@ == "LovenseHIDDongleCommunicationManager"@,
                names@.len() == colliding_names(self.comm_managers@, i as int).len(),
                forall|k: int|
                    0 <= k < names@.len() ==> (#[trigger] names@[k])@ == colliding_names(
                        self.comm_managers@,
                        i as int,
                    )[k],
            decreases self.comm_managers@.len() - i,
        {
            let transport = &self.comm_managers[i];
            if transport.can_scan && (transport.name == bluetooth || transport.name == serial_dongle
                || transport.name == hid_dongle) {
                names.push(transport.name.clone());
            }
            i += 1;
        }
        names
    }
}

/// The number of vibrators of the device under an index, as far as an index
/// can count; none where no device stands there.
pub open spec fn spec_vibrators(devices: Map<u32, ButtplugDevice>, index: u32) -> u32 {
    if devices.dom().contains(index) {
        let features = devices[index].protocol.device_attributes.message_attributes@.scalar_cmd;
        wire_count(vibrator_count(features, features.len() as int))
    } else {
        0
    }
}

impl ServerDeviceManager {
    /// Returns the number of vibrators of the device under an index.
    pub fn vibrators(&self, index: u32) -> (r: u32)
        ensures
            r == spec_vibrators(self.devices(), index),
    {
        match get_device(&self.devices, index) {
            Some(device) => {
                let count = device.protocol.device_attributes.message_attributes.vibrator_steps().len();
                if count > 0xFFFF_FFFF {
                    0xFFFF_FFFF
                } else {
                    count as u32
                }
            },
            None => 0,
        }
    }
}

/// Whether some live device sits on hardware at this address.
pub open spec fn has_address(devices: Map<u32, ButtplugDevice>, address: Seq<char>) -> bool {
    exists|index: u32| #[trigger] devices.dom().contains(index) && devices[index].device.address@ == address
}

impl ServerDeviceManager {
    /// No two live devices have the same key: two indices under which
    /// devices with the same key stand are one index.
    pub proof fn lemma_one_device_per_identifier(&self, a: u32, b: u32)
        requires
            self.well_formed(),
            self.devices().dom().contains(a),
            self.devices().dom().contains(b),
            self.devices()[a].same_identifier(&self.devices()[b]),
        ensures
            a == b,
    {
    }

    /// Finds a live device by the address of its hardware. Where several
    /// devices sit at one address, which of them comes back is the map's
    /// choice.
    pub fn index_of_address(&self, address: &str) -> (r: Option<u32>)
        ensures
            r is Some <==> has_address(self.devices(), address@),
            r matches Some(index) ==> self.devices().dom().contains(index)
                && self.devices()[index].device.address@ == address@,
    {
        let wanted = address.to_owned();
        let indexes = device_indexes(&self.devices);
        let mut i: usize = 0;
        while i < indexes.len()
            invariant
                i <= indexes@.len(),
                wanted@ == address@,
                forall|index: u32|
                    indexes@.contains(index) <==> self.devices().dom().contains(index),
                forall|j: int|
                    0 <= j < i ==> self.devices()[#[trigger] indexes@[j]].device.address@ != address@,
            decreases indexes@.len() - i,
        {
            let index = indexes[i];
            assert(indexes@.contains(index));
            match get_device(&self.devices, index) {
                Some(device) => {
                    if device.device.address == wanted {
                        return Some(index);
                    }
                },
                None => {},
            }
            i += 1;
        }
        assert forall|index: u32| #[trigger]
            self.devices().dom().contains(index) implies self.devices()[index].device.address@
            != address@ by {
            assert(indexes@.contains(index));
            let j = choose|j: int| 0 <= j < indexes@.len() && indexes@[j] == index;
            assert(self.devices()[indexes@[j]].device.address@ != address@);
        }
        None
    }

    /// Takes note of what a piece of hardware lets the server know, and
    /// hands back what the client is to be told of it, under the reserved id.
    /// A device that is set up is taken on and announced. Hardware that is
    /// gone takes its device with it. Bytes that hardware sends are passed on
    /// as a raw reading of its device. Of hardware that no live device sits
    /// on, nothing is told.
    pub fn device_event(&mut self, event: ButtplugDeviceEvent) -> (r: Option<ButtplugSystemMessageUnion>)
        requires
            old(self).well_formed(),
            event matches ButtplugDeviceEvent::Connected(device) ==> device.well_formed(),
        ensures
            final(self).well_formed(),
            final(self).configuration() == old(self).configuration(),
            final(self).transports() == old(self).transports(),
            r matches Some(message) ==> message.spec_id() == 0,
            match event {
                ButtplugDeviceEvent::Connected(device) => {
                    &&& r is Some <==> !has_identifier(old(self).devices(), device.spec_identifier())
                        && index_available(
                        old(self).devices(),
                        old(self).configuration().reserved_indexes@,
                        device.spec_identifier(),
                    )
                    &&& r is None ==> final(self).devices() == old(self).devices()
                    &&& r matches Some(message) ==> {
                        &&& message matches ButtplugSystemMessageUnion::DeviceAdded(added)
                        &&& is_assigned_index(
                            old(self).devices(),
                            old(self).configuration().reserved_indexes@,
                            device.spec_identifier(),
                            added.device_index,
                        )
                        &&& final(self).devices() == old(self).devices().insert(added.device_index, device)
                        &&& added.device_name@ == device.spec_name()
                        &&& added.device_messages@
                            == device.protocol.device_attributes.message_attributes@
                    }
                },
                ButtplugDeviceEvent::Removed(address) => {
                    &&& r is Some <==> has_address(old(self).devices(), address@)
                    &&& r is None ==> final(self).devices() == old(self).devices()
                    &&& r matches Some(message) ==> {
                        &&& message matches ButtplugSystemMessageUnion::DeviceRemoved(removed)
                        &&& old(self).devices().dom().contains(removed.device_index)
                        &&& old(self).devices()[removed.device_index].device.address@ == address@
                        &&& final(self).devices() == old(self).devices().remove(removed.device_index)
                    }
                },
                ButtplugDeviceEvent::Notification(address, endpoint, data) => {
                    &&& final(self).devices() == old(self).devices()
                    &&& r is Some <==> has_address(old(self).devices(), address@)
                    &&& r matches Some(message) ==> {
                        &&& message matches ButtplugSystemMessageUnion::RawReading(reading)
                        &&& old(self).devices().dom().contains(reading.device_index)
                        &&& old(self).devices()[reading.device_index].device.address@ == address@
                        &&& reading.endpoint == endpoint
                        &&& reading.data == data
                    }
                },
            },
    {
        match event {
            ButtplugDeviceEvent::Connected(device) => match self.add_device(device) {
                Some(added) => Some(ButtplugSystemMessageUnion::DeviceAdded(added)),
                None => None,
            },
            ButtplugDeviceEvent::Removed(address) => match self.index_of_address(address.as_str()) {
                Some(index) => match self.remove_device(index) {
                    Some(removed) => Some(ButtplugSystemMessageUnion::DeviceRemoved(removed)),
                    None => None,
                },
                None => None,
            },
            ButtplugDeviceEvent::Notification(address, endpoint, data) => match self.index_of_address(
                address.as_str(),
            ) {
                Some(index) => Some(
                    ButtplugSystemMessageUnion::RawReading(
                        RawReading { id: 0, device_index: index, endpoint, data },
                    ),
                ),
                None => None,
            },
        }
    }
}

} // verus!
