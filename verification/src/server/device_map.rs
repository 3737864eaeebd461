//! The map of live devices. It is a concurrent hash map from another crate;
//! what the server relies on of it is written down here and taken on trust.

use crate::device::ButtplugDevice;
use dashmap::DashMap;
use std::collections::hash_map::RandomState;
use vstd::prelude::*;

verus! {

#[verifier::external_type_specification]
#[verifier::external_body]
#[verifier::reject_recursive_types(K)]
#[verifier::reject_recursive_types(V)]
#[verifier::reject_recursive_types(S)]
pub struct ExDashMap<K, V, S>(DashMap<K, V, S>);

/// The devices a map holds, each under its index.
pub uninterp spec fn live_devices(map: DashMap<u32, ButtplugDevice, RandomState>) -> Map<
    u32,
    ButtplugDevice,
>;

/// `DashMap::new`: a map that holds nothing.
#[verifier::external_body]
pub(crate) fn new_device_map() -> (created: DashMap<u32, ButtplugDevice, RandomState>)
    ensures
        live_devices(created) =~= Map::empty(),
{
    DashMap::new()
}

/// `DashMap::insert`: the device stands under the index afterwards, in place
/// of whatever stood there, which is handed back; nothing else changes.
#[verifier::external_body]
pub(crate) fn insert_device(
    map: &mut DashMap<u32, ButtplugDevice, RandomState>,
    index: u32,
    device: ButtplugDevice,
) -> (previous: Option<ButtplugDevice>)
    ensures
        live_devices(*final(map)) == live_devices(*old(map)).insert(index, device),
        previous == (if live_devices(*old(map)).dom().contains(index) {
            Some(live_devices(*old(map))[index])
        } else {
            None
        }),
{
    map.insert(index, device)
}

/// `DashMap::remove`: nothing stands under the index afterwards; what stood
/// there is handed back; nothing else changes.
#[verifier::external_body]
pub(crate) fn remove_device(map: &mut DashMap<u32, ButtplugDevice, RandomState>, index: u32) -> (removed:
    Option<ButtplugDevice>)
    ensures
        live_devices(*final(map)) == live_devices(*old(map)).remove(index),
        removed == (if live_devices(*old(map)).dom().contains(index) {
            Some(live_devices(*old(map))[index])
        } else {
            None
        }),
{
    map.remove(&index).map(|entry| entry.1)
}

/// `DashMap::get`, with the device copied out of the guard that comes back:
/// the device under the index, if one stands there.
#[verifier::external_body]
pub(crate) fn get_device(map: &DashMap<u32, ButtplugDevice, RandomState>, index: u32) -> (found: Option<
    ButtplugDevice,
>)
    ensures
        found == (if live_devices(*map).dom().contains(index) {
            Some(live_devices(*map)[index])
        } else {
            None
        }),
{
    map.get(&index).map(|entry| entry.value().clone())
}

/// `DashMap::contains_key`: whether a device stands under the index.
#[verifier::external_body]
pub(crate) fn contains_device(map: &DashMap<u32, ButtplugDevice, RandomState>, index: u32) -> (found: bool)
    ensures
        found == live_devices(*map).dom().contains(index),
{
    map.contains_key(&index)
}

/// `DashMap::iter`, with the key picked from each entry: every index that a
/// device stands under, once. The order is the map's own and differs from
/// run to run, so nothing is said of it.
#[verifier::external_body]
pub(crate) fn device_indexes(map: &DashMap<u32, ButtplugDevice, RandomState>) -> (indexes: Vec<u32>)
    ensures
        indexes@.no_duplicates(),
        forall|index: u32| indexes@.contains(index) <==> live_devices(*map).dom().contains(index),
{
    map.iter().map(|entry| *entry.key()).collect()
}

} // verus!
