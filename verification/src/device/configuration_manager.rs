//! What the server is told about devices before any is found: which
//! protocols there are, what their hardware looks like, what each model
//! takes, which addresses are welcome and which indices are spoken for.

use crate::device::protocol::{ButtplugProtocol, ProtocolDeviceAttributes};
use crate::device::specifier::{
    contains_text, duplicate_texts, spec_contains_text, ProtocolCommunicationSpecifier,
};
use crate::device::{
    ButtplugDevice, DeviceImpl, Endpoint, ProtocolAttributesIdentifier, ServerDeviceIdentifier,
};
use crate::errors::ButtplugDeviceConfigError;
use crate::messages::{duplicate_endpoints, DeviceMessageAttributesView};
use vstd::prelude::*;

verus! {

/// What the hardware of a protocol looks like.
#[derive(Clone, Debug, PartialEq, Eq)]
pub struct CommunicationSpecifierRecord {
    pub protocol: String,
    pub specifier: ProtocolCommunicationSpecifier,
}

/// What a model of a protocol takes.
#[derive(Clone, Debug, PartialEq, Eq)]
pub struct ProtocolAttributesRecord {
    pub protocol: String,
    pub identifier: ProtocolAttributesIdentifier,
    pub attributes: ProtocolDeviceAttributes,
}

/// An index that is kept for one device.
#[derive(Clone, Debug, PartialEq, Eq)]
pub struct ReservedIndex {
    pub identifier: ServerDeviceIdentifier,
    pub index: u32,
}

/// The position of the first specifier from `from` on that hardware fits.
pub open spec fn first_matching_specifier(
    records: Seq<CommunicationSpecifierRecord>,
    found: &ProtocolCommunicationSpecifier,
    from: int,
) -> Option<int>
    decreases records.len() - from,
{
    if from < 0 || from >= records.len() {
        None
    } else if records[from].specifier.spec_matches(found) {
        Some(from)
    } else {
        first_matching_specifier(records, found, from + 1)
    }
}

/// The position of the first set of attributes from `from` on that is for
/// this model of this protocol.
pub open spec fn first_attributes_for(
    records: Seq<ProtocolAttributesRecord>,
    protocol: Seq<char>,
    identifier: &ProtocolAttributesIdentifier,
    from: int,
) -> Option<int>
    decreases records.len() - from,
{
    if from < 0 || from >= records.len() {
        None
    } else if records[from].protocol@ == protocol && records[from].identifier.same(identifier) {
        Some(from)
    } else {
        first_attributes_for(records, protocol, identifier, from + 1)
    }
}

/// The position of the attributes that a model goes by: its own where there
/// are any, the protocol's default otherwise.
pub open spec fn attributes_position(
    records: Seq<ProtocolAttributesRecord>,
    protocol: Seq<char>,
    identifier: &ProtocolAttributesIdentifier,
) -> Option<int> {
    match first_attributes_for(records, protocol, identifier, 0) {
        Some(position) => Some(position),
        None => first_attributes_for(records, protocol, &ProtocolAttributesIdentifier::Default, 0),
    }
}

/// A position that a search hands back lies within the list.
pub proof fn lemma_attributes_position(
    records: Seq<ProtocolAttributesRecord>,
    protocol: Seq<char>,
    identifier: &ProtocolAttributesIdentifier,
    from: int,
)
    requires
        0 <= from,
    ensures
        first_attributes_for(records, protocol, identifier, from) matches Some(position) ==> from
            <= position < records.len(),
    decreases records.len() - from,
{
    if from < records.len() {
        lemma_attributes_position(records, protocol, identifier, from + 1);
    }
}

/// The position of the first reservation from `from` on that is for this
/// device.
pub open spec fn first_reservation_for(
    reserved: Seq<ReservedIndex>,
    identifier: &ServerDeviceIdentifier,
    from: int,
) -> Option<int>
    decreases reserved.len() - from,
{
    if from < 0 || from >= reserved.len() {
        None
    } else if reserved[from].identifier.same(identifier) {
        Some(from)
    } else {
        first_reservation_for(reserved, identifier, from + 1)
    }
}

/// A reservation that a search hands back lies within the list and is for
/// the device; where none comes back, no reservation is for the device.
pub proof fn lemma_reservation(reserved: Seq<ReservedIndex>, identifier: &ServerDeviceIdentifier, from: int)
    requires
        0 <= from,
    ensures
        first_reservation_for(reserved, identifier, from) matches Some(position) ==> from <= position
            < reserved.len() && reserved[position].identifier.same(identifier),
        first_reservation_for(reserved, identifier, from) is None ==> forall|i: int|
            from <= i < reserved.len() ==> !(#[trigger] reserved[i]).identifier.same(identifier),
    decreases reserved.len() - from,
{
    if from < reserved.len() {
        lemma_reservation(reserved, identifier, from + 1);
    }
}

/// Whether an index is kept for some device.
pub open spec fn spec_is_reserved(reserved: Seq<ReservedIndex>, index: u32) -> bool {
    exists|i: int| 0 <= i < reserved.len() && (#[trigger] reserved[i]).index == index
}

/// Whether no two reservations name the same device or the same index.
pub open spec fn reservations_distinct(reserved: Seq<ReservedIndex>) -> bool {
    forall|i: int, j: int|
        0 <= i < j < reserved.len() ==> (#[trigger] reserved[i]).index != (#[trigger] reserved[j]).index
            && !reserved[i].identifier.same(&reserved[j].identifier)
}

/// Whether every specifier names a protocol that is registered.
pub open spec fn specifiers_registered(
    records: Seq<CommunicationSpecifierRecord>,
    protocols: Seq<String>,
) -> bool {
    forall|i: int|
        0 <= i < records.len() ==> spec_contains_text(protocols, (#[trigger] records[i]).protocol@)
}

/// Whether every set of attributes names a protocol that is registered.
pub open spec fn attributes_registered(
    records: Seq<ProtocolAttributesRecord>,
    protocols: Seq<String>,
) -> bool {
    forall|i: int|
        0 <= i < records.len() ==> spec_contains_text(protocols, (#[trigger] records[i]).protocol@)
}

/// Whether no set of attributes lists more features than an index can count.
pub open spec fn attributes_well_formed(records: Seq<ProtocolAttributesRecord>) -> bool {
    forall|i: int|
        0 <= i < records.len() ==> (#[trigger] records[i]).attributes.message_attributes@.well_formed()
}

/// Says whether no set of attributes lists more features than an index can
/// count.
fn check_attributes(records: &Vec<ProtocolAttributesRecord>) -> (r: bool)
    ensures
        r == attributes_well_formed(records@),
{
    let mut i: usize = 0;
    while i < records.len()
        invariant
            i <= records@.len(),
            forall|j: int|
                0 <= j < i ==> (#[trigger] records@[j]).attributes.message_attributes@.well_formed(),
        decreases records@.len() - i,
    {
        if !records[i].attributes.message_attributes.is_well_formed() {
            return false;
        }
        i += 1;
    }
    true
}

/// Says whether no two reservations name the same device or index.
fn check_reservations(reserved: &Vec<ReservedIndex>) -> (r: bool)
    ensures
        r == reservations_distinct(reserved@),
{
    let mut j: usize = 0;
    while j < reserved.len()
        invariant
            j <= reserved@.len(),
            forall|a: int, b: int|
                0 <= a < b < j ==> (#[trigger] reserved@[a]).index != (#[trigger] reserved@[b]).index
                    && !reserved@[a].identifier.same(&reserved@[b].identifier),
        decreases reserved@.len() - j,
    {
        let mut i: usize = 0;
        while i < j
            invariant
                i <= j < reserved@.len(),
                forall|a: int|
                    0 <= a < i ==> (#[trigger] reserved@[a]).index != reserved@[j as int].index
                        && !reserved@[a].identifier.same(&reserved@[j as int].identifier),
            decreases j - i,
        {
            if reserved[i].index == reserved[j].index || reserved[i].identifier
                == reserved[j].identifier {
                return false;
            }
            i += 1;
        }
        j += 1;
    }
    true
}

/// The device configuration as it is being put together.
#[derive(Clone, Debug, PartialEq, Eq)]
pub struct DeviceConfigurationManagerBuilder {
    pub skip_default_protocols: bool,
    pub allow_raw_messages: bool,
    pub protocols: Vec<String>,
    pub communication_specifiers: Vec<CommunicationSpecifierRecord>,
    pub protocol_attributes: Vec<ProtocolAttributesRecord>,
    pub allowed_addresses: Vec<String>,
    pub denied_addresses: Vec<String>,
    pub reserved_indexes: Vec<ReservedIndex>,
}

/// The device configuration the server works with.
#[derive(Clone, Debug, PartialEq, Eq)]
pub struct DeviceConfigurationManager {
    pub allow_raw_messages: bool,
    pub protocols: Vec<String>,
    pub communication_specifiers: Vec<CommunicationSpecifierRecord>,
    pub protocol_attributes: Vec<ProtocolAttributesRecord>,
    pub allowed_addresses: Vec<String>,
    pub denied_addresses: Vec<String>,
    pub reserved_indexes: Vec<ReservedIndex>,
}

/// Whether two lists of specifiers say the same, record for record.
pub open spec fn same_specifiers(
    a: Seq<CommunicationSpecifierRecord>,
    b: Seq<CommunicationSpecifierRecord>,
) -> bool {
    &&& a.len() == b.len()
    &&& forall|i: int|
        0 <= i < a.len() ==> (#[trigger] a[i]).protocol == b[i].protocol && a[i].specifier.same_as(
            &b[i].specifier,
        )
}

/// Whether two lists of attributes say the same, record for record.
pub open spec fn same_attributes(
    a: Seq<ProtocolAttributesRecord>,
    b: Seq<ProtocolAttributesRecord>,
) -> bool {
    &&& a.len() == b.len()
    &&& forall|i: int|
        0 <= i < a.len() ==> {
            &&& (#[trigger] a[i]).protocol == b[i].protocol
            &&& a[i].identifier == b[i].identifier
            &&& a[i].attributes.name == b[i].attributes.name
            &&& a[i].attributes.display_name == b[i].attributes.display_name
            &&& a[i].attributes.message_attributes@ == b[i].attributes.message_attributes@
        }
}

/// Copies a list of specifiers.
fn duplicate_specifiers(records: &Vec<CommunicationSpecifierRecord>) -> (r: Vec<
    CommunicationSpecifierRecord,
>)
    ensures
        same_specifiers(r@, records@),
{
    let mut copy: Vec<CommunicationSpecifierRecord> = Vec::new();
    let mut i: usize = 0;
    while i < records.len()
        invariant
            i <= records@.len(),
            copy@.len() == i,
            forall|j: int|
                0 <= j < i ==> (#[trigger] copy@[j]).protocol == records@[j].protocol
                    && copy@[j].specifier.same_as(&records@[j].specifier),
        decreases records@.len() - i,
    {
        copy.push(
            CommunicationSpecifierRecord {
                protocol: records[i].protocol.clone(),
                specifier: records[i].specifier.duplicate(),
            },
        );
        i += 1;
    }
    copy
}

/// Copies a list of attributes.
fn duplicate_attributes(records: &Vec<ProtocolAttributesRecord>) -> (r: Vec<ProtocolAttributesRecord>)
    ensures
        same_attributes(r@, records@),
{
    let mut copy: Vec<ProtocolAttributesRecord> = Vec::new();
    let mut i: usize = 0;
    while i < records.len()
        invariant
            i <= records@.len(),
            copy@.len() == i,
            forall|j: int|
                0 <= j < i ==> {
                    &&& (#[trigger] copy@[j]).protocol == records@[j].protocol
                    &&& copy@[j].identifier == records@[j].identifier
                    &&& copy@[j].attributes.name == records@[j].attributes.name
                    &&& copy@[j].attributes.display_name == records@[j].attributes.display_name
                    &&& copy@[j].attributes.message_attributes@
                        == records@[j].attributes.message_attributes@
                },
        decreases records@.len() - i,
    {
        copy.push(
            ProtocolAttributesRecord {
                protocol: records[i].protocol.clone(),
                identifier: records[i].identifier.duplicate(),
                attributes: records[i].attributes.duplicate(),
            },
        );
        i += 1;
    }
    copy
}

/// Copies a list of reservations.
fn duplicate_reservations(reserved: &Vec<ReservedIndex>) -> (r: Vec<ReservedIndex>)
    ensures
        r@ == reserved@,
{
    let mut copy: Vec<ReservedIndex> = Vec::new();
    let mut i: usize = 0;
    while i < reserved.len()
        invariant
            i <= reserved@.len(),
            copy@ == reserved@.take(i as int),
        decreases reserved@.len() - i,
    {
        copy.push(
            ReservedIndex { identifier: reserved[i].identifier.duplicate(), index: reserved[i].index },
        );
        i += 1;
    }
    assert(reserved@.take(i as int) == reserved@);
    copy
}

impl Default for DeviceConfigurationManagerBuilder {
    fn default() -> (r: Self)
        ensures
            !r.skip_default_protocols,
            !r.allow_raw_messages,
            r.protocols@.len() == 0,
            r.communication_specifiers@.len() == 0,
            r.protocol_attributes@.len() == 0,
            r.allowed_addresses@.len() == 0,
            r.denied_addresses@.len() == 0,
            r.reserved_indexes@.len() == 0,
    {
        DeviceConfigurationManagerBuilder {
            skip_default_protocols: false,
            allow_raw_messages: false,
            protocols: Vec::new(),
            communication_specifiers: Vec::new(),
            protocol_attributes: Vec::new(),
            allowed_addresses: Vec::new(),
            denied_addresses: Vec::new(),
            reserved_indexes: Vec::new(),
        }
    }
}

impl DeviceConfigurationManagerBuilder {
    /// Whether the configuration can be put to work; if not, what is wrong
    /// with it. An unregistered protocol is reported before an overlong list
    /// of features, and that before a clash of reservations.
    pub open spec fn spec_check(&self) -> Result<(), ButtplugDeviceConfigError> {
        if !specifiers_registered(self.communication_specifiers@, self.protocols@)
            || !attributes_registered(self.protocol_attributes@, self.protocols@) {
            Err(ButtplugDeviceConfigError::ProtocolNotRegistered)
        } else if !attributes_well_formed(self.protocol_attributes@) {
            Err(ButtplugDeviceConfigError::TooManyFeatures)
        } else if !reservations_distinct(self.reserved_indexes@) {
            Err(ButtplugDeviceConfigError::ReservedIndexConflict)
        } else {
            Ok(())
        }
    }

    /// Welcomes an address. Once any address is welcomed, no other is.
    pub fn allowed_address(&mut self, address: &str) -> (r: &mut Self)
        ensures
            r.allowed_addresses@.len() == old(self).allowed_addresses@.len() + 1,
            r.allowed_addresses@.last()@ == address@,
            r.allowed_addresses@.drop_last() == old(self).allowed_addresses@,
            *r == (DeviceConfigurationManagerBuilder {
                allowed_addresses: r.allowed_addresses,
                ..*old(self)
            }),
            *final(self) == *final(r),
    {
        self.allowed_addresses.push(address.to_owned());
        assert(self.allowed_addresses@.drop_last() =~= old(self).allowed_addresses@);
        self
    }

    /// Turns an address away.
    pub fn denied_address(&mut self, address: &str) -> (r: &mut Self)
        ensures
            r.denied_addresses@.len() == old(self).denied_addresses@.len() + 1,
            r.denied_addresses@.last()@ == address@,
            r.denied_addresses@.drop_last() == old(self).denied_addresses@,
            *r == (DeviceConfigurationManagerBuilder {
                denied_addresses: r.denied_addresses,
                ..*old(self)
            }),
            *final(self) == *final(r),
    {
        self.denied_addresses.push(address.to_owned());
        assert(self.denied_addresses@.drop_last() =~= old(self).denied_addresses@);
        self
    }

    /// Keeps an index for a device.
    pub fn reserved_index(&mut self, identifier: &ServerDeviceIdentifier, index: u32) -> (r: &mut Self)
        ensures
            r.reserved_indexes@ == old(self).reserved_indexes@.push(
                ReservedIndex { identifier: *identifier, index },
            ),
            *r == (DeviceConfigurationManagerBuilder {
                reserved_indexes: r.reserved_indexes,
                ..*old(self)
            }),
            *final(self) == *final(r),
    {
        self.reserved_indexes.push(ReservedIndex { identifier: identifier.duplicate(), index });
        self
    }

    /// Registers a protocol by its name.
    pub fn protocol_factory(&mut self, protocol_name: &str) -> (r: &mut Self)
        ensures
            r.protocols@.len() == old(self).protocols@.len() + 1,
            r.protocols@.last()@ == protocol_name@,
            r.protocols@.drop_last() == old(self).protocols@,
            *r == (DeviceConfigurationManagerBuilder { protocols: r.protocols, ..*old(self) }),
            *final(self) == *final(r),
    {
        self.protocols.push(protocol_name.to_owned());
        assert(self.protocols@.drop_last() =~= old(self).protocols@);
        self
    }

    /// Says what the hardware of a protocol looks like. A protocol may be
    /// given several specifiers; they are tried in the order given.
    pub fn communication_specifier(
        &mut self,
        protocol_name: &str,
        specifier: ProtocolCommunicationSpecifier,
    ) -> (r: &mut Self)
        ensures
            r.communication_specifiers@.len() == old(self).communication_specifiers@.len() + 1,
            r.communication_specifiers@.last().protocol@ == protocol_name@,
            r.communication_specifiers@.last().specifier == specifier,
            r.communication_specifiers@.drop_last() == old(self).communication_specifiers@,
            *r == (DeviceConfigurationManagerBuilder {
                communication_specifiers: r.communication_specifiers,
                ..*old(self)
            }),
            *final(self) == *final(r),
    {
        self.communication_specifiers.push(
            CommunicationSpecifierRecord { protocol: protocol_name.to_owned(), specifier },
        );
        assert(self.communication_specifiers@.drop_last() =~= old(self).communication_specifiers@);
        self
    }

    /// Says what a model of a protocol takes.
    pub fn protocol_attributes(
        &mut self,
        protocol_name: &str,
        identifier: ProtocolAttributesIdentifier,
        attributes: ProtocolDeviceAttributes,
    ) -> (r: &mut Self)
        ensures
            r.protocol_attributes@.len() == old(self).protocol_attributes@.len() + 1,
            r.protocol_attributes@.last().protocol@ == protocol_name@,
            r.protocol_attributes@.last().identifier == identifier,
            r.protocol_attributes@.last().attributes == attributes,
            r.protocol_attributes@.drop_last() == old(self).protocol_attributes@,
            *r == (DeviceConfigurationManagerBuilder {
                protocol_attributes: r.protocol_attributes,
                ..*old(self)
            }),
            *final(self) == *final(r),
    {
        self.protocol_attributes.push(
            ProtocolAttributesRecord { protocol: protocol_name.to_owned(), identifier, attributes },
        );
        assert(self.protocol_attributes@.drop_last() =~= old(self).protocol_attributes@);
        self
    }

    /// Asks that the protocols that come with the server be left out.
    pub fn skip_default_protocols(&mut self) -> (r: &mut Self)
        ensures
            *r == (DeviceConfigurationManagerBuilder { skip_default_protocols: true, ..*old(self) }),
            *final(self) == *final(r),
    {
        self.skip_default_protocols = true;
        self
    }

    /// Opens raw commands on every device.
    pub fn allow_raw_messages(&mut self) -> (r: &mut Self)
        ensures
            *r == (DeviceConfigurationManagerBuilder { allow_raw_messages: true, ..*old(self) }),
            *final(self) == *final(r),
    {
        self.allow_raw_messages = true;
        self
    }

    /// Says whether every record names a registered protocol.
    fn check_registered(&self) -> (r: bool)
        ensures
            r == (specifiers_registered(self.communication_specifiers@, self.protocols@)
                && attributes_registered(self.protocol_attributes@, self.protocols@)),
    {
        let mut i: usize = 0;
        while i < self.communication_specifiers.len()
            invariant
                i <= self.communication_specifiers@.len(),
                forall|j: int|
                    0 <= j < i ==> spec_contains_text(
                        self.protocols@,
                        (#[trigger] self.communication_specifiers@[j]).protocol@,
                    ),
            decreases self.communication_specifiers@.len() - i,
        {
            if !contains_text(&self.protocols, &self.communication_specifiers[i].protocol) {
                return false;
            }
            i += 1;
        }
        let mut k: usize = 0;
        while k < self.protocol_attributes.len()
            invariant
                k <= self.protocol_attributes@.len(),
                specifiers_registered(self.communication_specifiers@, self.protocols@),
                forall|j: int|
                    0 <= j < k ==> spec_contains_text(
                        self.protocols@,
                        (#[trigger] self.protocol_attributes@[j]).protocol@,
                    ),
            decreases self.protocol_attributes@.len() - k,
        {
            if !contains_text(&self.protocols, &self.protocol_attributes[k].protocol) {
                return false;
            }
            k += 1;
        }
        true
    }


    /// Checks the configuration and names what is wrong with it, if
    /// anything is.
    pub fn check(&self) -> (r: Result<(), ButtplugDeviceConfigError>)
        ensures
            r == self.spec_check(),
    {
        if !self.check_registered() {
            return Err(ButtplugDeviceConfigError::ProtocolNotRegistered);
        }
        if !check_attributes(&self.protocol_attributes) {
            return Err(ButtplugDeviceConfigError::TooManyFeatures);
        }
        if !check_reservations(&self.reserved_indexes) {
            return Err(ButtplugDeviceConfigError::ReservedIndexConflict);
        }
        Ok(())
    }

    /// Whether two builders hold the same: the same switches, and list for
    /// list the same in the same order.
    pub open spec fn same_contents(&self, other: &DeviceConfigurationManagerBuilder) -> bool {
        &&& self.skip_default_protocols == other.skip_default_protocols
        &&& self.allow_raw_messages == other.allow_raw_messages
        &&& self.protocols@ == other.protocols@
        &&& same_specifiers(self.communication_specifiers@, other.communication_specifiers@)
        &&& same_attributes(self.protocol_attributes@, other.protocol_attributes@)
        &&& self.allowed_addresses@ == other.allowed_addresses@
        &&& self.denied_addresses@ == other.denied_addresses@
        &&& self.reserved_indexes@ == other.reserved_indexes@
    }

    /// Builders that hold the same pass or fail the check alike.
    pub proof fn lemma_same_contents_same_check(
        a: DeviceConfigurationManagerBuilder,
        b: DeviceConfigurationManagerBuilder,
    )
        requires
            a.same_contents(&b),
        ensures
            a.spec_check() == b.spec_check(),
    {
        assert(specifiers_registered(a.communication_specifiers@, a.protocols@)
            == specifiers_registered(b.communication_specifiers@, b.protocols@)) by {
            if specifiers_registered(a.communication_specifiers@, a.protocols@) {
                assert forall|i: int| 0 <= i < b.communication_specifiers@.len() implies spec_contains_text(
                    b.protocols@,
                    (#[trigger] b.communication_specifiers@[i]).protocol@,
                ) by {
                    assert(a.communication_specifiers@[i].protocol == b.communication_specifiers@[i].protocol);
                }
            }
            if specifiers_registered(b.communication_specifiers@, b.protocols@) {
                assert forall|i: int| 0 <= i < a.communication_specifiers@.len() implies spec_contains_text(
                    a.protocols@,
                    (#[trigger] a.communication_specifiers@[i]).protocol@,
                ) by {
                    assert(a.communication_specifiers@[i].protocol == b.communication_specifiers@[i].protocol);
                }
            }
        }
        assert(attributes_registered(a.protocol_attributes@, a.protocols@) == attributes_registered(
            b.protocol_attributes@,
            b.protocols@,
        )) by {
            if attributes_registered(a.protocol_attributes@, a.protocols@) {
                assert forall|i: int| 0 <= i < b.protocol_attributes@.len() implies spec_contains_text(
                    b.protocols@,
                    (#[trigger] b.protocol_attributes@[i]).protocol@,
                ) by {
                    assert(a.protocol_attributes@[i].protocol == b.protocol_attributes@[i].protocol);
                }
            }
            if attributes_registered(b.protocol_attributes@, b.protocols@) {
                assert forall|i: int| 0 <= i < a.protocol_attributes@.len() implies spec_contains_text(
                    a.protocols@,
                    (#[trigger] a.protocol_attributes@[i]).protocol@,
                ) by {
                    assert(a.protocol_attributes@[i].protocol == b.protocol_attributes@[i].protocol);
                }
            }
        }
        assert(attributes_well_formed(a.protocol_attributes@) == attributes_well_formed(
            b.protocol_attributes@,
        )) by {
            if attributes_well_formed(a.protocol_attributes@) {
                assert forall|i: int|
                    0 <= i < b.protocol_attributes@.len() implies (
                #[trigger] b.protocol_attributes@[i]).attributes.message_attributes@.well_formed() by {
                    assert(a.protocol_attributes@[i].attributes.message_attributes@.well_formed());
                }
            }
            if attributes_well_formed(b.protocol_attributes@) {
                assert forall|i: int|
                    0 <= i < a.protocol_attributes@.len() implies (
                #[trigger] a.protocol_attributes@[i]).attributes.message_attributes@.well_formed() by {
                    assert(b.protocol_attributes@[i].attributes.message_attributes@.well_formed());
                }
            }
        }
    }

    /// Checks the configuration and, where it is in order, hands back the
    /// configuration the server works with. The builder goes on holding what
    /// it held, so that it can be added to and finished again.
    pub fn finish(&mut self) -> (r: Result<DeviceConfigurationManager, ButtplugDeviceConfigError>)
        ensures
            r matches Err(e) ==> old(self).spec_check() == Err::<(), ButtplugDeviceConfigError>(e)
                && *final(self) == *old(self),
            r matches Ok(manager) ==> {
                &&& old(self).spec_check() is Ok
                &&& manager.well_formed()
                &&& manager.allow_raw_messages == old(self).allow_raw_messages
                &&& manager.protocols == old(self).protocols
                &&& manager.communication_specifiers == old(self).communication_specifiers
                &&& manager.protocol_attributes == old(self).protocol_attributes
                &&& manager.allowed_addresses == old(self).allowed_addresses
                &&& manager.denied_addresses == old(self).denied_addresses
                &&& manager.reserved_indexes == old(self).reserved_indexes
                &&& final(self).same_contents(old(self))
                &&& final(self).spec_check() is Ok
            },
    {
        if let Err(e) = self.check() {
            return Err(e);
        }
        // The server gets the lists themselves; the builder keeps copies.
        let mut protocols = duplicate_texts(&self.protocols);
        let mut communication_specifiers = duplicate_specifiers(&self.communication_specifiers);
        let mut protocol_attributes = duplicate_attributes(&self.protocol_attributes);
        let mut allowed_addresses = duplicate_texts(&self.allowed_addresses);
        let mut denied_addresses = duplicate_texts(&self.denied_addresses);
        let mut reserved_indexes = duplicate_reservations(&self.reserved_indexes);
        core::mem::swap(&mut self.protocols, &mut protocols);
        core::mem::swap(&mut self.communication_specifiers, &mut communication_specifiers);
        core::mem::swap(&mut self.protocol_attributes, &mut protocol_attributes);
        core::mem::swap(&mut self.allowed_addresses, &mut allowed_addresses);
        core::mem::swap(&mut self.denied_addresses, &mut denied_addresses);
        core::mem::swap(&mut self.reserved_indexes, &mut reserved_indexes);
        proof {
            Self::lemma_same_contents_same_check(*self, *old(self));
        }
        Ok(
            DeviceConfigurationManager {
                allow_raw_messages: self.allow_raw_messages,
                protocols,
                communication_specifiers,
                protocol_attributes,
                allowed_addresses,
                denied_addresses,
                reserved_indexes,
            },
        )
    }
}

/// What it takes to make a device of one protocol: the protocol's name, the
/// attributes on record, and whether raw commands are open.
pub struct ProtocolBuilder<'a> {
    pub protocol: &'a String,
    pub attributes: &'a Vec<ProtocolAttributesRecord>,
    pub allow_raw_messages: bool,
}

/// The attributes on record for a model, as a device of that model on
/// hardware with these endpoints gets them: raw commands are open on all the
/// endpoints where they are allowed, and closed otherwise.
pub open spec fn gated_attributes(
    recorded: DeviceMessageAttributesView,
    allow_raw_messages: bool,
    endpoints: Seq<Endpoint>,
) -> DeviceMessageAttributesView {
    DeviceMessageAttributesView {
        raw_endpoints: if allow_raw_messages {
            Some(endpoints)
        } else {
            None
        },
        ..recorded
    }
}

impl<'a> ProtocolBuilder<'a> {
    /// Looks up what a model takes. A model without a record of its own goes
    /// by the protocol's default; a protocol without either has nothing for
    /// the model.
    pub fn attributes_for(&self, identifier: &ProtocolAttributesIdentifier, endpoints: &Vec<Endpoint>) -> (r:
        Option<ProtocolDeviceAttributes>)
        ensures
            r is Some <==> attributes_position(self.attributes@, self.protocol@, identifier) is Some,
            r matches Some(found) ==> {
                let recorded = self.attributes@[attributes_position(
                    self.attributes@,
                    self.protocol@,
                    identifier,
                )->0].attributes;
                &&& found.name == recorded.name
                &&& found.display_name == recorded.display_name
                &&& found.message_attributes@ == gated_attributes(
                    recorded.message_attributes@,
                    self.allow_raw_messages,
                    endpoints@,
                )
            },
    {
        let position = match self.find(identifier) {
            Some(position) => position,
            None => match self.find(&ProtocolAttributesIdentifier::Default) {
                Some(position) => position,
                None => {
                    return None;
                },
            },
        };
        let recorded = &self.attributes[position].attributes;
        let mut found = recorded.duplicate();
        found.message_attributes.raw_endpoints = if self.allow_raw_messages {
            Some(duplicate_endpoints(endpoints))
        } else {
            None
        };
        Some(found)
    }

    /// Finds the first record that is for this model of the protocol.
    fn find(&self, identifier: &ProtocolAttributesIdentifier) -> (r: Option<usize>)
        ensures
            r matches Some(position) ==> first_attributes_for(
                self.attributes@,
                self.protocol@,
                identifier,
                0,
            ) == Some(position as int) && position < self.attributes@.len(),
            r is None ==> first_attributes_for(self.attributes@, self.protocol@, identifier, 0) is None,
    {
        let mut i: usize = 0;
        while i < self.attributes.len()
            invariant
                i <= self.attributes@.len(),
                first_attributes_for(self.attributes@, self.protocol@, identifier, 0)
                    == first_attributes_for(self.attributes@, self.protocol@, identifier, i as int),
            decreases self.attributes@.len() - i,
        {
            if self.attributes[i].protocol == *self.protocol && self.attributes[i].identifier
                == *identifier {
                return Some(i);
            }
            i += 1;
        }
        None
    }

    /// Says whether the protocol has something on record for a model, be it
    /// the model's own or the protocol's default.
    pub fn has_attributes_for(&self, identifier: &ProtocolAttributesIdentifier) -> (r: bool)
        ensures
            r == attributes_position(self.attributes@, self.protocol@, identifier) is Some,
    {
        self.find(identifier).is_some() || self.find(&ProtocolAttributesIdentifier::Default).is_some()
    }

    /// Whether a device of this model can be made, and what it takes if so.
    pub open spec fn spec_can_create(&self, identifier: &ProtocolAttributesIdentifier) -> bool {
        attributes_position(self.attributes@, self.protocol@, identifier) is Some
    }

    /// Makes the device for hardware that is connected and whose model is
    /// known. There is no device where the protocol has nothing on record
    /// for the model. A device is made without a name of the user's
    /// choosing; the name on record for the model stays with what the model
    /// takes, for whoever wants to give it to the device.
    pub fn create(&self, identifier: ProtocolAttributesIdentifier, hardware: DeviceImpl) -> (r: Option<
        ButtplugDevice,
    >)
        requires
            attributes_well_formed(self.attributes@),
        ensures
            r is Some <==> self.spec_can_create(&identifier),
            r matches Some(device) ==> {
                let recorded = self.attributes@[attributes_position(
                    self.attributes@,
                    self.protocol@,
                    &identifier,
                )->0].attributes;
                &&& device.well_formed()
                &&& device.device == hardware
                &&& device.display_name is None
                &&& device.protocol.device_attributes.display_name == recorded.display_name
                &&& device.protocol.protocol_identifier@ == self.protocol@
                &&& device.protocol.protocol_attributes_identifier == identifier
                &&& device.protocol.device_attributes.name == recorded.name
                &&& device.protocol.device_attributes.message_attributes@ == gated_attributes(
                    recorded.message_attributes@,
                    self.allow_raw_messages,
                    hardware.endpoints@,
                )
                &&& forall|f: int|
                    0 <= f < device.protocol.last_scalars@.len()
                        ==> device.protocol.last_scalars@[f] is None
            },
    {
        proof {
            lemma_attributes_position(self.attributes@, self.protocol@, &identifier, 0);
            lemma_attributes_position(
                self.attributes@,
                self.protocol@,
                &ProtocolAttributesIdentifier::Default,
                0,
            );
        }
        match self.attributes_for(&identifier, &hardware.endpoints) {
            None => None,
            Some(attributes) => {
                let protocol = ButtplugProtocol::new(self.protocol.as_str(), identifier, attributes);
                Some(ButtplugDevice::new(protocol, hardware))
            },
        }
    }
}

impl DeviceConfigurationManager {
    /// Whether the configuration is in order: the reservations do not clash
    /// and no set of attributes is longer than an index can count.
    pub open spec fn well_formed(&self) -> bool {
        &&& reservations_distinct(self.reserved_indexes@)
        &&& attributes_well_formed(self.protocol_attributes@)
    }

    /// Says whether the configuration is in order.
    pub fn is_well_formed(&self) -> (r: bool)
        ensures
            r == self.well_formed(),
    {
        check_reservations(&self.reserved_indexes) && check_attributes(&self.protocol_attributes)
    }

    /// Finds the protocol whose hardware this is: that of the first specifier,
    /// in the order they were given, that the hardware fits.
    pub fn protocol_builder<'a>(&'a self, specifier: &ProtocolCommunicationSpecifier) -> (r: Option<
        ProtocolBuilder<'a>,
    >)
        ensures
            r is Some <==> first_matching_specifier(self.communication_specifiers@, specifier, 0) is Some,
            r matches Some(builder) ==> {
                &&& builder.protocol == &self.communication_specifiers@[first_matching_specifier(
                    self.communication_specifiers@,
                    specifier,
                    0,
                )->0].protocol
                &&& builder.attributes == &self.protocol_attributes
                &&& builder.allow_raw_messages == self.allow_raw_messages
            },
    {
        let mut i: usize = 0;
        while i < self.communication_specifiers.len()
            invariant
                i <= self.communication_specifiers@.len(),
                first_matching_specifier(self.communication_specifiers@, specifier, 0)
                    == first_matching_specifier(self.communication_specifiers@, specifier, i as int),
            decreases self.communication_specifiers@.len() - i,
        {
            if self.communication_specifiers[i].specifier.matches(specifier) {
                return Some(
                    ProtocolBuilder {
                        protocol: &self.communication_specifiers[i].protocol,
                        attributes: &self.protocol_attributes,
                        allow_raw_messages: self.allow_raw_messages,
                    },
                );
            }
            i += 1;
        }
        None
    }

    /// Whether a device at this address may be taken on: where any address
    /// is welcomed, only the welcomed ones; otherwise all but those turned
    /// away.
    pub open spec fn spec_address_allowed(&self, address: Seq<char>) -> bool {
        if self.allowed_addresses@.len() > 0 {
            spec_contains_text(self.allowed_addresses@, address)
        } else {
            !spec_contains_text(self.denied_addresses@, address)
        }
    }

    /// Says whether a device at this address may be taken on.
    pub fn address_allowed(&self, address: &str) -> (r: bool)
        ensures
            r == self.spec_address_allowed(address@),
    {
        let text = address.to_owned();
        if self.allowed_addresses.len() > 0 {
            contains_text(&self.allowed_addresses, &text)
        } else {
            !contains_text(&self.denied_addresses, &text)
        }
    }

    /// The index that is kept for a device, if one is.
    pub open spec fn spec_reserved_index(&self, identifier: &ServerDeviceIdentifier) -> Option<u32> {
        match first_reservation_for(self.reserved_indexes@, identifier, 0) {
            Some(position) => Some(self.reserved_indexes@[position].index),
            None => None,
        }
    }

    /// Returns the index that is kept for a device, if one is.
    pub fn reserved_index(&self, identifier: &ServerDeviceIdentifier) -> (r: Option<u32>)
        ensures
            r == self.spec_reserved_index(identifier),
    {
        let mut i: usize = 0;
        while i < self.reserved_indexes.len()
            invariant
                i <= self.reserved_indexes@.len(),
                first_reservation_for(self.reserved_indexes@, identifier, 0) == first_reservation_for(
                    self.reserved_indexes@,
                    identifier,
                    i as int,
                ),
            decreases self.reserved_indexes@.len() - i,
        {
            if self.reserved_indexes[i].identifier == *identifier {
                return Some(self.reserved_indexes[i].index);
            }
            i += 1;
        }
        None
    }

    /// Says whether an index is kept for some device.
    pub fn is_reserved(&self, index: u32) -> (r: bool)
        ensures
            r == spec_is_reserved(self.reserved_indexes@, index),
    {
        let mut i: usize = 0;
        while i < self.reserved_indexes.len()
            invariant
                i <= self.reserved_indexes@.len(),
                forall|j: int| 0 <= j < i ==> (#[trigger] self.reserved_indexes@[j]).index != index,
            decreases self.reserved_indexes@.len() - i,
        {
            if self.reserved_indexes[i].index == index {
                return true;
            }
            i += 1;
        }
        false
    }

    /// Says whether raw commands are open on every device.
    pub fn raw_messages_allowed(&self) -> (r: bool)
        ensures
            r == self.allow_raw_messages,
    {
        self.allow_raw_messages
    }
}

} // verus!
