//! How a protocol says which hardware is its own, and how a piece of
//! hardware that was found is held against that.

use vstd::prelude::*;
use vstd::utf8::encode_utf8;

verus! {

/// The byte that ends a name pattern which stands for every name that
/// begins as the pattern does.
pub const WILDCARD: u8 = 42;

/// Whether a text begins with another, byte for byte.
pub open spec fn spec_starts_with(text: Seq<char>, prefix: Seq<char>) -> bool {
    encode_utf8(prefix).is_prefix_of(encode_utf8(text))
}

/// Whether `bytes` begins with the first `count` bytes of `prefix`.
fn bytes_start_with(bytes: &[u8], prefix: &[u8], count: usize) -> (r: bool)
    requires
        count <= prefix@.len(),
    ensures
        r == prefix@.take(count as int).is_prefix_of(bytes@),
{
    if count > bytes.len() {
        return false;
    }
    let mut i: usize = 0;
    while i < count
        invariant
            i <= count <= bytes@.len(),
            count <= prefix@.len(),
            forall|j: int| 0 <= j < i ==> bytes@[j] == prefix@[j],
        decreases count - i,
    {
        if bytes[i] != prefix[i] {
            assert(prefix@.take(count as int)[i as int] != bytes@.subrange(0, count as int)[i as int]);
            return false;
        }
        i += 1;
    }
    assert(prefix@.take(count as int) =~= bytes@.subrange(0, count as int));
    true
}

/// Says whether a text begins with another, byte for byte.
pub fn starts_with(text: &str, prefix: &str) -> (r: bool)
    ensures
        r == spec_starts_with(text@, prefix@),
{
    let bytes = text.as_bytes();
    let wanted = prefix.as_bytes();
    assert(wanted@.take(wanted@.len() as int) =~= wanted@);
    bytes_start_with(bytes, wanted, wanted.len())
}

/// Whether a name fits a pattern. A pattern that ends in the wildcard fits
/// every name that begins with what stands before the wildcard; any other
/// pattern fits the one name that is equal to it.
pub open spec fn spec_name_matches(pattern: Seq<char>, name: Seq<char>) -> bool {
    let p = encode_utf8(pattern);
    let n = encode_utf8(name);
    if p.len() > 0 && p.last() == WILDCARD {
        p.drop_last().is_prefix_of(n)
    } else {
        p == n
    }
}

/// Says whether a name fits a pattern.
pub fn name_matches(pattern: &str, name: &str) -> (r: bool)
    ensures
        r == spec_name_matches(pattern@, name@),
{
    let p = pattern.as_bytes();
    let n = name.as_bytes();
    if p.len() > 0 && p[p.len() - 1] == WILDCARD {
        assert(p@.take(p@.len() - 1) =~= p@.drop_last());
        bytes_start_with(n, p, p.len() - 1)
    } else {
        assert(p@.take(p@.len() as int) =~= p@);
        let whole = bytes_start_with(n, p, p.len());
        proof {
            if whole && p@.len() == n@.len() {
                assert(p@ =~= n@);
            }
        }
        whole && p.len() == n.len()
    }
}

/// Whether one of the names fits one of the patterns.
pub open spec fn spec_any_name_matches(patterns: Seq<String>, names: Seq<String>) -> bool {
    exists|i: int, j: int|
        0 <= i < patterns.len() && 0 <= j < names.len() && spec_name_matches(
            #[trigger] patterns[i]@,
            #[trigger] names[j]@,
        )
}

/// Says whether one of the names fits one of the patterns.
pub fn any_name_matches(patterns: &Vec<String>, names: &Vec<String>) -> (r: bool)
    ensures
        r == spec_any_name_matches(patterns@, names@),
{
    let mut i: usize = 0;
    while i < patterns.len()
        invariant
            i <= patterns@.len(),
            forall|a: int, b: int|
                0 <= a < i && 0 <= b < names@.len() ==> !spec_name_matches(
                    #[trigger] patterns@[a]@,
                    #[trigger] names@[b]@,
                ),
        decreases patterns@.len() - i,
    {
        let mut j: usize = 0;
        while j < names.len()
            invariant
                i < patterns@.len(),
                j <= names@.len(),
                forall|b: int|
                    0 <= b < j ==> !spec_name_matches(patterns@[i as int]@, #[trigger] names@[b]@),
            decreases names@.len() - j,
        {
            if name_matches(patterns[i].as_str(), names[j].as_str()) {
                return true;
            }
            j += 1;
        }
        i += 1;
    }
    false
}

/// Whether a text is among the texts of a list.
pub open spec fn spec_contains_text(list: Seq<String>, text: Seq<char>) -> bool {
    exists|i: int| 0 <= i < list.len() && (#[trigger] list[i])@ == text
}

/// Says whether a text is among the texts of a list.
pub fn contains_text(list: &Vec<String>, text: &String) -> (r: bool)
    ensures
        r == spec_contains_text(list@, text@),
{
    let mut i: usize = 0;
    while i < list.len()
        invariant
            i <= list@.len(),
            forall|j: int| 0 <= j < i ==> (#[trigger] list@[j])@ != text@,
        decreases list@.len() - i,
    {
        if list[i] == *text {
            return true;
        }
        i += 1;
    }
    false
}

/// Whether every text of `required` is among the texts of `present`.
pub open spec fn spec_contains_all(present: Seq<String>, required: Seq<String>) -> bool {
    forall|i: int| 0 <= i < required.len() ==> spec_contains_text(present, (#[trigger] required[i])@)
}

/// Says whether every text of `required` is among the texts of `present`.
pub fn contains_all(present: &Vec<String>, required: &Vec<String>) -> (r: bool)
    ensures
        r == spec_contains_all(present@, required@),
{
    let mut i: usize = 0;
    while i < required.len()
        invariant
            i <= required@.len(),
            forall|j: int| 0 <= j < i ==> spec_contains_text(present@, (#[trigger] required@[j])@),
        decreases required@.len() - i,
    {
        if !contains_text(present, &required[i]) {
            return false;
        }
        i += 1;
    }
    true
}

/// Whether one of the texts of `candidates` is among the texts of `list`.
pub open spec fn spec_contains_any(list: Seq<String>, candidates: Seq<String>) -> bool {
    exists|j: int|
        0 <= j < candidates.len() && spec_contains_text(list, (#[trigger] candidates[j])@)
}

/// Says whether one of the texts of `candidates` is among the texts of `list`.
pub fn contains_any(list: &Vec<String>, candidates: &Vec<String>) -> (r: bool)
    ensures
        r == spec_contains_any(list@, candidates@),
{
    let mut j: usize = 0;
    while j < candidates.len()
        invariant
            j <= candidates@.len(),
            forall|k: int| 0 <= k < j ==> !spec_contains_text(list@, (#[trigger] candidates@[k])@),
        decreases candidates@.len() - j,
    {
        if contains_text(list, &candidates[j]) {
            return true;
        }
        j += 1;
    }
    false
}

/// Hardware on Bluetooth LE: the names or name patterns it advertises under,
/// and the services it has to offer.
#[derive(Clone, Debug, PartialEq, Eq)]
pub struct BluetoothLESpecifier {
    pub names: Vec<String>,
    pub services: Vec<String>,
}

/// Hardware on a serial port: the port, or the beginning of its name, and the
/// settings of the line.
#[derive(Clone, Debug, PartialEq, Eq)]
pub struct SerialSpecifier {
    pub port: String,
    pub baud_rate: u32,
    pub data_bits: u8,
    pub parity: char,
    pub stop_bits: u8,
}

/// Hardware on USB, by vendor and product.
#[derive(Clone, Copy, Debug, PartialEq, Eq, Structural)]
pub struct USBSpecifier {
    pub vendor_id: u16,
    pub product_id: u16,
}

/// Hardware that speaks HID, by vendor and product.
#[derive(Clone, Copy, Debug, PartialEq, Eq, Structural)]
pub struct HIDSpecifier {
    pub vendor_id: u16,
    pub product_id: u16,
}

/// Hardware that calls in over a websocket, by the names it may give.
#[derive(Clone, Debug, PartialEq, Eq)]
pub struct WebsocketSpecifier {
    pub names: Vec<String>,
}

/// How hardware is reached and recognised. In a configuration a specifier
/// says what a protocol's hardware looks like; from a transport it says what
/// a piece of hardware that was found looks like.
#[derive(Clone, Debug, PartialEq, Eq)]
pub enum ProtocolCommunicationSpecifier {
    BluetoothLE(BluetoothLESpecifier),
    Serial(SerialSpecifier),
    USB(USBSpecifier),
    HID(HIDSpecifier),
    Websocket(WebsocketSpecifier),
    XInput,
    LovenseConnectService,
}

/// Copies a list of texts.
pub fn duplicate_texts(list: &Vec<String>) -> (r: Vec<String>)
    ensures
        r@ == list@,
{
    let mut copy: Vec<String> = Vec::new();
    let mut i: usize = 0;
    while i < list.len()
        invariant
            i <= list@.len(),
            copy@ == list@.take(i as int),
        decreases list@.len() - i,
    {
        copy.push(list[i].clone());
        i += 1;
    }
    assert(list@.take(i as int) == list@);
    copy
}

impl ProtocolCommunicationSpecifier {
    /// Whether two specifiers say the same: they are for the same transport
    /// and agree in everything they say of it.
    pub open spec fn same_as(&self, other: &ProtocolCommunicationSpecifier) -> bool {
        match (self, other) {
            (
                ProtocolCommunicationSpecifier::BluetoothLE(a),
                ProtocolCommunicationSpecifier::BluetoothLE(b),
            ) => a.names@ == b.names@ && a.services@ == b.services@,
            (
                ProtocolCommunicationSpecifier::Serial(a),
                ProtocolCommunicationSpecifier::Serial(b),
            ) => a == b,
            (ProtocolCommunicationSpecifier::USB(a), ProtocolCommunicationSpecifier::USB(b)) => a == b,
            (ProtocolCommunicationSpecifier::HID(a), ProtocolCommunicationSpecifier::HID(b)) => a == b,
            (
                ProtocolCommunicationSpecifier::Websocket(a),
                ProtocolCommunicationSpecifier::Websocket(b),
            ) => a.names@ == b.names@,
            (
                ProtocolCommunicationSpecifier::XInput,
                ProtocolCommunicationSpecifier::XInput,
            ) => true,
            (
                ProtocolCommunicationSpecifier::LovenseConnectService,
                ProtocolCommunicationSpecifier::LovenseConnectService,
            ) => true,
            _ => false,
        }
    }

    /// Copies the specifier.
    pub fn duplicate(&self) -> (r: Self)
        ensures
            r.same_as(self),
    {
        match self {
            ProtocolCommunicationSpecifier::BluetoothLE(a) => ProtocolCommunicationSpecifier::BluetoothLE(
                BluetoothLESpecifier {
                    names: duplicate_texts(&a.names),
                    services: duplicate_texts(&a.services),
                },
            ),
            ProtocolCommunicationSpecifier::Serial(a) => ProtocolCommunicationSpecifier::Serial(
                SerialSpecifier {
                    port: a.port.clone(),
                    baud_rate: a.baud_rate,
                    data_bits: a.data_bits,
                    parity: a.parity,
                    stop_bits: a.stop_bits,
                },
            ),
            ProtocolCommunicationSpecifier::USB(a) => ProtocolCommunicationSpecifier::USB(*a),
            ProtocolCommunicationSpecifier::HID(a) => ProtocolCommunicationSpecifier::HID(*a),
            ProtocolCommunicationSpecifier::Websocket(a) => ProtocolCommunicationSpecifier::Websocket(
                WebsocketSpecifier { names: duplicate_texts(&a.names) },
            ),
            ProtocolCommunicationSpecifier::XInput => ProtocolCommunicationSpecifier::XInput,
            ProtocolCommunicationSpecifier::LovenseConnectService => ProtocolCommunicationSpecifier::LovenseConnectService,
        }
    }
}

impl ProtocolCommunicationSpecifier {
    /// Whether hardware that was found is what this specifier describes.
    ///
    /// On Bluetooth LE one of the found names has to fit one of the names or
    /// patterns, and every service asked for has to be there. On a serial
    /// port the port's name has to begin with the configured one. USB and HID
    /// have to agree in vendor and product. A websocket has to give one of
    /// the names. The transports without parameters match themselves. Across
    /// transports nothing matches.
    pub open spec fn spec_matches(&self, found: &ProtocolCommunicationSpecifier) -> bool {
        match (self, found) {
            (
                ProtocolCommunicationSpecifier::BluetoothLE(wanted),
                ProtocolCommunicationSpecifier::BluetoothLE(seen),
            ) => spec_any_name_matches(wanted.names@, seen.names@) && spec_contains_all(
                seen.services@,
                wanted.services@,
            ),
            (
                ProtocolCommunicationSpecifier::Serial(wanted),
                ProtocolCommunicationSpecifier::Serial(seen),
            ) => spec_starts_with(seen.port@, wanted.port@),
            (
                ProtocolCommunicationSpecifier::USB(wanted),
                ProtocolCommunicationSpecifier::USB(seen),
            ) => wanted == seen,
            (
                ProtocolCommunicationSpecifier::HID(wanted),
                ProtocolCommunicationSpecifier::HID(seen),
            ) => wanted == seen,
            (
                ProtocolCommunicationSpecifier::Websocket(wanted),
                ProtocolCommunicationSpecifier::Websocket(seen),
            ) => spec_contains_any(wanted.names@, seen.names@),
            (
                ProtocolCommunicationSpecifier::XInput,
                ProtocolCommunicationSpecifier::XInput,
            ) => true,
            (
                ProtocolCommunicationSpecifier::LovenseConnectService,
                ProtocolCommunicationSpecifier::LovenseConnectService,
            ) => true,
            _ => false,
        }
    }

    /// Says whether hardware that was found is what this specifier describes.
    pub fn matches(&self, found: &ProtocolCommunicationSpecifier) -> (r: bool)
        ensures
            r == self.spec_matches(found),
    {
        match (self, found) {
            (
                ProtocolCommunicationSpecifier::BluetoothLE(wanted),
                ProtocolCommunicationSpecifier::BluetoothLE(seen),
            ) => any_name_matches(&wanted.names, &seen.names) && contains_all(
                &seen.services,
                &wanted.services,
            ),
            (
                ProtocolCommunicationSpecifier::Serial(wanted),
                ProtocolCommunicationSpecifier::Serial(seen),
            ) => starts_with(seen.port.as_str(), wanted.port.as_str()),
            (
                ProtocolCommunicationSpecifier::USB(wanted),
                ProtocolCommunicationSpecifier::USB(seen),
            ) => wanted.vendor_id == seen.vendor_id && wanted.product_id == seen.product_id,
            (
                ProtocolCommunicationSpecifier::HID(wanted),
                ProtocolCommunicationSpecifier::HID(seen),
            ) => wanted.vendor_id == seen.vendor_id && wanted.product_id == seen.product_id,
            (
                ProtocolCommunicationSpecifier::Websocket(wanted),
                ProtocolCommunicationSpecifier::Websocket(seen),
            ) => contains_any(&wanted.names, &seen.names),
            (
                ProtocolCommunicationSpecifier::XInput,
                ProtocolCommunicationSpecifier::XInput,
            ) => true,
            (
                ProtocolCommunicationSpecifier::LovenseConnectService,
                ProtocolCommunicationSpecifier::LovenseConnectService,
            ) => true,
            _ => false,
        }
    }
}

} // verus!
