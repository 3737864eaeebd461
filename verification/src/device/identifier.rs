//! What tells one device from every other: its protocol, the model within
//! the protocol, and the address of the hardware.

use vstd::prelude::*;
use vstd::string::StringExecFns;

verus! {

/// The model of a device within its protocol: the protocol's default, or a
/// model the protocol names.
#[derive(Clone, Debug, Eq, Hash)]
pub enum ProtocolAttributesIdentifier {
    Default,
    Identifier(String),
}

impl ProtocolAttributesIdentifier {
    /// Whether two identifiers are both the default or both name the same
    /// model.
    pub open spec fn same(&self, other: &ProtocolAttributesIdentifier) -> bool {
        match (self, other) {
            (ProtocolAttributesIdentifier::Default, ProtocolAttributesIdentifier::Default) => true,
            (
                ProtocolAttributesIdentifier::Identifier(a),
                ProtocolAttributesIdentifier::Identifier(b),
            ) => a@ == b@,
            _ => false,
        }
    }
}

impl vstd::std_specs::cmp::PartialEqSpecImpl for ProtocolAttributesIdentifier {
    open spec fn obeys_eq_spec() -> bool {
        true
    }

    open spec fn eq_spec(&self, other: &ProtocolAttributesIdentifier) -> bool {
        self.same(other)
    }
}

impl PartialEq for ProtocolAttributesIdentifier {
    /// Two identifiers are equal when both are the default or both name the
    /// same model.
    fn eq(&self, other: &ProtocolAttributesIdentifier) -> (r: bool) {
        match (self, other) {
            (ProtocolAttributesIdentifier::Default, ProtocolAttributesIdentifier::Default) => true,
            (
                ProtocolAttributesIdentifier::Identifier(a),
                ProtocolAttributesIdentifier::Identifier(b),
            ) => *a == *b,
            _ => false,
        }
    }
}

impl ProtocolAttributesIdentifier {
    /// Copies the identifier.
    pub fn duplicate(&self) -> (r: Self)
        ensures
            r == *self,
    {
        match self {
            ProtocolAttributesIdentifier::Default => ProtocolAttributesIdentifier::Default,
            ProtocolAttributesIdentifier::Identifier(s) => ProtocolAttributesIdentifier::Identifier(
                s.clone(),
            ),
        }
    }
}

/// The key a device is known by: the address of its hardware, its protocol
/// and its model within the protocol.
#[derive(Clone, Debug, Eq, Hash)]
pub struct ServerDeviceIdentifier {
    pub address: String,
    pub protocol: String,
    pub attributes_identifier: ProtocolAttributesIdentifier,
}

impl ServerDeviceIdentifier {
    /// Whether two keys agree in all three parts.
    pub open spec fn same(&self, other: &ServerDeviceIdentifier) -> bool {
        &&& self.address@ == other.address@
        &&& self.protocol@ == other.protocol@
        &&& self.attributes_identifier.same(&other.attributes_identifier)
    }
}

impl vstd::std_specs::cmp::PartialEqSpecImpl for ServerDeviceIdentifier {
    open spec fn obeys_eq_spec() -> bool {
        true
    }

    open spec fn eq_spec(&self, other: &ServerDeviceIdentifier) -> bool {
        self.same(other)
    }
}

impl PartialEq for ServerDeviceIdentifier {
    /// Two keys are equal when all three parts are.
    fn eq(&self, other: &ServerDeviceIdentifier) -> (r: bool) {
        self.address == other.address && self.protocol == other.protocol
            && self.attributes_identifier == other.attributes_identifier
    }
}

impl ServerDeviceIdentifier {
    /// Creates the key.
    pub fn new(address: &str, protocol: &str, attributes_identifier: &ProtocolAttributesIdentifier) -> (r:
        Self)
        ensures
            r.address@ == address@,
            r.protocol@ == protocol@,
            r.attributes_identifier == *attributes_identifier,
    {
        ServerDeviceIdentifier {
            address: address.to_owned(),
            protocol: protocol.to_owned(),
            attributes_identifier: attributes_identifier.duplicate(),
        }
    }

    /// Returns the address of the hardware.
    pub fn address(&self) -> (r: &String)
        ensures
            r == &self.address,
    {
        &self.address
    }

    /// Returns the name of the protocol.
    pub fn protocol(&self) -> (r: &String)
        ensures
            r == &self.protocol,
    {
        &self.protocol
    }

    /// Returns the model within the protocol.
    pub fn attributes_identifier(&self) -> (r: &ProtocolAttributesIdentifier)
        ensures
            r == &self.attributes_identifier,
    {
        &self.attributes_identifier
    }

    /// Copies the key.
    pub fn duplicate(&self) -> (r: Self)
        ensures
            r == *self,
    {
        ServerDeviceIdentifier {
            address: self.address.clone(),
            protocol: self.protocol.clone(),
            attributes_identifier: self.attributes_identifier.duplicate(),
        }
    }
}

/// The text that the standard library's debug formatting writes for a string:
/// the string between double quotes, with what cannot stand there escaped.
pub uninterp spec fn spec_debug_quoted(text: Seq<char>) -> Seq<char>;

/// Writes a string as debug formatting does: `format!` with `{:?}` on a
/// string slice. The result is named, not spelled out: it depends on the
/// text alone.
#[verifier::external_body]
fn debug_quoted(text: &str) -> (r: String)
    ensures
        r@ == spec_debug_quoted(text@),
{
    format!("{:?}", text)
}

/// The quoted name of a model that has one; nothing for the default.
pub open spec fn spec_quoted_model(identifier: ProtocolAttributesIdentifier) -> Option<Seq<char>> {
    match identifier {
        ProtocolAttributesIdentifier::Default => None,
        ProtocolAttributesIdentifier::Identifier(name) => Some(spec_debug_quoted(name@)),
    }
}

/// The text that stands for a model, given the quoted name of a model that
/// has one: the variant's name, and for a named model the quoted name in
/// brackets after it.
pub open spec fn spec_model_text(quoted: Option<Seq<char>>) -> Seq<char> {
    match quoted {
        None => "Default"@,
        Some(name) => "Identifier("@ + name + ")"@,
    }
}

/// The one-line form of a key from its parts, the model given by its quoted
/// name: protocol, model and address, with a bar between them.
pub open spec fn spec_joined_identifier(
    protocol_identifier: Seq<char>,
    quoted_model: Option<Seq<char>>,
    device_address: Seq<char>,
) -> Seq<char> {
    protocol_identifier + "|"@ + spec_model_text(quoted_model) + "|"@ + device_address
}

/// The text debug formatting writes for a model: the variant's name, and for
/// a named model the name in brackets, quoted.
pub open spec fn spec_attributes_debug(identifier: ProtocolAttributesIdentifier) -> Seq<char> {
    spec_model_text(spec_quoted_model(identifier))
}

/// The one-line form of a device's key: protocol, model and address, with a
/// bar between them.
pub open spec fn spec_device_identifier(
    protocol_identifier: Seq<char>,
    protocol_attributes_identifier: ProtocolAttributesIdentifier,
    device_address: Seq<char>,
) -> Seq<char> {
    spec_joined_identifier(
        protocol_identifier,
        spec_quoted_model(protocol_attributes_identifier),
        device_address,
    )
}

/// The text of a quoted name, where there is one.
pub open spec fn spec_quoted_text(quoted_model: Option<&str>) -> Option<Seq<char>> {
    match quoted_model {
        Some(name) => Some(name@),
        None => None,
    }
}

/// Joins the parts of a key into its one-line form. The model comes as the
/// quoted name of a named model, or as nothing for the default.
pub fn join_device_identifier(
    protocol_identifier: &str,
    quoted_model: Option<&str>,
    device_address: &str,
) -> (r: String)
    ensures
        r@ == spec_joined_identifier(
            protocol_identifier@,
            spec_quoted_text(quoted_model),
            device_address@,
        ),
{
    let mut text = String::from_str(protocol_identifier);
    text.append("|");
    match quoted_model {
        None => {
            text.append("Default");
        },
        Some(name) => {
            text.append("Identifier(");
            text.append(name);
            text.append(")");
        },
    }
    text.append("|");
    text.append(device_address);
    text
}

/// Writes a device's key on one line, for logs.
pub fn form_device_identifier(
    protocol_identifier: &str,
    protocol_attributes_identifier: &ProtocolAttributesIdentifier,
    device_address: &str,
) -> (r: String)
    ensures
        r@ == spec_device_identifier(
            protocol_identifier@,
            *protocol_attributes_identifier,
            device_address@,
        ),
{
    match protocol_attributes_identifier {
        ProtocolAttributesIdentifier::Default => join_device_identifier(
            protocol_identifier,
            None,
            device_address,
        ),
        ProtocolAttributesIdentifier::Identifier(name) => {
            let quoted = debug_quoted(name.as_str());
            join_device_identifier(protocol_identifier, Some(quoted.as_str()), device_address)
        },
    }
}

} // verus!
