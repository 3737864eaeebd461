//! Hardware as the server sees it: the endpoints a device offers, the
//! commands that go to them, and the device itself with what it was last told.

mod buttplug_device;
pub mod configuration_manager;
pub mod discovery;
mod endpoint;
mod identifier;
pub mod protocol;
pub mod specifier;

pub use buttplug_device::ButtplugDevice;
pub use endpoint::Endpoint;
pub use identifier::{
    form_device_identifier, join_device_identifier, spec_attributes_debug, spec_debug_quoted,
    spec_device_identifier, spec_joined_identifier, spec_model_text, spec_quoted_model,
    spec_quoted_text, ProtocolAttributesIdentifier, ServerDeviceIdentifier,
};

use crate::errors::{ButtplugDeviceError, ButtplugError};
use crate::messages::{
    duplicate_endpoints, OkMessage, RawReadCmd, RawReading, RawSubscribeCmd, RawUnsubscribeCmd,
    RawWriteCmd,
};
use vstd::prelude::*;
use vstd::std_specs::convert::FromSpecImpl;

verus! {

/// A read of an endpoint.
#[derive(Clone, Copy, Debug, PartialEq, Eq, Structural)]
pub struct DeviceReadCmd {
    pub endpoint: Endpoint,
    pub length: u32,
    pub timeout_ms: u32,
}

impl DeviceReadCmd {
    /// Creates the read.
    pub fn new(endpoint: Endpoint, length: u32, timeout_ms: u32) -> (r: Self)
        ensures
            r == (DeviceReadCmd { endpoint, length, timeout_ms }),
    {
        DeviceReadCmd { endpoint, length, timeout_ms }
    }
}

impl FromSpecImpl<RawReadCmd> for DeviceReadCmd {
    open spec fn obeys_from_spec() -> bool {
        true
    }

    open spec fn from_spec(msg: RawReadCmd) -> DeviceReadCmd {
        DeviceReadCmd { endpoint: msg.endpoint, length: msg.expected_length, timeout_ms: msg.timeout }
    }
}

impl From<RawReadCmd> for DeviceReadCmd {
    /// The read that a raw read command asks for.
    fn from(msg: RawReadCmd) -> (r: Self) {
        DeviceReadCmd {
            endpoint: msg.endpoint(),
            length: msg.expected_length(),
            timeout_ms: msg.timeout(),
        }
    }
}

/// A write to an endpoint.
#[derive(Clone, Debug, PartialEq, Eq)]
pub struct DeviceWriteCmd {
    pub endpoint: Endpoint,
    pub data: Vec<u8>,
    pub write_with_response: bool,
}

impl DeviceWriteCmd {
    /// Creates the write.
    pub fn new(endpoint: Endpoint, data: Vec<u8>, write_with_response: bool) -> (r: Self)
        ensures
            r == (DeviceWriteCmd { endpoint, data, write_with_response }),
    {
        DeviceWriteCmd { endpoint, data, write_with_response }
    }
}

impl FromSpecImpl<RawWriteCmd> for DeviceWriteCmd {
    open spec fn obeys_from_spec() -> bool {
        true
    }

    open spec fn from_spec(msg: RawWriteCmd) -> DeviceWriteCmd {
        DeviceWriteCmd {
            endpoint: msg.endpoint,
            data: msg.data,
            write_with_response: msg.write_with_response,
        }
    }
}

impl From<RawWriteCmd> for DeviceWriteCmd {
    /// The write that a raw write command asks for, with the very bytes of
    /// the command.
    fn from(msg: RawWriteCmd) -> (r: Self) {
        DeviceWriteCmd {
            endpoint: msg.endpoint,
            data: msg.data,
            write_with_response: msg.write_with_response,
        }
    }
}

/// The start of a subscription to an endpoint.
#[derive(Clone, Copy, Debug, PartialEq, Eq, Structural)]
pub struct DeviceSubscribeCmd {
    pub endpoint: Endpoint,
}

impl DeviceSubscribeCmd {
    /// Creates the subscription.
    pub fn new(endpoint: Endpoint) -> (r: Self)
        ensures
            r == (DeviceSubscribeCmd { endpoint }),
    {
        DeviceSubscribeCmd { endpoint }
    }
}

impl FromSpecImpl<RawSubscribeCmd> for DeviceSubscribeCmd {
    open spec fn obeys_from_spec() -> bool {
        true
    }

    open spec fn from_spec(msg: RawSubscribeCmd) -> DeviceSubscribeCmd {
        DeviceSubscribeCmd { endpoint: msg.endpoint }
    }
}

impl From<RawSubscribeCmd> for DeviceSubscribeCmd {
    /// The subscription that a raw subscribe command asks for.
    fn from(msg: RawSubscribeCmd) -> (r: Self) {
        DeviceSubscribeCmd { endpoint: msg.endpoint() }
    }
}

/// The end of a subscription to an endpoint.
#[derive(Clone, Copy, Debug, PartialEq, Eq, Structural)]
pub struct DeviceUnsubscribeCmd {
    pub endpoint: Endpoint,
}

impl DeviceUnsubscribeCmd {
    /// Creates the end of a subscription.
    pub fn new(endpoint: Endpoint) -> (r: Self)
        ensures
            r == (DeviceUnsubscribeCmd { endpoint }),
    {
        DeviceUnsubscribeCmd { endpoint }
    }
}

impl FromSpecImpl<RawUnsubscribeCmd> for DeviceUnsubscribeCmd {
    open spec fn obeys_from_spec() -> bool {
        true
    }

    open spec fn from_spec(msg: RawUnsubscribeCmd) -> DeviceUnsubscribeCmd {
        DeviceUnsubscribeCmd { endpoint: msg.endpoint }
    }
}

impl From<RawUnsubscribeCmd> for DeviceUnsubscribeCmd {
    /// The end of a subscription that a raw unsubscribe command asks for.
    fn from(msg: RawUnsubscribeCmd) -> (r: Self) {
        DeviceUnsubscribeCmd { endpoint: msg.endpoint() }
    }
}

/// Anything that can be asked of an endpoint.
#[derive(Clone, Debug, PartialEq, Eq)]
pub enum DeviceImplCommand {
    Write(DeviceWriteCmd),
    Read(DeviceReadCmd),
    Subscribe(DeviceSubscribeCmd),
    Unsubscribe(DeviceUnsubscribeCmd),
}

impl DeviceImplCommand {
    /// The endpoint the command is for.
    pub open spec fn spec_endpoint(&self) -> Endpoint {
        match self {
            DeviceImplCommand::Write(c) => c.endpoint,
            DeviceImplCommand::Read(c) => c.endpoint,
            DeviceImplCommand::Subscribe(c) => c.endpoint,
            DeviceImplCommand::Unsubscribe(c) => c.endpoint,
        }
    }

    /// Returns the endpoint the command is for.
    pub fn endpoint(&self) -> (r: Endpoint)
        ensures
            r == self.spec_endpoint(),
    {
        match self {
            DeviceImplCommand::Write(c) => c.endpoint,
            DeviceImplCommand::Read(c) => c.endpoint,
            DeviceImplCommand::Subscribe(c) => c.endpoint,
            DeviceImplCommand::Unsubscribe(c) => c.endpoint,
        }
    }
}

impl FromSpecImpl<RawWriteCmd> for DeviceImplCommand {
    open spec fn obeys_from_spec() -> bool {
        true
    }

    open spec fn from_spec(msg: RawWriteCmd) -> DeviceImplCommand {
        DeviceImplCommand::Write(
            DeviceWriteCmd {
                endpoint: msg.endpoint,
                data: msg.data,
                write_with_response: msg.write_with_response,
            },
        )
    }
}

impl From<RawWriteCmd> for DeviceImplCommand {
    fn from(msg: RawWriteCmd) -> (r: Self) {
        DeviceImplCommand::Write(DeviceWriteCmd::from(msg))
    }
}

impl FromSpecImpl<RawReadCmd> for DeviceImplCommand {
    open spec fn obeys_from_spec() -> bool {
        true
    }

    open spec fn from_spec(msg: RawReadCmd) -> DeviceImplCommand {
        DeviceImplCommand::Read(
            DeviceReadCmd {
                endpoint: msg.endpoint,
                length: msg.expected_length,
                timeout_ms: msg.timeout,
            },
        )
    }
}

impl From<RawReadCmd> for DeviceImplCommand {
    fn from(msg: RawReadCmd) -> (r: Self) {
        DeviceImplCommand::Read(DeviceReadCmd::from(msg))
    }
}

impl FromSpecImpl<RawSubscribeCmd> for DeviceImplCommand {
    open spec fn obeys_from_spec() -> bool {
        true
    }

    open spec fn from_spec(msg: RawSubscribeCmd) -> DeviceImplCommand {
        DeviceImplCommand::Subscribe(DeviceSubscribeCmd { endpoint: msg.endpoint })
    }
}

impl From<RawSubscribeCmd> for DeviceImplCommand {
    fn from(msg: RawSubscribeCmd) -> (r: Self) {
        DeviceImplCommand::Subscribe(DeviceSubscribeCmd::from(msg))
    }
}

impl FromSpecImpl<RawUnsubscribeCmd> for DeviceImplCommand {
    open spec fn obeys_from_spec() -> bool {
        true
    }

    open spec fn from_spec(msg: RawUnsubscribeCmd) -> DeviceImplCommand {
        DeviceImplCommand::Unsubscribe(DeviceUnsubscribeCmd { endpoint: msg.endpoint })
    }
}

impl From<RawUnsubscribeCmd> for DeviceImplCommand {
    fn from(msg: RawUnsubscribeCmd) -> (r: Self) {
        DeviceImplCommand::Unsubscribe(DeviceUnsubscribeCmd::from(msg))
    }
}

impl FromSpecImpl<DeviceReadCmd> for DeviceImplCommand {
    open spec fn obeys_from_spec() -> bool {
        true
    }

    open spec fn from_spec(msg: DeviceReadCmd) -> DeviceImplCommand {
        DeviceImplCommand::Read(msg)
    }
}

impl From<DeviceReadCmd> for DeviceImplCommand {
    fn from(msg: DeviceReadCmd) -> (r: Self) {
        DeviceImplCommand::Read(msg)
    }
}

impl FromSpecImpl<DeviceWriteCmd> for DeviceImplCommand {
    open spec fn obeys_from_spec() -> bool {
        true
    }

    open spec fn from_spec(msg: DeviceWriteCmd) -> DeviceImplCommand {
        DeviceImplCommand::Write(msg)
    }
}

impl From<DeviceWriteCmd> for DeviceImplCommand {
    fn from(msg: DeviceWriteCmd) -> (r: Self) {
        DeviceImplCommand::Write(msg)
    }
}

impl FromSpecImpl<DeviceSubscribeCmd> for DeviceImplCommand {
    open spec fn obeys_from_spec() -> bool {
        true
    }

    open spec fn from_spec(msg: DeviceSubscribeCmd) -> DeviceImplCommand {
        DeviceImplCommand::Subscribe(msg)
    }
}

impl From<DeviceSubscribeCmd> for DeviceImplCommand {
    fn from(msg: DeviceSubscribeCmd) -> (r: Self) {
        DeviceImplCommand::Subscribe(msg)
    }
}

impl FromSpecImpl<DeviceUnsubscribeCmd> for DeviceImplCommand {
    open spec fn obeys_from_spec() -> bool {
        true
    }

    open spec fn from_spec(msg: DeviceUnsubscribeCmd) -> DeviceImplCommand {
        DeviceImplCommand::Unsubscribe(msg)
    }
}

impl From<DeviceUnsubscribeCmd> for DeviceImplCommand {
    fn from(msg: DeviceUnsubscribeCmd) -> (r: Self) {
        DeviceImplCommand::Unsubscribe(msg)
    }
}

/// What a piece of hardware says of itself once it is connected.
#[derive(Clone, Debug, PartialEq, Eq)]
pub struct ButtplugDeviceImplInfo {
    pub endpoints: Vec<Endpoint>,
    pub manufacturer_name: Option<String>,
    pub product_name: Option<String>,
    pub serial_number: Option<String>,
}

/// What the server asks of a piece of hardware.
#[derive(Clone, Debug, PartialEq, Eq)]
pub enum ButtplugDeviceCommand {
    Connect,
    Message(DeviceImplCommand),
    Disconnect,
}

/// What a piece of hardware answers.
#[derive(Clone, Debug, PartialEq, Eq)]
pub enum ButtplugDeviceReturn {
    Connected(ButtplugDeviceImplInfo),
    OkMessage(OkMessage),
    RawReading(RawReading),
    Error(ButtplugError),
}

/// What a piece of hardware lets the server know unasked.
#[derive(Clone, Debug, PartialEq, Eq)]
pub enum ButtplugDeviceEvent {
    /// The hardware is set up, and this is the device made of it.
    Connected(ButtplugDevice),
    /// The hardware at this address sent these bytes on this endpoint.
    Notification(String, Endpoint, Vec<u8>),
    /// The hardware at this address is gone.
    Removed(String),
}

/// A connection to a piece of hardware: what it is called, where it lives,
/// which endpoints it offers and whether it is still there.
#[derive(Clone, Debug, PartialEq, Eq)]
pub struct DeviceImpl {
    pub name: String,
    pub address: String,
    pub endpoints: Vec<Endpoint>,
    pub connected: bool,
}

impl DeviceImpl {
    /// Creates the record of a connection that has just been made.
    pub fn new(name: &str, address: &str, endpoints: &[Endpoint]) -> (r: Self)
        ensures
            r.name@ == name@,
            r.address@ == address@,
            r.endpoints@ == endpoints@,
            r.connected,
    {
        let mut copy: Vec<Endpoint> = Vec::new();
        let mut i: usize = 0;
        while i < endpoints.len()
            invariant
                i <= endpoints@.len(),
                copy@ == endpoints@.take(i as int),
            decreases endpoints@.len() - i,
        {
            copy.push(endpoints[i]);
            i += 1;
        }
        assert(endpoints@.take(i as int) == endpoints@);
        DeviceImpl { name: name.to_owned(), address: address.to_owned(), endpoints: copy, connected: true }
    }

    /// Returns the name the hardware gives itself.
    pub fn name(&self) -> (r: &str)
        ensures
            r@ == self.name@,
    {
        self.name.as_str()
    }

    /// Returns the address of the hardware.
    pub fn address(&self) -> (r: &str)
        ensures
            r@ == self.address@,
    {
        self.address.as_str()
    }

    /// Says whether the hardware is still there.
    pub fn connected(&self) -> (r: bool)
        ensures
            r == self.connected,
    {
        self.connected
    }

    /// Returns the endpoints the hardware offers.
    pub fn endpoints(&self) -> (r: Vec<Endpoint>)
        ensures
            r@ == self.endpoints@,
    {
        duplicate_endpoints(&self.endpoints)
    }

    /// Says whether the hardware offers this endpoint.
    pub fn has_endpoint(&self, endpoint: Endpoint) -> (r: bool)
        ensures
            r == self.endpoints@.contains(endpoint),
    {
        let mut i: usize = 0;
        while i < self.endpoints.len()
            invariant
                i <= self.endpoints@.len(),
                forall|j: int| 0 <= j < i ==> self.endpoints@[j] != endpoint,
            decreases self.endpoints@.len() - i,
        {
            if self.endpoints[i] == endpoint {
                return true;
            }
            i += 1;
        }
        false
    }

    /// What asking the hardware for `command` comes to: the command itself
    /// where the hardware is there and has the endpoint, the reason otherwise.
    pub open spec fn spec_submit(&self, command: DeviceImplCommand) -> Result<
        ButtplugDeviceCommand,
        ButtplugDeviceError,
    > {
        if !self.connected {
            Err(ButtplugDeviceError::DeviceNotConnected)
        } else if !self.endpoints@.contains(command.spec_endpoint()) {
            Err(ButtplugDeviceError::InvalidEndpoint(command.spec_endpoint()))
        } else {
            Ok(ButtplugDeviceCommand::Message(command))
        }
    }

    /// Checks a command against the connection and hands back what is to be
    /// sent to the hardware.
    pub fn submit(&self, command: DeviceImplCommand) -> (r: Result<
        ButtplugDeviceCommand,
        ButtplugDeviceError,
    >)
        ensures
            r == self.spec_submit(command),
    {
        if !self.connected {
            return Err(ButtplugDeviceError::DeviceNotConnected);
        }
        let endpoint = command.endpoint();
        if !self.has_endpoint(endpoint) {
            return Err(ButtplugDeviceError::InvalidEndpoint(endpoint));
        }
        Ok(ButtplugDeviceCommand::Message(command))
    }

    /// Asks to end the connection. Nothing is left to end once the hardware
    /// is gone.
    pub fn disconnect(&self) -> (r: Result<ButtplugDeviceCommand, ButtplugDeviceError>)
        ensures
            r == (if self.connected {
                Ok::<ButtplugDeviceCommand, ButtplugDeviceError>(ButtplugDeviceCommand::Disconnect)
            } else {
                Err(ButtplugDeviceError::DeviceNotConnected)
            }),
    {
        if self.connected {
            Ok(ButtplugDeviceCommand::Disconnect)
        } else {
            Err(ButtplugDeviceError::DeviceNotConnected)
        }
    }

    /// Asks to read an endpoint.
    pub fn read_value(&self, msg: DeviceReadCmd) -> (r: Result<
        ButtplugDeviceCommand,
        ButtplugDeviceError,
    >)
        ensures
            r == self.spec_submit(DeviceImplCommand::Read(msg)),
    {
        self.submit(DeviceImplCommand::Read(msg))
    }

    /// Asks to write to an endpoint.
    pub fn write_value(&self, msg: DeviceWriteCmd) -> (r: Result<
        ButtplugDeviceCommand,
        ButtplugDeviceError,
    >)
        ensures
            r == self.spec_submit(DeviceImplCommand::Write(msg)),
    {
        self.submit(DeviceImplCommand::Write(msg))
    }

    /// Asks to subscribe to an endpoint.
    pub fn subscribe(&self, msg: DeviceSubscribeCmd) -> (r: Result<
        ButtplugDeviceCommand,
        ButtplugDeviceError,
    >)
        ensures
            r == self.spec_submit(DeviceImplCommand::Subscribe(msg)),
    {
        self.submit(DeviceImplCommand::Subscribe(msg))
    }

    /// Asks to end a subscription to an endpoint.
    pub fn unsubscribe(&self, msg: DeviceUnsubscribeCmd) -> (r: Result<
        ButtplugDeviceCommand,
        ButtplugDeviceError,
    >)
        ensures
            r == self.spec_submit(DeviceImplCommand::Unsubscribe(msg)),
    {
        self.submit(DeviceImplCommand::Unsubscribe(msg))
    }
}

} // verus!
