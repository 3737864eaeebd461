//! The session with a client: the opening exchange, the watch over the
//! client's pings, and the way of every message from the wire to the device
//! manager and of every reply back.

use crate::device::ButtplugDevice;
use crate::errors::{ButtplugError, ButtplugHandshakeError, ButtplugPingError};
use crate::messages::{
    in_command_range, ButtplugDeviceCommandMessageUnion, ButtplugMessage,
    ButtplugMessageSpecVersion, ButtplugMessageType, ButtplugMessageUnion,
    ButtplugMessageUnionVersion1, ButtplugMessageUnionVersion2, ButtplugSystemMessageUnion,
    DeviceAdded, DeviceRemoved, OkMessage, ScalarCmd, ScanningFinished, ServerInfo,
};
use crate::server::device_manager::{
    any_scanning, has_identifier, index_available, is_assigned_index, spec_vibrators,
    CommunicationManagerState, ManagerAction, ManagerOutcome, ServerDeviceManager,
};
use crate::server::message_variant::ButtplugMessageVariant;
use vstd::prelude::*;

verus! {

/// What the server makes of a message: the reply that is due once the
/// actions are carried out, in the client's wire version, and the actions.
/// Where the hardware fails at what a command for one device asks of it, an
/// error under the reply's id goes out in the reply's place; where that is a
/// read, the reading does. A device that cannot be told to stop when all
/// devices are stopped changes nothing of the reply.
#[derive(Clone, Debug, PartialEq, Eq)]
pub struct ServerOutcome {
    pub reply: ButtplugMessageVariant,
    pub actions: Vec<ManagerAction>,
}

/// The server for one client.
pub struct ButtplugServer {
    name: String,
    max_ping_time: u32,
    client_name: Option<String>,
    spec_version: Option<ButtplugMessageSpecVersion>,
    last_ping: u64,
    pinged_out: bool,
    device_manager: ServerDeviceManager,
}

/// The refusal of a message for reasons of the session.
pub open spec fn handshake_error(e: ButtplugHandshakeError) -> ButtplugError {
    ButtplugError::ButtplugHandshakeError(e)
}

impl ButtplugServer {
    /// The name the server gives itself.
    pub closed spec fn server_name(&self) -> Seq<char> {
        self.name@
    }

    /// The longest silence the server accepts from its client, in
    /// milliseconds; zero for no limit.
    pub closed spec fn max_ping_time(&self) -> u32 {
        self.max_ping_time
    }

    /// The name the client gave itself, once it has.
    pub closed spec fn client_name(&self) -> Option<String> {
        self.client_name
    }

    /// The wire version of the session, once the opening exchange is done.
    pub closed spec fn client_version(&self) -> Option<ButtplugMessageSpecVersion> {
        self.spec_version
    }

    /// When the client was last heard to be there.
    pub closed spec fn last_ping(&self) -> u64 {
        self.last_ping
    }

    /// Whether the client has been silent for too long once.
    pub closed spec fn pinged_out(&self) -> bool {
        self.pinged_out
    }

    /// The device manager.
    pub closed spec fn manager(&self) -> ServerDeviceManager {
        self.device_manager
    }

    /// What holds of the server at all times: its device manager is in
    /// order.
    pub open spec fn well_formed(&self) -> bool {
        self.manager().well_formed()
    }

    /// Whether everything but the device manager is the same in two states.
    pub open spec fn same_session(&self, other: &ButtplugServer) -> bool {
        &&& self.server_name() == other.server_name()
        &&& self.max_ping_time() == other.max_ping_time()
        &&& self.client_name() == other.client_name()
        &&& self.client_version() == other.client_version()
        &&& self.last_ping() == other.last_ping()
        &&& self.pinged_out() == other.pinged_out()
    }

    /// Creates a server that no client has spoken to yet.
    pub fn new(name: &str, max_ping_time: u32, device_manager: ServerDeviceManager) -> (r: Self)
        requires
            device_manager.well_formed(),
        ensures
            r.well_formed(),
            r.server_name() == name@,
            r.max_ping_time() == max_ping_time,
            r.client_name() is None,
            r.client_version() is None,
            r.last_ping() == 0,
            !r.pinged_out(),
            r.manager() == device_manager,
    {
        ButtplugServer {
            name: name.to_owned(),
            max_ping_time,
            client_name: None,
            spec_version: None,
            last_ping: 0,
            pinged_out: false,
            device_manager,
        }
    }

    /// Says whether the opening exchange is done.
    pub fn connected(&self) -> (r: bool)
        ensures
            r == self.client_version() is Some,
    {
        self.spec_version.is_some()
    }

    /// Returns the wire version of the session, once the opening exchange is
    /// done.
    pub fn spec_version(&self) -> (r: Option<ButtplugMessageSpecVersion>)
        ensures
            r == self.client_version(),
    {
        self.spec_version
    }

    /// Returns the device manager.
    pub fn device_manager(&self) -> (r: &ServerDeviceManager)
        ensures
            *r == self.manager(),
    {
        &self.device_manager
    }

    /// The wire version a reply to a message goes out in: that of the
    /// session once there is one, that of the message before.
    pub open spec fn reply_version(&self, msg: ButtplugMessageVariant) -> ButtplugMessageSpecVersion {
        match self.client_version() {
            Some(version) => version,
            None => msg.spec_version(),
        }
    }

    /// The refusal that a message meets before anything is done with it, if
    /// it meets one. After the client has been silent for too long nothing
    /// is taken any more. A message that breaks a rule on its own fields is
    /// refused for that. Before the opening exchange only the request for
    /// server info is taken; after it that request is not taken again, and
    /// every message has to be in the version agreed on.
    pub open spec fn spec_refusal(&self, msg: ButtplugMessageVariant) -> Option<ButtplugError> {
        if self.pinged_out() {
            Some(ButtplugError::ButtplugPingError(ButtplugPingError::PingedOut))
        } else if msg.spec_is_valid() is Err {
            Some(ButtplugError::ButtplugMessageError(msg.spec_is_valid()->Err_0))
        } else {
            match self.client_version() {
                None => if msg.spec_message_type() == ButtplugMessageType::RequestServerInfo {
                    None
                } else {
                    Some(handshake_error(ButtplugHandshakeError::RequestServerInfoExpected))
                },
                Some(version) => if msg.spec_version() != version {
                    Some(
                        handshake_error(
                            ButtplugHandshakeError::MessageSpecVersionMismatch {
                                expected: version,
                                received: msg.spec_version(),
                            },
                        ),
                    )
                } else if msg.spec_message_type() == ButtplugMessageType::RequestServerInfo {
                    Some(handshake_error(ButtplugHandshakeError::HandshakeAlreadyHappened))
                } else {
                    None
                },
            }
        }
    }

    /// Finds the refusal that a message meets before anything is done with
    /// it.
    fn refusal(&self, msg: &ButtplugMessageVariant) -> (r: Option<ButtplugError>)
        ensures
            r == self.spec_refusal(*msg),
    {
        if self.pinged_out {
            return Some(ButtplugError::ButtplugPingError(ButtplugPingError::PingedOut));
        }
        if let Err(e) = msg.is_valid() {
            return Some(ButtplugError::ButtplugMessageError(e));
        }
        let is_request = match msg.message_type() {
            ButtplugMessageType::RequestServerInfo => true,
            _ => false,
        };
        match self.spec_version {
            None => if is_request {
                None
            } else {
                Some(ButtplugError::ButtplugHandshakeError(ButtplugHandshakeError::RequestServerInfoExpected))
            },
            Some(version) => if msg.version().number() != version.number() {
                Some(
                    ButtplugError::ButtplugHandshakeError(
                        ButtplugHandshakeError::MessageSpecVersionMismatch {
                            expected: version,
                            received: msg.version(),
                        },
                    ),
                )
            } else if is_request {
                Some(ButtplugError::ButtplugHandshakeError(ButtplugHandshakeError::HandshakeAlreadyHappened))
            } else {
                None
            },
        }
    }

    /// The number of vibrators that counts when a message is brought to the
    /// newest wire version: that of the device the one-speed command is for.
    pub open spec fn spec_vibrators_for(&self, msg: ButtplugMessageVariant) -> u32 {
        match msg.spec_single_motor_device() {
            Some(index) => spec_vibrators(self.manager().devices(), index),
            None => 0,
        }
    }

    /// What the server makes of a message that met no refusal and is `up` in
    /// the newest wire version.
    ///
    /// A conversion that failed is reported. The request for server info
    /// opens the session: the version is the older of the client's and the
    /// server's own, the watch over the pings begins, and the answer names
    /// the version and the longest silence accepted. A ping is noted and
    /// confirmed. Anything else is for the device manager, whose refusal is
    /// reported and whose reply goes out in the session's version, with the
    /// actions it asks for.
    pub open spec fn dispatched(
        before: ButtplugServer,
        after: ButtplugServer,
        version: ButtplugMessageSpecVersion,
        id: u32,
        up: Result<ButtplugMessageUnion, ButtplugError>,
        now: u64,
        outcome: ServerOutcome,
    ) -> bool {
        match up {
            Err(e) => {
                &&& after.same_session(&before)
                &&& after.manager() == before.manager()
                &&& outcome.actions@.len() == 0
                &&& outcome.reply.reports(version, id, e)
            },
            Ok(ButtplugMessageUnion::RequestServerInfo(request)) => {
                let agreed = request.message_version.spec_min(ButtplugMessageSpecVersion::Version3);
                &&& after.manager() == before.manager()
                &&& after.server_name() == before.server_name()
                &&& after.max_ping_time() == before.max_ping_time()
                &&& after.pinged_out() == before.pinged_out()
                &&& after.client_name() == Some(request.client_name)
                &&& after.client_version() == Some(agreed)
                &&& after.last_ping() == now
                &&& outcome.actions@.len() == 0
                &&& exists|info: ServerInfo|
                    {
                        &&& info.id == request.id
                        &&& info.message_version == agreed
                        &&& info.max_ping_time == before.max_ping_time()
                        &&& info.server_name@ == before.server_name()
                        &&& #[trigger] ButtplugMessageVariant::downgrades(
                            ButtplugMessageUnion::ServerInfo(info),
                            agreed,
                            Some(outcome.reply),
                        )
                    }
            },
            Ok(ButtplugMessageUnion::Ping(ping)) => {
                &&& after.manager() == before.manager()
                &&& after.server_name() == before.server_name()
                &&& after.max_ping_time() == before.max_ping_time()
                &&& after.pinged_out() == before.pinged_out()
                &&& after.client_name() == before.client_name()
                &&& after.client_version() == before.client_version()
                &&& after.last_ping() == now
                &&& outcome.actions@.len() == 0
                &&& ButtplugMessageVariant::downgrades(
                    ButtplugMessageUnion::OkMessage(OkMessage { id: ping.id }),
                    version,
                    Some(outcome.reply),
                )
            },
            Ok(other) => {
                &&& after.same_session(&before)
                &&& exists|r: Result<ManagerOutcome, ButtplugError>|
                    {
                        &&& #[trigger] ServerDeviceManager::message_parsed(
                            before.manager(),
                            after.manager(),
                            other,
                            r,
                        )
                        &&& match r {
                            Err(e) => outcome.actions@.len() == 0 && outcome.reply.reports(version, id, e),
                            Ok(answer) => {
                                &&& outcome.actions == answer.actions
                                &&& ButtplugMessageVariant::downgrades(
                                    system_message(answer.reply),
                                    version,
                                    Some(outcome.reply),
                                )
                            },
                        }
                    }
            },
        }
    }

    /// What the server makes of a message that arrives at the time `now`.
    /// A message that meets a refusal changes nothing and is answered with
    /// the error. Any other is brought to the newest wire version and dealt
    /// with in that form.
    pub open spec fn message_handled(
        before: ButtplugServer,
        after: ButtplugServer,
        msg: ButtplugMessageVariant,
        now: u64,
        outcome: ServerOutcome,
    ) -> bool {
        match before.spec_refusal(msg) {
            Some(e) => {
                &&& after.same_session(&before)
                &&& after.manager() == before.manager()
                &&& outcome.actions@.len() == 0
                &&& outcome.reply.reports(before.reply_version(msg), msg.spec_id(), e)
            },
            None => exists|up: Result<ButtplugMessageUnion, ButtplugError>|
                {
                    &&& #[trigger] ButtplugMessageVariant::upgrades(
                        msg,
                        before.spec_vibrators_for(msg),
                        up,
                    )
                    &&& Self::dispatched(
                        before,
                        after,
                        before.reply_version(msg),
                        msg.spec_id(),
                        up,
                        now,
                        outcome,
                    )
                },
        }
    }

    /// Puts a reply of the device manager into the session's wire version.
    fn reply_in(version: ButtplugMessageSpecVersion, reply: ButtplugMessageUnion) -> (r:
        ButtplugMessageVariant)
        requires
            reply is OkMessage || reply is DeviceList || reply is ServerInfo,
        ensures
            ButtplugMessageVariant::downgrades(reply, version, Some(r)),
            r.spec_id() == reply.spec_id(),
            r.spec_error() is None,
    {
        match ButtplugMessageVariant::downgrade(reply, version) {
            Some(down) => down,
            None => vstd::pervasive::unreached(),
        }
    }

    /// Handles a message from the client that arrives at the time `now`, in
    /// milliseconds on a clock of the caller's choosing. The reply carries
    /// the id of the message, whatever becomes of it, and only a message
    /// that passes its own check of its fields is answered with anything but
    /// an error.
    pub fn parse_message(&mut self, msg: ButtplugMessageVariant, now: u64) -> (r: ServerOutcome)
        requires
            old(self).well_formed(),
        ensures
            final(self).well_formed(),
            Self::message_handled(*old(self), *final(self), msg, now, r),
            r.reply.spec_id() == msg.spec_id(),
            r.reply.spec_error() is None ==> msg.spec_is_valid() is Ok,
    {
        let id = msg.id();
        let version = match self.spec_version {
            Some(version) => version,
            None => msg.version(),
        };
        if let Some(e) = self.refusal(&msg) {
            return ServerOutcome {
                reply: ButtplugMessageVariant::error(version, id, e),
                actions: Vec::new(),
            };
        }
        let vibrators = match msg.single_motor_device() {
            Some(index) => self.device_manager.vibrators(index),
            None => 0,
        };
        let up = ButtplugMessageVariant::upgrade(msg, vibrators);
        let ghost before = *self;
        let outcome = match up {
            Err(e) => ServerOutcome {
                reply: ButtplugMessageVariant::error(version, id, e),
                actions: Vec::new(),
            },
            Ok(ButtplugMessageUnion::RequestServerInfo(request)) => {
                let agreed = request.message_version.min(ButtplugMessageSpecVersion::Version3);
                let info = ServerInfo {
                    id: request.id,
                    message_version: agreed,
                    max_ping_time: self.max_ping_time,
                    server_name: self.name.clone(),
                };
                self.client_name = Some(request.client_name);
                self.spec_version = Some(agreed);
                self.last_ping = now;
                let reply = Self::reply_in(agreed, ButtplugMessageUnion::ServerInfo(info));
                ServerOutcome { reply, actions: Vec::new() }
            },
            Ok(ButtplugMessageUnion::Ping(ping)) => {
                self.last_ping = now;
                let reply = Self::reply_in(
                    version,
                    ButtplugMessageUnion::OkMessage(OkMessage::new(ping.id)),
                );
                ServerOutcome { reply, actions: Vec::new() }
            },
            Ok(other) => {
                let answered = self.device_manager.parse_message(other);
                match answered {
                    Err(e) => {
                        assert(ServerDeviceManager::message_parsed(
                            before.manager(),
                            self.manager(),
                            other,
                            Err(e),
                        ));
                        ServerOutcome {
                            reply: ButtplugMessageVariant::error(version, id, e),
                            actions: Vec::new(),
                        }
                    },
                    Ok(answer) => {
                        let ghost whole = answer;
                        let reply = Self::reply_in(version, ButtplugMessageUnion::from(answer.reply));
                        assert(ButtplugMessageVariant::downgrades(
                            system_message(whole.reply),
                            version,
                            Some(reply),
                        ));
                        let outcome = ServerOutcome { reply, actions: answer.actions };
                        assert(ServerDeviceManager::message_parsed(
                            before.manager(),
                            self.manager(),
                            other,
                            Ok(whole),
                        ));
                        outcome
                    },
                }
            },
        };
        assert(ButtplugMessageVariant::upgrades(msg, before.spec_vibrators_for(msg), up));
        assert(Self::dispatched(before, *self, before.reply_version(msg), msg.spec_id(), up, now, outcome));
        outcome
    }

    /// Whether the client has been silent for too long at the time `now`:
    /// the session is open, a limit is set, the client has not been given up
    /// before, and more time than the limit has passed since it was last
    /// heard.
    pub open spec fn spec_timed_out(&self, now: u64) -> bool {
        &&& self.client_version() is Some
        &&& self.max_ping_time() > 0
        &&& !self.pinged_out()
        &&& now - self.last_ping() > self.max_ping_time()
    }

    /// Looks at the clock. Where the client has been silent for too long,
    /// every device is stopped and the client is told so with an error of
    /// the ping class under the reserved id; from then on the server takes
    /// nothing more. Otherwise nothing happens.
    pub fn ping_timeout(&mut self, now: u64) -> (r: Option<ServerOutcome>)
        requires
            old(self).well_formed(),
        ensures
            final(self).well_formed(),
            r is Some <==> old(self).spec_timed_out(now),
            r is None ==> final(self).same_session(old(self)) && final(self).manager() == old(
                self,
            ).manager(),
            r matches Some(outcome) ==> {
                &&& final(self).pinged_out()
                &&& final(self).server_name() == old(self).server_name()
                &&& final(self).max_ping_time() == old(self).max_ping_time()
                &&& final(self).client_name() == old(self).client_name()
                &&& final(self).client_version() == old(self).client_version()
                &&& final(self).last_ping() == old(self).last_ping()
                &&& final(self).manager().configuration() == old(self).manager().configuration()
                &&& final(self).manager().transports() == old(self).manager().transports()
                &&& outcome.reply.reports(
                    old(self).client_version()->0,
                    0,
                    ButtplugError::ButtplugPingError(ButtplugPingError::PingedOut),
                )
                &&& exists|stopped: ManagerOutcome|
                    stopped.actions == outcome.actions && #[trigger] ServerDeviceManager::all_devices_stopped(
                        old(self).manager(),
                        final(self).manager(),
                        0,
                        stopped,
                    )
            },
    {
        let version = match self.spec_version {
            Some(version) => version,
            None => {
                return None;
            },
        };
        if self.max_ping_time == 0 || self.pinged_out || now <= self.last_ping || now
            - self.last_ping <= self.max_ping_time as u64 {
            return None;
        }
        self.pinged_out = true;
        let stopped = self.device_manager.stop_all_devices(0);
        let ghost whole = stopped;
        let outcome = ServerOutcome {
            reply: ButtplugMessageVariant::error(
                version,
                0,
                ButtplugError::ButtplugPingError(ButtplugPingError::PingedOut),
            ),
            actions: stopped.actions,
        };
        assert(ServerDeviceManager::all_devices_stopped(
            old(self).manager(),
            self.manager(),
            0,
            whole,
        ));
        Some(outcome)
    }

    /// Puts a message that the server sends unasked into the session's wire
    /// version. Nothing goes out before the opening exchange, and nothing
    /// that the version has no name for.
    pub fn notify(&self, msg: ButtplugSystemMessageUnion) -> (r: Option<ButtplugMessageVariant>)
        ensures
            self.client_version() is None ==> r is None,
            self.client_version() matches Some(version) ==> ButtplugMessageVariant::downgrades(
                system_message(msg),
                version,
                r,
            ),
            r matches Some(out) ==> out.spec_id() == msg.spec_id(),
    {
        match self.spec_version {
            None => None,
            Some(version) => ButtplugMessageVariant::downgrade(ButtplugMessageUnion::from(msg), version),
        }
    }

    /// Takes a device on. See the device manager.
    pub fn add_device(&mut self, device: ButtplugDevice) -> (r: Option<DeviceAdded>)
        requires
            old(self).well_formed(),
            device.well_formed(),
        ensures
            final(self).well_formed(),
            final(self).same_session(old(self)),
            final(self).manager().configuration() == old(self).manager().configuration(),
            final(self).manager().transports() == old(self).manager().transports(),
            r is Some <==> !has_identifier(old(self).manager().devices(), device.spec_identifier())
                && index_available(
                old(self).manager().devices(),
                old(self).manager().configuration().reserved_indexes@,
                device.spec_identifier(),
            ),
            r is None ==> final(self).manager().devices() == old(self).manager().devices(),
            r matches Some(added) ==> {
                &&& added.id == 0
                &&& is_assigned_index(
                    old(self).manager().devices(),
                    old(self).manager().configuration().reserved_indexes@,
                    device.spec_identifier(),
                    added.device_index,
                )
                &&& !old(self).manager().devices().dom().contains(added.device_index)
                &&& final(self).manager().devices() == old(self).manager().devices().insert(
                    added.device_index,
                    device,
                )
                &&& added.device_name@ == device.spec_name()
                &&& added.device_messages@ == device.protocol.device_attributes.message_attributes@
            },
    {
        self.device_manager.add_device(device)
    }

    /// Lets a device go. See the device manager.
    pub fn remove_device(&mut self, index: u32) -> (r: Option<DeviceRemoved>)
        requires
            old(self).well_formed(),
        ensures
            final(self).well_formed(),
            final(self).same_session(old(self)),
            final(self).manager().configuration() == old(self).manager().configuration(),
            final(self).manager().transports() == old(self).manager().transports(),
            final(self).manager().devices() == old(self).manager().devices().remove(index),
            r == (if old(self).manager().devices().dom().contains(index) {
                Some(DeviceRemoved { id: 0, device_index: index })
            } else {
                None
            }),
    {
        self.device_manager.remove_device(index)
    }

    /// Takes note that a transport has finished looking for devices. See the
    /// device manager.
    pub fn scanning_finished(&mut self, manager: usize) -> (r: Option<ScanningFinished>)
        requires
            old(self).well_formed(),
        ensures
            final(self).well_formed(),
            final(self).same_session(old(self)),
            final(self).manager().configuration() == old(self).manager().configuration(),
            final(self).manager().devices() == old(self).manager().devices(),
            final(self).manager().transports() == (if manager < old(self).manager().transports().len() {
                old(self).manager().transports().update(
                    manager as int,
                    CommunicationManagerState {
                        scanning: false,
                        ..old(self).manager().transports()[manager as int]
                    },
                )
            } else {
                old(self).manager().transports()
            }),
            r == (if manager < old(self).manager().transports().len() && old(
                self,
            ).manager().transports()[manager as int].scanning && !any_scanning(
                final(self).manager().transports(),
            ) {
                Some(ScanningFinished { id: 0 })
            } else {
                None
            }),
    {
        self.device_manager.scanning_finished(manager)
    }
}

impl ButtplugServer {
    /// What the server answers with anything but an error has passed its own
    /// check of its fields. For a scalar command that means that every level
    /// lies in the unit interval.
    pub proof fn lemma_accepted_levels_in_range(
        before: ButtplugServer,
        after: ButtplugServer,
        msg: ButtplugMessageVariant,
        now: u64,
        outcome: ServerOutcome,
    )
        requires
            Self::message_handled(before, after, msg, now, outcome),
            outcome.reply.spec_error() is None,
        ensures
            msg.spec_is_valid() is Ok,
            msg matches ButtplugMessageVariant::Version3(ButtplugMessageUnion::ScalarCmd(cmd))
                ==> forall|i: int|
                0 <= i < cmd.scalars@.len() ==> in_command_range((#[trigger] cmd.scalars@[i]).scalar),
            msg matches ButtplugMessageVariant::Version2(ButtplugMessageUnionVersion2::VibrateCmd(cmd))
                ==> forall|i: int|
                0 <= i < cmd.speeds@.len() ==> in_command_range((#[trigger] cmd.speeds@[i]).speed),
            msg matches ButtplugMessageVariant::Version1(ButtplugMessageUnionVersion1::VibrateCmd(cmd))
                ==> forall|i: int|
                0 <= i < cmd.speeds@.len() ==> in_command_range((#[trigger] cmd.speeds@[i]).speed),
    {
        match msg {
            ButtplugMessageVariant::Version3(ButtplugMessageUnion::ScalarCmd(cmd)) => {
                cmd.lemma_valid_levels();
            },
            ButtplugMessageVariant::Version2(ButtplugMessageUnionVersion2::VibrateCmd(cmd)) => {
                cmd.lemma_valid_levels();
            },
            ButtplugMessageVariant::Version1(ButtplugMessageUnionVersion1::VibrateCmd(cmd)) => {
                cmd.lemma_valid_levels();
            },
            _ => {},
        }
    }

    /// A scalar command that the server answers with anything but an error
    /// is for a live device and names only features that the device has.
    pub proof fn lemma_accepted_indices_in_bounds(
        before: ButtplugServer,
        after: ButtplugServer,
        cmd: ScalarCmd,
        now: u64,
        outcome: ServerOutcome,
    )
        requires
            before.well_formed(),
            Self::message_handled(
                before,
                after,
                ButtplugMessageVariant::Version3(ButtplugMessageUnion::ScalarCmd(cmd)),
                now,
                outcome,
            ),
            outcome.reply.spec_error() is None,
        ensures
            before.manager().devices().dom().contains(cmd.device_index),
            forall|i: int|
                0 <= i < cmd.scalars@.len() ==> (#[trigger] cmd.scalars@[i]).index
                    < before.manager().devices()[cmd.device_index].protocol.device_attributes.message_attributes@.scalar_cmd.len(),
    {
        let msg = ButtplugMessageVariant::Version3(ButtplugMessageUnion::ScalarCmd(cmd));
        let up = choose|up: Result<ButtplugMessageUnion, ButtplugError>|
            {
                &&& #[trigger] ButtplugMessageVariant::upgrades(msg, before.spec_vibrators_for(msg), up)
                &&& Self::dispatched(
                    before,
                    after,
                    before.reply_version(msg),
                    msg.spec_id(),
                    up,
                    now,
                    outcome,
                )
            };
        let r = choose|r: Result<ManagerOutcome, ButtplugError>|
            {
                &&& #[trigger] ServerDeviceManager::message_parsed(
                    before.manager(),
                    after.manager(),
                    ButtplugMessageUnion::ScalarCmd(cmd),
                    r,
                )
                &&& match r {
                    Err(e) => outcome.actions@.len() == 0 && outcome.reply.reports(
                        before.reply_version(msg),
                        msg.spec_id(),
                        e,
                    ),
                    Ok(answer) => {
                        &&& outcome.actions == answer.actions
                        &&& ButtplugMessageVariant::downgrades(
                            system_message(answer.reply),
                            before.reply_version(msg),
                            Some(outcome.reply),
                        )
                    },
                }
            };
        let routed = ButtplugDeviceCommandMessageUnion::ScalarCmd(cmd);
        assert(ServerDeviceManager::device_message_routed(before.manager(), after.manager(), routed, r));
        let device = before.manager().devices()[cmd.device_index];
        device.protocol.lemma_accepted_indices_in_bounds(&device.device, routed);
    }
}

/// A message that only a server sends, as a message of the newest wire
/// version.
pub open spec fn system_message(msg: ButtplugSystemMessageUnion) -> ButtplugMessageUnion {
    match msg {
        ButtplugSystemMessageUnion::OkMessage(m) => ButtplugMessageUnion::OkMessage(m),
        ButtplugSystemMessageUnion::Error(m) => ButtplugMessageUnion::Error(m),
        ButtplugSystemMessageUnion::ServerInfo(m) => ButtplugMessageUnion::ServerInfo(m),
        ButtplugSystemMessageUnion::DeviceList(m) => ButtplugMessageUnion::DeviceList(m),
        ButtplugSystemMessageUnion::DeviceAdded(m) => ButtplugMessageUnion::DeviceAdded(m),
        ButtplugSystemMessageUnion::DeviceRemoved(m) => ButtplugMessageUnion::DeviceRemoved(m),
        ButtplugSystemMessageUnion::ScanningFinished(m) => ButtplugMessageUnion::ScanningFinished(m),
        ButtplugSystemMessageUnion::RawReading(m) => ButtplugMessageUnion::RawReading(m),
        ButtplugSystemMessageUnion::SensorReading(m) => ButtplugMessageUnion::SensorReading(m),
    }
}

} // verus!
