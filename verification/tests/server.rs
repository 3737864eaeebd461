use buttplug::device::protocol::{ButtplugProtocol, ProtocolCommand, ProtocolDeviceAttributes};
use buttplug::device::specifier::{ProtocolCommunicationSpecifier, SerialSpecifier};
use buttplug::device::{
    ButtplugDevice, ButtplugDeviceCommand, ButtplugDeviceEvent, DeviceImpl, DeviceImplCommand,
    DeviceWriteCmd, Endpoint, ProtocolAttributesIdentifier, ServerDeviceIdentifier,
};
use buttplug::errors::{
    ButtplugDeviceConfigError, ButtplugDeviceError, ButtplugError, ButtplugMessageError,
    ButtplugServerError, ErrorCode,
};
use buttplug::messages::{
    ActuatorType, ButtplugMessage, ButtplugMessageSpecVersion, ButtplugMessageType,
    ButtplugMessageUnion, ButtplugMessageUnionVersion0, ButtplugMessageUnionVersion1,
    ButtplugMessageUnionVersion2, ButtplugSystemMessageUnion, DeviceAdded, DeviceMessageAttributes,
    DeviceRemoved, Error, GenericDeviceMessageAttributes, OkMessage, Ping, RawReading,
    RawWriteCmd, RequestDeviceList, RequestServerInfo, ScalarCmd, ScalarSubcommand,
    ScanningFinished, SensorReading, SensorType, ServerInfo, SingleMotorVibrateCmd,
    StartScanning, StopAllDevices, StopDeviceCmd, StopScanning, VibrateCmd, VibrateSubcommand,
};
use buttplug::server::comm_manager::{
    DeviceCommunicationEvent, HardwareCommunicationManager, HardwareCommunicationManagerBuilder,
    SerialPortCommunicationManagerBuilder,
};
use buttplug::server::device_manager::{
    CommunicationManagerState, ManagerAction, ServerDeviceInfo, ServerDeviceManager,
    ServerDeviceManagerBuilder,
};
use buttplug::server::message_variant::ButtplugMessageVariant;
use buttplug::server::session::{ButtplugServer, ServerOutcome};

fn bits(value: f64) -> u64 {
    value.to_bits()
}

fn attributes(vibrators: usize) -> ProtocolDeviceAttributes {
    let mut message_attributes = DeviceMessageAttributes::new();
    for i in 0..vibrators {
        message_attributes
            .scalar_cmd
            .push(GenericDeviceMessageAttributes::new(
                &format!("vibrator {i}"),
                20,
                ActuatorType::Vibrate,
            ));
    }
    ProtocolDeviceAttributes::new("Test Device", None, message_attributes)
}

fn serial(port: &str) -> ProtocolCommunicationSpecifier {
    ProtocolCommunicationSpecifier::Serial(SerialSpecifier {
        port: port.to_owned(),
        baud_rate: 0,
        data_bits: 0,
        parity: 'N',
        stop_bits: 0,
    })
}

fn builder(allow_raw: bool) -> ServerDeviceManagerBuilder {
    let mut builder = ServerDeviceManagerBuilder::default();
    builder
        .comm_manager(SerialPortCommunicationManagerBuilder::default())
        .protocol_factory("test")
        .communication_specifier("test", serial("COM"))
        .protocol_attributes("test", ProtocolAttributesIdentifier::Default, attributes(2));
    if allow_raw {
        builder.allow_raw_messages();
    }
    builder
}

fn manager(allow_raw: bool) -> ServerDeviceManager {
    builder(allow_raw).finish().unwrap()
}

fn device(configuration: &ServerDeviceManager, address: &str) -> ButtplugDevice {
    let hardware = DeviceImpl::new("Test Hardware", address, &[Endpoint::Tx, Endpoint::Rx]);
    ButtplugDevice::try_create_device(
        configuration.device_configuration(),
        &serial(address),
        Ok(hardware),
        Ok(ProtocolAttributesIdentifier::Default),
    )
    .unwrap()
    .unwrap()
}

fn server(max_ping_time: u32, allow_raw: bool, devices: usize) -> ButtplugServer {
    let mut server = ButtplugServer::new("Test Server", max_ping_time, manager(allow_raw));
    for i in 0..devices {
        let made = device(server.device_manager(), &format!("COM{}", i + 1));
        assert!(server.add_device(made).is_some());
    }
    server
}

fn handshake(server: &mut ButtplugServer, version: ButtplugMessageSpecVersion, now: u64) {
    let request = RequestServerInfo::new("t".to_owned(), version);
    let outcome = server.parse_message(
        ButtplugMessageVariant::Version3(ButtplugMessageUnion::RequestServerInfo(request)),
        now,
    );
    assert_eq!(outcome.reply.message_type(), ButtplugMessageType::ServerInfo);
}

fn with_id<M: ButtplugMessage>(mut message: M, id: u32) -> M {
    message.set_id(id);
    message
}

fn error_of(reply: &ButtplugMessageVariant) -> Error {
    match reply {
        ButtplugMessageVariant::Version0(ButtplugMessageUnionVersion0::Error(e)) => e.clone(),
        ButtplugMessageVariant::Version1(ButtplugMessageUnionVersion1::Error(e)) => e.clone(),
        ButtplugMessageVariant::Version2(ButtplugMessageUnionVersion2::Error(e)) => e.clone(),
        ButtplugMessageVariant::Version3(ButtplugMessageUnion::Error(e)) => e.clone(),
        other => panic!("expected an error, got {other:?}"),
    }
}

fn level(index: u32, value: f64) -> ProtocolCommand {
    ProtocolCommand::Scalar {
        index,
        actuator_type: ActuatorType::Vibrate,
        scalar: bits(value),
    }
}

fn told(action: &ManagerAction) -> (u32, Vec<ProtocolCommand>) {
    match action {
        ManagerAction::Device { index, commands } => (*index, commands.clone()),
        ManagerAction::Stop { index, commands } => (*index, commands.clone()),
        other => panic!("expected an action for a device, got {other:?}"),
    }
}

fn ok_v3(id: u32) -> ButtplugMessageVariant {
    ButtplugMessageVariant::Version3(ButtplugMessageUnion::OkMessage(OkMessage::new(id)))
}

struct NamedBuilder {
    name: &'static str,
    can_scan: bool,
}

struct NamedManager {
    name: &'static str,
    can_scan: bool,
}

impl HardwareCommunicationManager for NamedManager {
    fn name(&self) -> &'static str {
        self.name
    }

    fn can_scan(&self) -> bool {
        self.can_scan
    }
}

impl HardwareCommunicationManagerBuilder for NamedBuilder {
    type Manager = NamedManager;

    fn finish(&self) -> NamedManager {
        NamedManager {
            name: self.name,
            can_scan: self.can_scan,
        }
    }
}

#[test]
fn handshake_answers_with_server_info() {
    let mut server = server(0, false, 0);
    let request = RequestServerInfo::new("t".to_owned(), ButtplugMessageSpecVersion::Version3);
    let outcome = server.parse_message(
        ButtplugMessageVariant::Version3(ButtplugMessageUnion::RequestServerInfo(request)),
        0,
    );
    let expected = with_id(
        ServerInfo::new(ButtplugMessageSpecVersion::Version3, 0, "Test Server".to_owned()),
        1,
    );
    assert_eq!(
        outcome,
        ServerOutcome {
            reply: ButtplugMessageVariant::Version3(ButtplugMessageUnion::ServerInfo(expected)),
            actions: vec![],
        }
    );
    assert!(server.connected());
    assert_eq!(server.spec_version(), Some(ButtplugMessageSpecVersion::Version3));
}

#[test]
fn handshake_agrees_on_the_older_version() {
    let mut server = server(0, false, 0);
    let request = with_id(
        RequestServerInfo::new("old".to_owned(), ButtplugMessageSpecVersion::Version1),
        5,
    );
    let outcome = server.parse_message(
        ButtplugMessageVariant::Version1(ButtplugMessageUnionVersion1::RequestServerInfo(request)),
        0,
    );
    let expected = with_id(
        ServerInfo::new(ButtplugMessageSpecVersion::Version1, 0, "Test Server".to_owned()),
        5,
    );
    assert_eq!(
        outcome.reply,
        ButtplugMessageVariant::Version1(ButtplugMessageUnionVersion1::ServerInfo(expected))
    );
    assert_eq!(server.spec_version(), Some(ButtplugMessageSpecVersion::Version1));
}

#[test]
fn messages_before_the_handshake_are_refused() {
    let mut server = server(0, false, 1);
    let outcome = server.parse_message(
        ButtplugMessageVariant::Version3(ButtplugMessageUnion::Ping(with_id(Ping::default(), 9))),
        0,
    );
    let error = error_of(&outcome.reply);
    assert_eq!(error.id(), 9);
    assert_eq!(error.error_code(), ErrorCode::ErrorInit);
    assert!(outcome.actions.is_empty());
    assert!(!server.connected());
}

#[test]
fn a_second_handshake_is_refused() {
    let mut server = server(0, false, 0);
    handshake(&mut server, ButtplugMessageSpecVersion::Version3, 0);
    let again = with_id(
        RequestServerInfo::new("t".to_owned(), ButtplugMessageSpecVersion::Version2),
        3,
    );
    let outcome = server.parse_message(
        ButtplugMessageVariant::Version3(ButtplugMessageUnion::RequestServerInfo(again)),
        0,
    );
    let error = error_of(&outcome.reply);
    assert_eq!(error.id(), 3);
    assert_eq!(error.error_code(), ErrorCode::ErrorInit);
    assert_eq!(error.error_message(), "Handshake already happened");
    assert_eq!(server.spec_version(), Some(ButtplugMessageSpecVersion::Version3));
}

#[test]
fn messages_in_another_version_are_refused() {
    let mut server = server(0, false, 1);
    handshake(&mut server, ButtplugMessageSpecVersion::Version1, 0);
    let outcome = server.parse_message(
        ButtplugMessageVariant::Version3(ButtplugMessageUnion::Ping(with_id(Ping::default(), 4))),
        0,
    );
    let error = error_of(&outcome.reply);
    assert_eq!(outcome.reply.version(), ButtplugMessageSpecVersion::Version1);
    assert_eq!(error.id(), 4);
    assert_eq!(error.error_code(), ErrorCode::ErrorInit);
}

#[test]
fn v1_vibrate_cmd_reaches_both_vibrators() {
    let mut server = server(0, false, 1);
    handshake(&mut server, ButtplugMessageSpecVersion::Version1, 0);
    let vibrate = with_id(
        VibrateCmd::new(
            1,
            vec![
                VibrateSubcommand::new(0, bits(0.5)),
                VibrateSubcommand::new(1, bits(0.5)),
            ],
        ),
        2,
    );
    let outcome = server.parse_message(
        ButtplugMessageVariant::Version1(ButtplugMessageUnionVersion1::VibrateCmd(vibrate)),
        10,
    );
    assert_eq!(
        outcome.reply,
        ButtplugMessageVariant::Version1(ButtplugMessageUnionVersion1::OkMessage(OkMessage::new(2)))
    );
    assert_eq!(
        outcome.actions,
        vec![ManagerAction::Device {
            index: 1,
            commands: vec![level(0, 0.5), level(1, 0.5)],
        }]
    );
}

#[test]
fn v0_single_motor_vibrate_reaches_every_vibrator() {
    let mut server = server(0, false, 1);
    handshake(&mut server, ButtplugMessageSpecVersion::Version0, 0);
    let single = with_id(SingleMotorVibrateCmd::new(1, bits(0.25)), 6);
    let outcome = server.parse_message(
        ButtplugMessageVariant::Version0(ButtplugMessageUnionVersion0::SingleMotorVibrateCmd(
            single,
        )),
        10,
    );
    assert_eq!(
        outcome.reply,
        ButtplugMessageVariant::Version0(ButtplugMessageUnionVersion0::OkMessage(OkMessage::new(6)))
    );
    assert_eq!(
        outcome.actions,
        vec![ManagerAction::Device {
            index: 1,
            commands: vec![level(0, 0.25), level(1, 0.25)],
        }]
    );
}

#[test]
fn out_of_range_index_is_a_device_error() {
    let mut server = server(0, false, 1);
    handshake(&mut server, ButtplugMessageSpecVersion::Version3, 0);
    let scalar = with_id(
        ScalarCmd::new(
            1,
            vec![ScalarSubcommand::new(7, bits(0.5), ActuatorType::Vibrate)],
        ),
        3,
    );
    let outcome = server.parse_message(
        ButtplugMessageVariant::Version3(ButtplugMessageUnion::ScalarCmd(scalar)),
        0,
    );
    let error = error_of(&outcome.reply);
    assert_eq!(error.id(), 3);
    assert_eq!(error.error_code(), ErrorCode::ErrorDevice);
    assert_eq!(error.error_code().code(), 4);
    assert!(outcome.actions.is_empty());
}

#[test]
fn out_of_range_level_is_a_message_error() {
    let mut server = server(0, false, 1);
    handshake(&mut server, ButtplugMessageSpecVersion::Version3, 0);
    let scalar = with_id(
        ScalarCmd::new(
            1,
            vec![ScalarSubcommand::new(0, bits(1.5), ActuatorType::Vibrate)],
        ),
        3,
    );
    let outcome = server.parse_message(
        ButtplugMessageVariant::Version3(ButtplugMessageUnion::ScalarCmd(scalar)),
        0,
    );
    let error = error_of(&outcome.reply);
    assert_eq!(error.id(), 3);
    assert_eq!(error.error_code(), ErrorCode::ErrorMessage);
    assert!(outcome.actions.is_empty());
    // Nothing reached the device: the same level in range is still a change.
    let scalar = with_id(
        ScalarCmd::new(
            1,
            vec![ScalarSubcommand::new(0, bits(1.0), ActuatorType::Vibrate)],
        ),
        4,
    );
    let outcome = server.parse_message(
        ButtplugMessageVariant::Version3(ButtplugMessageUnion::ScalarCmd(scalar)),
        0,
    );
    assert_eq!(outcome.reply, ok_v3(4));
    assert_eq!(told(&outcome.actions[0]), (1, vec![level(0, 1.0)]));
}

#[test]
fn a_message_with_the_reserved_id_is_refused_under_that_id() {
    let mut server = server(0, false, 1);
    handshake(&mut server, ButtplugMessageSpecVersion::Version3, 0);
    let outcome = server.parse_message(
        ButtplugMessageVariant::Version3(ButtplugMessageUnion::StopDeviceCmd(with_id(
            StopDeviceCmd::new(1),
            0,
        ))),
        0,
    );
    let error = error_of(&outcome.reply);
    assert_eq!(error.id(), 0);
    assert_eq!(error.error_code(), ErrorCode::ErrorMessage);
}

#[test]
fn commands_for_unknown_devices_are_device_errors() {
    let mut server = server(0, false, 1);
    handshake(&mut server, ButtplugMessageSpecVersion::Version3, 0);
    let outcome = server.parse_message(
        ButtplugMessageVariant::Version3(ButtplugMessageUnion::StopDeviceCmd(with_id(
            StopDeviceCmd::new(9),
            8,
        ))),
        0,
    );
    let error = error_of(&outcome.reply);
    assert_eq!(error.id(), 8);
    assert_eq!(error.error_code(), ErrorCode::ErrorDevice);
    assert_eq!(error.error_message(), "Device index is not available");
}

#[test]
fn server_messages_from_a_client_are_refused() {
    let mut server = server(0, false, 1);
    handshake(&mut server, ButtplugMessageSpecVersion::Version3, 0);
    let outcome = server.parse_message(ok_v3(5), 0);
    let error = error_of(&outcome.reply);
    assert_eq!(error.id(), 5);
    assert_eq!(error.error_code(), ErrorCode::ErrorMessage);
}

#[test]
fn stop_all_devices_stops_every_live_device() {
    let mut server = server(0, false, 3);
    handshake(&mut server, ButtplugMessageSpecVersion::Version3, 0);
    let outcome = server.parse_message(
        ButtplugMessageVariant::Version3(ButtplugMessageUnion::StopAllDevices(with_id(
            StopAllDevices::default(),
            4,
        ))),
        0,
    );
    assert_eq!(outcome.reply, ok_v3(4));
    assert!(outcome
        .actions
        .iter()
        .all(|action| matches!(action, ManagerAction::Stop { .. })));
    let mut stopped: Vec<(u32, Vec<ProtocolCommand>)> = outcome.actions.iter().map(told).collect();
    stopped.sort_by_key(|entry| entry.0);
    let halt = vec![level(0, 0.0), level(1, 0.0)];
    assert_eq!(
        stopped,
        vec![(1, halt.clone()), (2, halt.clone()), (3, halt)]
    );
}

#[test]
fn ping_timeout_stops_devices_and_reports_a_ping_error() {
    let mut server = server(500, false, 2);
    let request = RequestServerInfo::new("t".to_owned(), ButtplugMessageSpecVersion::Version3);
    let outcome = server.parse_message(
        ButtplugMessageVariant::Version3(ButtplugMessageUnion::RequestServerInfo(request)),
        1_000,
    );
    assert_eq!(
        outcome.reply,
        ButtplugMessageVariant::Version3(ButtplugMessageUnion::ServerInfo(with_id(
            ServerInfo::new(ButtplugMessageSpecVersion::Version3, 500, "Test Server".to_owned()),
            1
        )))
    );
    assert_eq!(server.ping_timeout(1_500), None);
    let outcome = server.ping_timeout(1_600).unwrap();
    let error = error_of(&outcome.reply);
    assert_eq!(error.id(), 0);
    assert_eq!(error.error_code(), ErrorCode::ErrorPing);
    assert_eq!(error.error_code().code(), 2);
    let mut stopped: Vec<u32> = outcome.actions.iter().map(|a| told(a).0).collect();
    stopped.sort();
    assert_eq!(stopped, vec![1, 2]);
    // The client is given up once only, and nothing is taken from it after.
    assert_eq!(server.ping_timeout(5_000), None);
    let late = server.parse_message(
        ButtplugMessageVariant::Version3(ButtplugMessageUnion::Ping(with_id(Ping::default(), 3))),
        5_000,
    );
    assert_eq!(error_of(&late.reply).error_code(), ErrorCode::ErrorPing);
    assert_eq!(error_of(&late.reply).id(), 3);
}

#[test]
fn pings_in_time_keep_the_session_alive() {
    let mut server = server(500, false, 1);
    handshake(&mut server, ButtplugMessageSpecVersion::Version3, 0);
    let outcome = server.parse_message(
        ButtplugMessageVariant::Version3(ButtplugMessageUnion::Ping(with_id(Ping::default(), 2))),
        400,
    );
    assert_eq!(outcome.reply, ok_v3(2));
    assert_eq!(server.ping_timeout(600), None);
    assert_eq!(server.ping_timeout(900), None);
    assert!(server.ping_timeout(901).is_some());
}

#[test]
fn without_a_limit_or_a_session_nothing_times_out() {
    let mut unlimited = server(0, false, 1);
    handshake(&mut unlimited, ButtplugMessageSpecVersion::Version3, 0);
    assert_eq!(unlimited.ping_timeout(u64::MAX), None);
    let mut unopened = server(500, false, 1);
    assert_eq!(unopened.ping_timeout(10_000), None);
}

#[test]
fn raw_write_is_refused_when_raw_messages_are_not_allowed() {
    let mut server = server(0, false, 1);
    handshake(&mut server, ButtplugMessageSpecVersion::Version3, 0);
    let write = with_id(RawWriteCmd::new(1, Endpoint::Tx, vec![1, 2], false), 5);
    let outcome = server.parse_message(
        ButtplugMessageVariant::Version3(ButtplugMessageUnion::RawWriteCmd(write)),
        0,
    );
    let error = error_of(&outcome.reply);
    assert_eq!(error.id(), 5);
    assert_eq!(error.error_code(), ErrorCode::ErrorMessage);
    assert_eq!(error.error_code().code(), 3);
    assert!(outcome.actions.is_empty());
}

#[test]
fn raw_write_is_issued_when_raw_messages_are_allowed() {
    let mut server = ButtplugServer::new("Test Server", 0, manager(true));
    let made = device(server.device_manager(), "COM1");
    let added = server.add_device(made).unwrap();
    assert!(added.device_name().ends_with("(Raw Messages Allowed)"));
    assert_eq!(added.device_name(), "Test Device (Raw Messages Allowed)");
    handshake(&mut server, ButtplugMessageSpecVersion::Version3, 0);
    let write = with_id(RawWriteCmd::new(1, Endpoint::Tx, vec![1, 2], false), 5);
    let outcome = server.parse_message(
        ButtplugMessageVariant::Version3(ButtplugMessageUnion::RawWriteCmd(write)),
        0,
    );
    assert_eq!(outcome.reply, ok_v3(5));
    assert_eq!(
        outcome.actions,
        vec![ManagerAction::Device {
            index: 1,
            commands: vec![ProtocolCommand::Hardware(ButtplugDeviceCommand::Message(
                DeviceImplCommand::Write(DeviceWriteCmd::new(Endpoint::Tx, vec![1, 2], false))
            ))],
        }]
    );
}

#[test]
fn repeated_scalar_cmd_writes_once() {
    let mut server = server(0, false, 1);
    handshake(&mut server, ButtplugMessageSpecVersion::Version3, 0);
    let command = |id: u32, value: f64| {
        ButtplugMessageVariant::Version3(ButtplugMessageUnion::ScalarCmd(with_id(
            ScalarCmd::new(
                1,
                vec![ScalarSubcommand::new(0, bits(value), ActuatorType::Vibrate)],
            ),
            id,
        )))
    };
    let first = server.parse_message(command(2, 0.5), 0);
    assert_eq!(told(&first.actions[0]), (1, vec![level(0, 0.5)]));
    let second = server.parse_message(command(3, 0.5), 0);
    assert_eq!(second.reply, ok_v3(3));
    assert_eq!(told(&second.actions[0]), (1, vec![]));
    let third = server.parse_message(command(4, 0.75), 0);
    assert_eq!(told(&third.actions[0]), (1, vec![level(0, 0.75)]));
}

#[test]
fn device_list_names_every_live_device() {
    let mut server = server(0, false, 2);
    handshake(&mut server, ButtplugMessageSpecVersion::Version3, 0);
    let outcome = server.parse_message(
        ButtplugMessageVariant::Version3(ButtplugMessageUnion::RequestDeviceList(with_id(
            RequestDeviceList::default(),
            7,
        ))),
        0,
    );
    assert!(outcome.actions.is_empty());
    let list = match outcome.reply {
        ButtplugMessageVariant::Version3(ButtplugMessageUnion::DeviceList(list)) => list,
        other => panic!("expected a device list, got {other:?}"),
    };
    assert_eq!(list.id(), 7);
    let mut entries: Vec<(u32, String)> = list
        .devices()
        .iter()
        .map(|d| (d.device_index(), d.device_name().clone()))
        .collect();
    entries.sort();
    assert_eq!(
        entries,
        vec![(1, "Test Device".to_owned()), (2, "Test Device".to_owned())]
    );
    assert_eq!(
        list.devices()[0].device_messages(),
        &attributes(2).message_attributes
    );
}

#[test]
fn device_list_goes_out_in_the_clients_version() {
    let mut server = server(0, false, 1);
    handshake(&mut server, ButtplugMessageSpecVersion::Version2, 0);
    let outcome = server.parse_message(
        ButtplugMessageVariant::Version2(ButtplugMessageUnionVersion2::RequestDeviceList(with_id(
            RequestDeviceList::default(),
            7,
        ))),
        0,
    );
    let list = match outcome.reply {
        ButtplugMessageVariant::Version2(ButtplugMessageUnionVersion2::DeviceList(list)) => list,
        other => panic!("expected a device list, got {other:?}"),
    };
    assert_eq!(list.id(), 7);
    assert_eq!(list.devices.len(), 1);
    assert_eq!(
        list.devices[0].device_messages,
        attributes(2)
            .message_attributes
            .legacy(ButtplugMessageSpecVersion::Version2)
    );
}

#[test]
fn notifications_go_out_in_the_clients_version() {
    let mut server = server(0, false, 0);
    let finished = ButtplugSystemMessageUnion::ScanningFinished(ScanningFinished::new());
    assert_eq!(server.notify(finished.clone()), None);
    handshake(&mut server, ButtplugMessageSpecVersion::Version1, 0);
    assert_eq!(
        server.notify(finished),
        Some(ButtplugMessageVariant::Version1(
            ButtplugMessageUnionVersion1::ScanningFinished(ScanningFinished::new())
        ))
    );
    let reading = ButtplugSystemMessageUnion::SensorReading(SensorReading::new(
        1,
        0,
        SensorType::Battery,
        vec![bits(1.0)],
    ));
    assert_eq!(server.notify(reading), None);
}

#[test]
fn one_device_per_identifier() {
    let mut manager = manager(false);
    let first = device(&manager, "COM1");
    let twin = device(&manager, "COM1");
    let other = device(&manager, "COM2");
    assert_eq!(manager.add_device(first).map(|a| a.device_index), Some(1));
    assert_eq!(manager.add_device(twin), None);
    assert_eq!(manager.add_device(other).map(|a| a.device_index), Some(2));
    assert_eq!(manager.device_list().len(), 2);
}

#[test]
fn indexes_go_to_the_smallest_free_or_the_reserved_one() {
    let kept = ServerDeviceIdentifier::new("COM9", "test", &ProtocolAttributesIdentifier::Default);
    let mut builder = builder(false);
    builder.reserved_index(&kept, 2);
    let mut manager = builder.finish().unwrap();
    let index_of = |added: Option<DeviceAdded>| added.map(|a| a.device_index);
    let a = device(&manager, "COM1");
    assert_eq!(index_of(manager.add_device(a)), Some(1));
    // Index 2 is kept for another device and is passed over.
    let b = device(&manager, "COM2");
    assert_eq!(index_of(manager.add_device(b)), Some(3));
    let reserved = device(&manager, "COM9");
    assert_eq!(index_of(manager.add_device(reserved)), Some(2));
    // A freed index is given out again; the reserved one comes back to its owner.
    assert_eq!(
        manager.remove_device(1),
        Some(DeviceRemoved::new(1))
    );
    assert_eq!(manager.remove_device(1), None);
    assert_eq!(manager.remove_device(2), Some(DeviceRemoved::new(2)));
    let c = device(&manager, "COM4");
    assert_eq!(index_of(manager.add_device(c)), Some(1));
    let d = device(&manager, "COM5");
    assert_eq!(index_of(manager.add_device(d)), Some(4));
    let reserved = device(&manager, "COM9");
    assert_eq!(index_of(manager.add_device(reserved)), Some(2));
}

#[test]
fn device_added_announces_name_and_attributes() {
    let mut manager = manager(false);
    let made = device(&manager, "COM1");
    let added = manager.add_device(made).unwrap();
    assert_eq!(added.id(), 0);
    assert_eq!(added.device_index, 1);
    assert_eq!(added.device_name(), "Test Device");
    assert_eq!(added.device_messages(), &attributes(2).message_attributes);
}

#[test]
fn device_info_tells_identifier_and_display_name() {
    let mut manager = manager(false);
    let mut made = device(&manager, "COM1");
    made.set_display_name("Mine");
    manager.add_device(made).unwrap();
    assert_eq!(
        manager.device_info(1),
        Ok(ServerDeviceInfo {
            identifier: ServerDeviceIdentifier::new(
                "COM1",
                "test",
                &ProtocolAttributesIdentifier::Default
            ),
            display_name: Some("Mine".to_owned()),
        })
    );
    assert_eq!(
        manager.device_info(2),
        Err(ButtplugDeviceError::DeviceNotAvailable(2))
    );
    assert_eq!(manager.vibrators(1), 2);
    assert_eq!(manager.vibrators(2), 0);
}

#[test]
fn manager_refuses_what_is_neither_command_nor_request() {
    let mut manager = manager(false);
    assert_eq!(
        manager.parse_message(ButtplugMessageUnion::Ping(Ping::default())),
        Err(ButtplugError::ButtplugMessageError(
            ButtplugMessageError::UnexpectedMessageType(ButtplugMessageType::Ping)
        ))
    );
    assert_eq!(
        manager.parse_message(ButtplugMessageUnion::StopDeviceCmd(StopDeviceCmd::new(3))),
        Err(ButtplugError::ButtplugDeviceError(
            ButtplugDeviceError::DeviceNotAvailable(3)
        ))
    );
}

#[test]
fn device_events_add_remove_and_pass_readings_on() {
    let mut manager = manager(false);
    let made = device(&manager, "COM1");
    let added = manager.device_event(ButtplugDeviceEvent::Connected(made));
    match added {
        Some(ButtplugSystemMessageUnion::DeviceAdded(added)) => assert_eq!(added.device_index, 1),
        other => panic!("expected a device to be added, got {other:?}"),
    }
    assert_eq!(manager.index_of_address("COM1"), Some(1));
    assert_eq!(manager.index_of_address("COM2"), None);
    assert_eq!(
        manager.device_event(ButtplugDeviceEvent::Notification(
            "COM1".to_owned(),
            Endpoint::Rx,
            vec![1, 2, 3]
        )),
        Some(ButtplugSystemMessageUnion::RawReading(with_id(
            RawReading::new(1, Endpoint::Rx, vec![1, 2, 3]),
            0
        )))
    );
    assert_eq!(
        manager.device_event(ButtplugDeviceEvent::Notification(
            "COM7".to_owned(),
            Endpoint::Rx,
            vec![1]
        )),
        None
    );
    assert_eq!(
        manager.device_event(ButtplugDeviceEvent::Removed("COM1".to_owned())),
        Some(ButtplugSystemMessageUnion::DeviceRemoved(DeviceRemoved::new(1)))
    );
    assert_eq!(
        manager.device_event(ButtplugDeviceEvent::Removed("COM1".to_owned())),
        None
    );
    assert!(manager.device_list().is_empty());
}

#[test]
fn scanning_starts_on_every_transport_that_can_scan() {
    let mut builder = ServerDeviceManagerBuilder::default();
    builder
        .comm_manager(NamedBuilder {
            name: "first",
            can_scan: true,
        })
        .comm_manager(NamedBuilder {
            name: "deaf",
            can_scan: false,
        })
        .comm_manager(NamedBuilder {
            name: "third",
            can_scan: true,
        });
    let mut manager = builder.finish().unwrap();
    assert!(!manager.scanning());
    let outcome = manager
        .parse_message(ButtplugMessageUnion::StartScanning(with_id(
            StartScanning::default(),
            3,
        )))
        .unwrap();
    assert_eq!(
        outcome.reply,
        ButtplugSystemMessageUnion::OkMessage(OkMessage::new(3))
    );
    assert_eq!(
        outcome.actions,
        vec![
            ManagerAction::StartScanning { manager: 0 },
            ManagerAction::StartScanning { manager: 2 },
        ]
    );
    assert!(manager.scanning());
    // Finished is announced once every transport that was looking has said so.
    assert_eq!(manager.scanning_finished(1), None);
    assert_eq!(manager.scanning_finished(0), None);
    assert_eq!(manager.scanning_finished(0), None);
    assert_eq!(manager.scanning_finished(7), None);
    assert_eq!(manager.scanning_finished(2), Some(ScanningFinished::new()));
    assert_eq!(manager.scanning_finished(2), None);
    assert!(!manager.scanning());
    let outcome = manager
        .parse_message(ButtplugMessageUnion::StopScanning(with_id(
            StopScanning::default(),
            4,
        )))
        .unwrap();
    assert_eq!(
        outcome.actions,
        vec![
            ManagerAction::StopScanning { manager: 0 },
            ManagerAction::StopScanning { manager: 2 },
        ]
    );
}

#[test]
fn two_transports_of_one_name_are_refused() {
    let mut builder = ServerDeviceManagerBuilder::default();
    builder
        .comm_manager(SerialPortCommunicationManagerBuilder::default())
        .comm_manager(NamedBuilder {
            name: "other",
            can_scan: true,
        })
        .comm_manager(SerialPortCommunicationManagerBuilder::default());
    match builder.finish() {
        Err(e) => assert_eq!(
            e,
            ButtplugServerError::DeviceManagerTypeAlreadyAdded(
                "SerialPortCommunicationManager".to_owned()
            )
        ),
        Ok(_) => panic!("expected a refusal"),
    }
    assert_eq!(builder.comm_managers.len(), 3);
}

#[test]
fn the_serial_transport_registered_twice_is_refused() {
    let mut builder = ServerDeviceManagerBuilder::default();
    builder
        .comm_manager(SerialPortCommunicationManagerBuilder::default())
        .comm_manager(SerialPortCommunicationManagerBuilder::default());
    assert_eq!(builder.comm_managers[0].name, "SerialPortCommunicationManager");
    assert!(builder.comm_managers[0].can_scan);
    assert!(!builder.comm_managers[0].scanning);
    match builder.finish() {
        Err(e) => assert_eq!(
            e,
            ButtplugServerError::DeviceManagerTypeAlreadyAdded(
                "SerialPortCommunicationManager".to_owned()
            )
        ),
        Ok(_) => panic!("expected a refusal"),
    }
}

#[test]
fn a_finished_builder_can_be_finished_again() {
    let mut builder = builder(true);
    let first = builder.finish().unwrap();
    assert_eq!(builder.comm_managers.len(), 1);
    let second = builder.finish().unwrap();
    assert_eq!(first.device_configuration(), second.device_configuration());
    assert_eq!(first.colliding_comm_managers(), second.colliding_comm_managers());
    let mut first = first;
    let mut second = second;
    let scan = |manager: &mut ServerDeviceManager| {
        manager
            .parse_message(ButtplugMessageUnion::StartScanning(StartScanning::default()))
            .unwrap()
            .actions
    };
    assert_eq!(scan(&mut first), vec![ManagerAction::StartScanning { manager: 0 }]);
    assert_eq!(scan(&mut first), scan(&mut second));
    builder.add_comm_manager("other", false);
    assert_eq!(builder.finish().unwrap().scanning(), false);
}

#[test]
fn a_bad_configuration_is_reported_before_the_transports() {
    let mut builder = ServerDeviceManagerBuilder::default();
    builder
        .comm_manager(SerialPortCommunicationManagerBuilder::default())
        .comm_manager(SerialPortCommunicationManagerBuilder::default())
        .communication_specifier("ghost", serial("COM"));
    match builder.finish() {
        Err(e) => assert_eq!(
            e,
            ButtplugServerError::DeviceConfigurationManagerError(
                ButtplugDeviceConfigError::ProtocolNotRegistered
            )
        ),
        Ok(_) => panic!("expected a refusal"),
    }
}

#[test]
fn builder_keeps_what_it_is_given() {
    let kept = ServerDeviceIdentifier::new("COM9", "test", &ProtocolAttributesIdentifier::Default);
    let mut builder = ServerDeviceManagerBuilder::default();
    builder
        .allowed_address("COM1")
        .denied_address("COM2")
        .reserved_index(&kept, 4)
        .protocol_factory("test")
        .communication_specifier("test", serial("COM"))
        .protocol_attributes("test", ProtocolAttributesIdentifier::Default, attributes(1))
        .skip_default_protocols()
        .allow_raw_messages();
    let config = &builder.configuration_manager_builder;
    assert_eq!(config.allowed_addresses, vec!["COM1".to_owned()]);
    assert_eq!(config.denied_addresses, vec!["COM2".to_owned()]);
    assert_eq!(config.reserved_indexes.len(), 1);
    assert_eq!(config.reserved_indexes[0].index, 4);
    assert_eq!(config.protocols, vec!["test".to_owned()]);
    assert_eq!(config.communication_specifiers.len(), 1);
    assert_eq!(config.protocol_attributes.len(), 1);
    assert!(config.skip_default_protocols);
    assert!(config.allow_raw_messages);
    let manager = builder.finish().unwrap();
    assert!(manager.device_configuration().raw_messages_allowed());
    assert_eq!(manager.device_configuration().reserved_index(&kept), Some(4));
    assert!(manager.device_configuration().address_allowed("COM1"));
    assert!(!manager.device_configuration().address_allowed("COM3"));
}

#[test]
fn colliding_transports_are_named() {
    let mut builder = ServerDeviceManagerBuilder::default();
    builder
        .comm_manager(NamedBuilder {
            name: "BtlePlugCommunicationManager",
            can_scan: true,
        })
        .comm_manager(NamedBuilder {
            name: "LovenseHIDDongleCommunicationManager",
            can_scan: false,
        })
        .comm_manager(SerialPortCommunicationManagerBuilder::default())
        .comm_manager(NamedBuilder {
            name: "LovenseSerialDongleCommunicationManager",
            can_scan: true,
        });
    let manager = builder.finish().unwrap();
    assert_eq!(
        manager.colliding_comm_managers(),
        vec![
            "BtlePlugCommunicationManager".to_owned(),
            "LovenseSerialDongleCommunicationManager".to_owned()
        ]
    );
}

#[test]
fn serial_port_manager_reports_every_port_and_then_the_end() {
    let manager = SerialPortCommunicationManagerBuilder::default().finish();
    assert_eq!(manager.name(), "SerialPortCommunicationManager");
    assert!(manager.can_scan());
    let events = manager.start_scanning(Some(vec!["COM1".to_owned(), "COM2".to_owned()]));
    assert_eq!(
        events,
        vec![
            DeviceCommunicationEvent::DeviceFound {
                name: "Serial Port Device COM1".to_owned(),
                address: "COM1".to_owned(),
                specifier: serial("COM1"),
            },
            DeviceCommunicationEvent::DeviceFound {
                name: "Serial Port Device COM2".to_owned(),
                address: "COM2".to_owned(),
                specifier: serial("COM2"),
            },
            DeviceCommunicationEvent::ScanningFinished,
        ]
    );
    assert_eq!(
        manager.start_scanning(None),
        vec![DeviceCommunicationEvent::ScanningFinished]
    );
    assert_eq!(
        manager.start_scanning(Some(vec![])),
        vec![DeviceCommunicationEvent::ScanningFinished]
    );
    manager.stop_scanning();
}

#[test]
fn serial_port_manager_skips_to_the_end_when_the_manager_is_gone() {
    let manager = SerialPortCommunicationManagerBuilder::default().finish();
    assert_eq!(manager.next_event(4, 0, true), Some(1));
    assert_eq!(manager.next_event(4, 1, true), Some(2));
    assert_eq!(manager.next_event(4, 1, false), Some(3));
    assert_eq!(manager.next_event(4, 2, false), Some(3));
    assert_eq!(manager.next_event(4, 3, true), None);
    assert_eq!(manager.next_event(4, 3, false), None);
    assert_eq!(manager.next_event(1, 0, true), None);
    assert_eq!(manager.next_event(0, 0, true), None);
    assert_eq!(manager.next_event(2, 9, true), None);
}

#[test]
fn manager_state_of_a_transport_is_plain_data() {
    let state = CommunicationManagerState {
        name: "x".to_owned(),
        can_scan: true,
        scanning: false,
    };
    assert_eq!(state.clone(), state);
    let protocol = ButtplugProtocol::new("test", ProtocolAttributesIdentifier::Default, attributes(2));
    assert_eq!(protocol.last_scalars, vec![None, None]);
    assert_eq!(protocol.name(), "Test Device");
}
