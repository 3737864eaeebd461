use buttplug::device::configuration_manager::{
    DeviceConfigurationManager, DeviceConfigurationManagerBuilder,
};
use buttplug::device::discovery::{DeviceDiscovery, DeviceDiscoveryState, DiscoveryAction};
use buttplug::device::protocol::{ButtplugProtocol, ProtocolCommand, ProtocolDeviceAttributes};
use buttplug::device::specifier::{
    name_matches, starts_with, BluetoothLESpecifier, HIDSpecifier, ProtocolCommunicationSpecifier,
    SerialSpecifier, USBSpecifier, WebsocketSpecifier,
};
use buttplug::device::{
    form_device_identifier, join_device_identifier, ButtplugDevice, ButtplugDeviceCommand, DeviceImpl, DeviceImplCommand,
    DeviceReadCmd, DeviceSubscribeCmd, DeviceUnsubscribeCmd, DeviceWriteCmd, Endpoint,
    ProtocolAttributesIdentifier, ServerDeviceIdentifier,
};
use buttplug::errors::{
    ButtplugDeviceConfigError, ButtplugDeviceError, ButtplugError, ButtplugMessageError,
};
use buttplug::messages::{
    ActuatorType, ButtplugDeviceCommandMessageUnion, ButtplugDeviceMessageType,
    DeviceMessageAttributes, GenericDeviceMessageAttributes, LinearCmd, RawReadCmd,
    RawSubscribeCmd, RawWriteCmd, RotateCmd, RotationSubcommand, ScalarCmd, ScalarSubcommand,
    SensorDeviceMessageAttributes, SensorReadCmd, SensorSubscribeCmd, SensorType,
    SensorUnsubscribeCmd, StopDeviceCmd, VectorSubcommand,
};

fn bits(value: f64) -> u64 {
    value.to_bits()
}

fn attributes(vibrators: usize) -> ProtocolDeviceAttributes {
    let mut message_attributes = DeviceMessageAttributes::new();
    for i in 0..vibrators {
        message_attributes
            .scalar_cmd
            .push(GenericDeviceMessageAttributes::new(
                &format!("vibrator {i}"),
                20,
                ActuatorType::Vibrate,
            ));
    }
    ProtocolDeviceAttributes::new("Test Device", None, message_attributes)
}

fn full_attributes() -> ProtocolDeviceAttributes {
    let mut found = attributes(2);
    found.message_attributes.rotate_cmd = vec![GenericDeviceMessageAttributes::new(
        "ring",
        8,
        ActuatorType::Rotate,
    )];
    found.message_attributes.linear_cmd = vec![GenericDeviceMessageAttributes::new(
        "stroke",
        100,
        ActuatorType::Position,
    )];
    found.message_attributes.sensor_read_cmd = vec![SensorDeviceMessageAttributes::new(
        "battery",
        SensorType::Battery,
    )];
    found.message_attributes.sensor_subscribe_cmd = vec![SensorDeviceMessageAttributes::new(
        "button",
        SensorType::Button,
    )];
    found
}

fn hardware() -> DeviceImpl {
    DeviceImpl::new("Test Hardware", "COM1", &[Endpoint::Tx, Endpoint::Rx])
}

fn device(found: ProtocolDeviceAttributes) -> ButtplugDevice {
    ButtplugDevice::new(
        ButtplugProtocol::new("test", ProtocolAttributesIdentifier::Default, found),
        hardware(),
    )
}

fn serial(port: &str) -> ProtocolCommunicationSpecifier {
    ProtocolCommunicationSpecifier::Serial(SerialSpecifier {
        port: port.to_owned(),
        baud_rate: 115200,
        data_bits: 8,
        parity: 'N',
        stop_bits: 1,
    })
}

fn bluetooth(names: &[&str], services: &[&str]) -> ProtocolCommunicationSpecifier {
    ProtocolCommunicationSpecifier::BluetoothLE(BluetoothLESpecifier {
        names: names.iter().map(|n| n.to_string()).collect(),
        services: services.iter().map(|n| n.to_string()).collect(),
    })
}

fn configuration(allow_raw: bool) -> DeviceConfigurationManager {
    let mut builder = DeviceConfigurationManagerBuilder::default();
    builder
        .protocol_factory("test")
        .communication_specifier("test", serial("COM"))
        .protocol_attributes("test", ProtocolAttributesIdentifier::Default, attributes(2))
        .protocol_attributes(
            "test",
            ProtocolAttributesIdentifier::Identifier("B".to_owned()),
            attributes(3),
        );
    if allow_raw {
        builder.allow_raw_messages();
    }
    builder.finish().unwrap()
}

fn scalar(index: u32, level: f64) -> ScalarSubcommand {
    ScalarSubcommand::new(index, bits(level), ActuatorType::Vibrate)
}

fn scalar_cmd(levels: Vec<ScalarSubcommand>) -> ButtplugDeviceCommandMessageUnion {
    ButtplugDeviceCommandMessageUnion::ScalarCmd(ScalarCmd::new(1, levels))
}

fn level(index: u32, value: f64) -> ProtocolCommand {
    ProtocolCommand::Scalar {
        index,
        actuator_type: ActuatorType::Vibrate,
        scalar: bits(value),
    }
}

fn not_supported(message_type: ButtplugDeviceMessageType) -> ButtplugError {
    ButtplugError::ButtplugMessageError(ButtplugMessageError::DeviceNotSupportedMessageType(
        message_type,
    ))
}

fn index_error(feature_count: u32, index: u32) -> ButtplugError {
    ButtplugError::ButtplugDeviceError(ButtplugDeviceError::DeviceFeatureIndexError {
        feature_count,
        index,
    })
}

#[test]
fn device_identifier_is_written_on_one_line() {
    assert_eq!(
        form_device_identifier("lovense", &ProtocolAttributesIdentifier::Default, "AA:BB:CC"),
        "lovense|Default|AA:BB:CC"
    );
    assert_eq!(
        form_device_identifier(
            "lovense",
            &ProtocolAttributesIdentifier::Identifier("A".to_owned()),
            "AA:BB:CC"
        ),
        "lovense|Identifier(\"A\")|AA:BB:CC"
    );
    assert_eq!(
        form_device_identifier(
            "p",
            &ProtocolAttributesIdentifier::Identifier("say \"hi\"\n".to_owned()),
            ""
        ),
        "p|Identifier(\"say \\\"hi\\\"\\n\")|"
    );
}

#[test]
fn device_identifier_is_joined_from_its_parts() {
    assert_eq!(join_device_identifier("lovense", None, "AA:BB"), "lovense|Default|AA:BB");
    assert_eq!(
        join_device_identifier("lovense", Some("\"A\""), "AA:BB"),
        "lovense|Identifier(\"A\")|AA:BB"
    );
    assert_eq!(join_device_identifier("", Some(""), ""), "|Identifier()|");
}

#[test]
fn device_identifier_agrees_with_debug_formatting() {
    for model in [
        ProtocolAttributesIdentifier::Default,
        ProtocolAttributesIdentifier::Identifier("Z".to_owned()),
        ProtocolAttributesIdentifier::Identifier("tab\there".to_owned()),
    ] {
        assert_eq!(
            form_device_identifier("proto", &model, "addr"),
            format!("{}|{:?}|{}", "proto", model, "addr")
        );
    }
}

#[test]
fn identifiers_compare_by_all_three_parts() {
    let model = ProtocolAttributesIdentifier::Identifier("A".to_owned());
    let key = ServerDeviceIdentifier::new("addr", "proto", &model);
    assert_eq!(key.address(), "addr");
    assert_eq!(key.protocol(), "proto");
    assert_eq!(key.attributes_identifier(), &model);
    assert!(key == key.duplicate());
    assert!(key != ServerDeviceIdentifier::new("other", "proto", &model));
    assert!(key != ServerDeviceIdentifier::new("addr", "other", &model));
    assert!(key != ServerDeviceIdentifier::new("addr", "proto", &ProtocolAttributesIdentifier::Default));
    assert!(
        ProtocolAttributesIdentifier::Identifier("A".to_owned())
            != ProtocolAttributesIdentifier::Identifier("B".to_owned())
    );
    assert!(ProtocolAttributesIdentifier::Default == ProtocolAttributesIdentifier::Default);
}

#[test]
fn device_impl_keeps_what_it_was_made_of() {
    let hardware = hardware();
    assert_eq!(hardware.name(), "Test Hardware");
    assert_eq!(hardware.address(), "COM1");
    assert!(hardware.connected());
    assert_eq!(hardware.endpoints(), vec![Endpoint::Tx, Endpoint::Rx]);
    assert!(hardware.has_endpoint(Endpoint::Rx));
    assert!(!hardware.has_endpoint(Endpoint::Firmware));
}

#[test]
fn device_impl_hands_on_commands_for_its_endpoints() {
    let hardware = hardware();
    let write = DeviceWriteCmd::new(Endpoint::Tx, vec![1, 2], false);
    assert_eq!(
        hardware.write_value(write.clone()),
        Ok(ButtplugDeviceCommand::Message(DeviceImplCommand::Write(
            write
        )))
    );
    let read = DeviceReadCmd::new(Endpoint::Rx, 4, 100);
    assert_eq!(
        hardware.read_value(read),
        Ok(ButtplugDeviceCommand::Message(DeviceImplCommand::Read(read)))
    );
    let subscribe = DeviceSubscribeCmd::new(Endpoint::Rx);
    assert_eq!(
        hardware.subscribe(subscribe),
        Ok(ButtplugDeviceCommand::Message(
            DeviceImplCommand::Subscribe(subscribe)
        ))
    );
    let unsubscribe = DeviceUnsubscribeCmd::new(Endpoint::Rx);
    assert_eq!(
        hardware.unsubscribe(unsubscribe),
        Ok(ButtplugDeviceCommand::Message(
            DeviceImplCommand::Unsubscribe(unsubscribe)
        ))
    );
    assert_eq!(hardware.disconnect(), Ok(ButtplugDeviceCommand::Disconnect));
}

#[test]
fn device_impl_refuses_unknown_endpoints_and_lost_hardware() {
    let mut hardware = hardware();
    assert_eq!(
        hardware.subscribe(DeviceSubscribeCmd::new(Endpoint::RxTouch)),
        Err(ButtplugDeviceError::InvalidEndpoint(Endpoint::RxTouch))
    );
    hardware.connected = false;
    assert_eq!(
        hardware.subscribe(DeviceSubscribeCmd::new(Endpoint::Rx)),
        Err(ButtplugDeviceError::DeviceNotConnected)
    );
    assert_eq!(
        hardware.disconnect(),
        Err(ButtplugDeviceError::DeviceNotConnected)
    );
}

#[test]
fn device_name_shows_when_raw_messages_are_allowed() {
    let plain = device(attributes(1));
    assert_eq!(plain.name(), "Test Device");
    let mut raw = attributes(1);
    raw.message_attributes.raw_endpoints = Some(vec![Endpoint::Tx]);
    let open = device(raw);
    assert_eq!(open.name(), "Test Device (Raw Messages Allowed)");
}

#[test]
fn device_keeps_its_parts() {
    let mut made = device(attributes(2));
    assert_eq!(made.device_identifier(), "test|Default|COM1");
    assert_eq!(made.device_impl_address(), "COM1");
    assert_eq!(made.protocol_identifier(), "test");
    assert_eq!(
        made.protocol_attributes_identifier(),
        &ProtocolAttributesIdentifier::Default
    );
    assert_eq!(
        made.identifier(),
        ServerDeviceIdentifier::new("COM1", "test", &ProtocolAttributesIdentifier::Default)
    );
    assert_eq!(made.display_name(), None);
    made.set_display_name("Mine");
    assert_eq!(made.display_name(), Some("Mine".to_owned()));
    assert_eq!(made.message_attributes(), attributes(2).message_attributes);
    assert_eq!(made.disconnect(), Ok(ButtplugDeviceCommand::Disconnect));
}

#[test]
fn scalar_cmd_writes_each_changed_feature_once() {
    let mut made = device(attributes(2));
    let first = made.parse_message(scalar_cmd(vec![scalar(0, 0.5), scalar(1, 0.5)]));
    assert_eq!(first, Ok(vec![level(0, 0.5), level(1, 0.5)]));
    // The same again: nothing is written.
    let second = made.parse_message(scalar_cmd(vec![scalar(0, 0.5), scalar(1, 0.5)]));
    assert_eq!(second, Ok(vec![]));
    // One feature changes: exactly one write.
    let third = made.parse_message(scalar_cmd(vec![scalar(0, 0.5), scalar(1, 0.75)]));
    assert_eq!(third, Ok(vec![level(1, 0.75)]));
}

#[test]
fn scalar_cmd_with_one_feature_twice_counts_the_last() {
    let mut made = device(attributes(2));
    let first = made.parse_message(scalar_cmd(vec![scalar(0, 0.25), scalar(0, 0.75)]));
    assert_eq!(first, Ok(vec![level(0, 0.75)]));
    let second = made.parse_message(scalar_cmd(vec![scalar(0, 0.25), scalar(0, 0.75)]));
    assert_eq!(second, Ok(vec![]));
}

#[test]
fn scalar_cmd_takes_negative_zero_for_zero() {
    let mut made = device(attributes(1));
    assert_eq!(
        made.parse_message(scalar_cmd(vec![scalar(0, 0.0)])),
        Ok(vec![level(0, 0.0)])
    );
    assert_eq!(
        made.parse_message(scalar_cmd(vec![scalar(0, -0.0)])),
        Ok(vec![])
    );
}

#[test]
fn scalar_cmd_out_of_range_index_is_reported_and_changes_nothing() {
    let mut made = device(attributes(2));
    let refused = made.parse_message(scalar_cmd(vec![scalar(0, 0.5), scalar(7, 0.5)]));
    assert_eq!(refused, Err(index_error(2, 7)));
    // Nothing was remembered of the refused command.
    assert_eq!(
        made.parse_message(scalar_cmd(vec![scalar(0, 0.5)])),
        Ok(vec![level(0, 0.5)])
    );
}

#[test]
fn commands_a_device_does_not_take_are_refused() {
    let mut made = device(attributes(0));
    assert_eq!(
        made.parse_message(scalar_cmd(vec![])),
        Err(not_supported(ButtplugDeviceMessageType::ScalarCmd))
    );
    assert_eq!(
        made.parse_message(ButtplugDeviceCommandMessageUnion::RotateCmd(
            RotateCmd::new(1, vec![])
        )),
        Err(not_supported(ButtplugDeviceMessageType::RotateCmd))
    );
    assert_eq!(
        made.parse_message(ButtplugDeviceCommandMessageUnion::LinearCmd(
            LinearCmd::new(1, vec![])
        )),
        Err(not_supported(ButtplugDeviceMessageType::LinearCmd))
    );
    assert_eq!(
        made.parse_message(ButtplugDeviceCommandMessageUnion::SensorReadCmd(
            SensorReadCmd::new(1, 0, SensorType::Battery)
        )),
        Err(not_supported(ButtplugDeviceMessageType::SensorReadCmd))
    );
    assert_eq!(
        made.parse_message(ButtplugDeviceCommandMessageUnion::RawWriteCmd(
            RawWriteCmd::new(1, Endpoint::Tx, vec![1], false)
        )),
        Err(not_supported(ButtplugDeviceMessageType::RawWriteCmd))
    );
}

#[test]
fn rotate_and_linear_go_out_as_they_stand() {
    let mut made = device(full_attributes());
    assert_eq!(
        made.parse_message(ButtplugDeviceCommandMessageUnion::RotateCmd(
            RotateCmd::new(1, vec![RotationSubcommand::new(0, bits(0.5), true)])
        )),
        Ok(vec![ProtocolCommand::Rotate {
            index: 0,
            speed: bits(0.5),
            clockwise: true
        }])
    );
    assert_eq!(
        made.parse_message(ButtplugDeviceCommandMessageUnion::RotateCmd(
            RotateCmd::new(1, vec![RotationSubcommand::new(1, bits(0.5), true)])
        )),
        Err(index_error(1, 1))
    );
    assert_eq!(
        made.parse_message(ButtplugDeviceCommandMessageUnion::LinearCmd(
            LinearCmd::new(1, vec![VectorSubcommand::new(0, 500, bits(1.0))])
        )),
        Ok(vec![ProtocolCommand::Linear {
            index: 0,
            duration: 500,
            position: bits(1.0)
        }])
    );
    assert_eq!(
        made.parse_message(ButtplugDeviceCommandMessageUnion::LinearCmd(
            LinearCmd::new(1, vec![VectorSubcommand::new(4, 500, bits(1.0))])
        )),
        Err(index_error(1, 4))
    );
}

#[test]
fn sensor_commands_name_their_sensor() {
    let mut made = device(full_attributes());
    assert_eq!(
        made.parse_message(ButtplugDeviceCommandMessageUnion::SensorReadCmd(
            SensorReadCmd::new(1, 0, SensorType::Battery)
        )),
        Ok(vec![ProtocolCommand::SensorRead {
            index: 0,
            sensor_type: SensorType::Battery
        }])
    );
    assert_eq!(
        made.parse_message(ButtplugDeviceCommandMessageUnion::SensorReadCmd(
            SensorReadCmd::new(1, 1, SensorType::Battery)
        )),
        Err(index_error(1, 1))
    );
    assert_eq!(
        made.parse_message(ButtplugDeviceCommandMessageUnion::SensorSubscribeCmd(
            SensorSubscribeCmd::new(1, 0, SensorType::Button)
        )),
        Ok(vec![ProtocolCommand::SensorSubscribe {
            index: 0,
            sensor_type: SensorType::Button
        }])
    );
    assert_eq!(
        made.parse_message(ButtplugDeviceCommandMessageUnion::SensorUnsubscribeCmd(
            SensorUnsubscribeCmd::new(1, 0, SensorType::Button)
        )),
        Ok(vec![ProtocolCommand::SensorUnsubscribe {
            index: 0,
            sensor_type: SensorType::Button
        }])
    );
}

#[test]
fn stop_brings_levels_to_zero_and_rotators_to_a_halt() {
    let mut made = device(full_attributes());
    made.parse_message(scalar_cmd(vec![scalar(0, 0.5)])).unwrap();
    let halt = ProtocolCommand::Rotate {
        index: 0,
        speed: 0,
        clockwise: false,
    };
    let stop = ButtplugDeviceCommandMessageUnion::StopDeviceCmd(StopDeviceCmd::new(1));
    assert_eq!(
        made.parse_message(stop.clone()),
        Ok(vec![level(0, 0.0), level(1, 0.0), halt.clone()])
    );
    // Stopped already: the levels are not sent again.
    assert_eq!(made.parse_message(stop), Ok(vec![halt]));
}

#[test]
fn raw_commands_go_to_the_hardware_when_allowed() {
    let mut raw = attributes(1);
    raw.message_attributes.raw_endpoints = Some(vec![Endpoint::Tx, Endpoint::Rx]);
    let mut made = device(raw);
    assert_eq!(
        made.parse_message(ButtplugDeviceCommandMessageUnion::RawWriteCmd(
            RawWriteCmd::new(1, Endpoint::Tx, vec![1, 2, 3], true)
        )),
        Ok(vec![ProtocolCommand::Hardware(
            ButtplugDeviceCommand::Message(DeviceImplCommand::Write(DeviceWriteCmd::new(
                Endpoint::Tx,
                vec![1, 2, 3],
                true
            )))
        )])
    );
    assert_eq!(
        made.parse_message(ButtplugDeviceCommandMessageUnion::RawReadCmd(
            RawReadCmd::new(1, Endpoint::Rx, 2, 50)
        )),
        Ok(vec![ProtocolCommand::Hardware(
            ButtplugDeviceCommand::Message(DeviceImplCommand::Read(DeviceReadCmd::new(
                Endpoint::Rx,
                2,
                50
            )))
        )])
    );
    assert_eq!(
        made.parse_message(ButtplugDeviceCommandMessageUnion::RawSubscribeCmd(
            RawSubscribeCmd::new(1, Endpoint::Firmware)
        )),
        Err(ButtplugError::ButtplugDeviceError(
            ButtplugDeviceError::InvalidEndpoint(Endpoint::Firmware)
        ))
    );
}

#[test]
fn text_begins_with_a_prefix_byte_for_byte() {
    assert!(starts_with("COM12", "COM"));
    assert!(starts_with("COM", "COM"));
    assert!(starts_with("COM", ""));
    assert!(!starts_with("CO", "COM"));
    assert!(!starts_with("/dev/ttyUSB0", "COM"));
    assert!(starts_with("/dev/ttyUSB0", "/dev/tty"));
    assert!(starts_with("größe", "grö"));
}

#[test]
fn name_patterns_end_in_a_wildcard_or_match_exactly() {
    assert!(name_matches("LVS-*", "LVS-A01"));
    assert!(name_matches("LVS-*", "LVS-"));
    assert!(!name_matches("LVS-*", "LVS"));
    assert!(name_matches("Launch", "Launch"));
    assert!(!name_matches("Launch", "Launch2"));
    assert!(!name_matches("Launch", "Launc"));
    assert!(name_matches("*", "anything"));
    assert!(!name_matches("", "anything"));
    assert!(name_matches("", ""));
}

#[test]
fn bluetooth_needs_a_name_and_every_service() {
    let wanted = bluetooth(&["LVS-*", "Launch"], &["s1", "s2"]);
    assert!(wanted.matches(&bluetooth(&["LVS-Z"], &["s2", "s1", "s3"])));
    assert!(wanted.matches(&bluetooth(&["Launch"], &["s1", "s2"])));
    assert!(!wanted.matches(&bluetooth(&["LVS-Z"], &["s1"])));
    assert!(!wanted.matches(&bluetooth(&["Other"], &["s1", "s2"])));
    assert!(!wanted.matches(&bluetooth(&[], &["s1", "s2"])));
    assert!(bluetooth(&["A"], &[]).matches(&bluetooth(&["A"], &[])));
}

#[test]
fn serial_matches_by_the_beginning_of_the_port_name() {
    assert!(serial("COM").matches(&serial("COM3")));
    assert!(serial("/dev/ttyACM").matches(&serial("/dev/ttyACM0")));
    assert!(!serial("COM3").matches(&serial("COM")));
    assert!(!serial("COM").matches(&bluetooth(&["COM"], &[])));
}

#[test]
fn usb_and_hid_match_by_vendor_and_product() {
    let usb = |vendor_id, product_id| {
        ProtocolCommunicationSpecifier::USB(USBSpecifier {
            vendor_id,
            product_id,
        })
    };
    let hid = |vendor_id, product_id| {
        ProtocolCommunicationSpecifier::HID(HIDSpecifier {
            vendor_id,
            product_id,
        })
    };
    assert!(usb(1, 2).matches(&usb(1, 2)));
    assert!(!usb(1, 2).matches(&usb(1, 3)));
    assert!(!usb(1, 2).matches(&usb(2, 2)));
    assert!(hid(1, 2).matches(&hid(1, 2)));
    assert!(!hid(1, 2).matches(&usb(1, 2)));
}

#[test]
fn websocket_and_parameterless_transports() {
    let socket = |names: &[&str]| {
        ProtocolCommunicationSpecifier::Websocket(WebsocketSpecifier {
            names: names.iter().map(|n| n.to_string()).collect(),
        })
    };
    assert!(socket(&["a", "b"]).matches(&socket(&["b"])));
    assert!(!socket(&["a", "b"]).matches(&socket(&["c"])));
    assert!(ProtocolCommunicationSpecifier::XInput.matches(&ProtocolCommunicationSpecifier::XInput));
    assert!(ProtocolCommunicationSpecifier::LovenseConnectService
        .matches(&ProtocolCommunicationSpecifier::LovenseConnectService));
    assert!(!ProtocolCommunicationSpecifier::XInput
        .matches(&ProtocolCommunicationSpecifier::LovenseConnectService));
}

#[test]
fn allow_list_wins_over_deny_list() {
    let mut builder = DeviceConfigurationManagerBuilder::default();
    builder.denied_address("bad");
    let denying = builder.finish().unwrap();
    assert!(denying.address_allowed("good"));
    assert!(!denying.address_allowed("bad"));
    let mut builder = DeviceConfigurationManagerBuilder::default();
    builder.allowed_address("good").denied_address("good").denied_address("bad");
    let allowing = builder.finish().unwrap();
    assert!(allowing.address_allowed("good"));
    assert!(!allowing.address_allowed("bad"));
    assert!(!allowing.address_allowed("other"));
}

#[test]
fn reserved_indexes_are_found_by_device() {
    let mine = ServerDeviceIdentifier::new("a1", "test", &ProtocolAttributesIdentifier::Default);
    let other = ServerDeviceIdentifier::new("a2", "test", &ProtocolAttributesIdentifier::Default);
    let mut builder = DeviceConfigurationManagerBuilder::default();
    builder.reserved_index(&mine, 5);
    let manager = builder.finish().unwrap();
    assert_eq!(manager.reserved_index(&mine), Some(5));
    assert_eq!(manager.reserved_index(&other), None);
    assert!(manager.is_reserved(5));
    assert!(!manager.is_reserved(1));
}

#[test]
fn configuration_errors_are_reported_in_order() {
    let mine = ServerDeviceIdentifier::new("a1", "test", &ProtocolAttributesIdentifier::Default);
    let other = ServerDeviceIdentifier::new("a2", "test", &ProtocolAttributesIdentifier::Default);
    let mut builder = DeviceConfigurationManagerBuilder::default();
    builder.communication_specifier("ghost", serial("COM"));
    assert_eq!(
        builder.finish(),
        Err(ButtplugDeviceConfigError::ProtocolNotRegistered)
    );
    let mut builder = DeviceConfigurationManagerBuilder::default();
    builder.protocol_attributes("ghost", ProtocolAttributesIdentifier::Default, attributes(1));
    assert_eq!(
        builder.check(),
        Err(ButtplugDeviceConfigError::ProtocolNotRegistered)
    );
    let mut builder = DeviceConfigurationManagerBuilder::default();
    builder.reserved_index(&mine, 5).reserved_index(&other, 5);
    assert_eq!(
        builder.finish(),
        Err(ButtplugDeviceConfigError::ReservedIndexConflict)
    );
    let mut builder = DeviceConfigurationManagerBuilder::default();
    builder.reserved_index(&mine, 5).reserved_index(&mine, 6);
    assert_eq!(
        builder.finish(),
        Err(ButtplugDeviceConfigError::ReservedIndexConflict)
    );
    // A builder that was refused keeps what it was given.
    assert_eq!(builder.reserved_indexes.len(), 2);
    let mut builder = DeviceConfigurationManagerBuilder::default();
    builder
        .communication_specifier("ghost", serial("COM"))
        .reserved_index(&mine, 5)
        .reserved_index(&other, 5);
    assert_eq!(
        builder.check(),
        Err(ButtplugDeviceConfigError::ProtocolNotRegistered)
    );
}

#[test]
fn finished_builder_keeps_what_it_was_given() {
    let kept = ServerDeviceIdentifier::new("a1", "test", &ProtocolAttributesIdentifier::Default);
    let mut builder = DeviceConfigurationManagerBuilder::default();
    builder
        .protocol_factory("test")
        .skip_default_protocols()
        .allow_raw_messages()
        .allowed_address("a")
        .denied_address("b")
        .reserved_index(&kept, 3)
        .communication_specifier("test", bluetooth(&["LVS-*"], &["s1"]))
        .communication_specifier("test", serial("COM"))
        .protocol_attributes("test", ProtocolAttributesIdentifier::Default, full_attributes());
    let before = builder.clone();
    let manager = builder.finish().unwrap();
    assert!(manager.raw_messages_allowed());
    assert_eq!(manager.protocols, vec!["test".to_owned()]);
    assert_eq!(manager.allowed_addresses, vec!["a".to_owned()]);
    assert_eq!(manager.denied_addresses, vec!["b".to_owned()]);
    assert_eq!(manager.reserved_index(&kept), Some(3));
    assert_eq!(manager.communication_specifiers.len(), 2);
    assert_eq!(manager.protocol_attributes.len(), 1);
    assert_eq!(builder, before);
    assert!(builder.skip_default_protocols);
    // Finished again, the builder gives the same configuration.
    assert_eq!(builder.finish().unwrap(), manager);
    builder.denied_address("c");
    assert_eq!(builder.finish().unwrap().denied_addresses.len(), 2);
}

#[test]
fn specifiers_are_copied_whole() {
    for specifier in [
        bluetooth(&["LVS-*", "Launch"], &["s1", "s2"]),
        serial("COM"),
        ProtocolCommunicationSpecifier::USB(USBSpecifier {
            vendor_id: 1,
            product_id: 2,
        }),
        ProtocolCommunicationSpecifier::HID(HIDSpecifier {
            vendor_id: 3,
            product_id: 4,
        }),
        ProtocolCommunicationSpecifier::Websocket(WebsocketSpecifier {
            names: vec!["a".to_owned()],
        }),
        ProtocolCommunicationSpecifier::XInput,
        ProtocolCommunicationSpecifier::LovenseConnectService,
    ] {
        assert_eq!(specifier.duplicate(), specifier);
    }
}

#[test]
fn protocol_builder_is_that_of_the_first_fitting_specifier() {
    let mut builder = DeviceConfigurationManagerBuilder::default();
    builder
        .protocol_factory("first")
        .protocol_factory("second")
        .communication_specifier("first", serial("COM1"))
        .communication_specifier("second", serial("COM"));
    let manager = builder.finish().unwrap();
    assert_eq!(
        manager.protocol_builder(&serial("COM12")).unwrap().protocol,
        "first"
    );
    assert_eq!(
        manager.protocol_builder(&serial("COM2")).unwrap().protocol,
        "second"
    );
    assert!(manager.protocol_builder(&serial("tty")).is_none());
}

#[test]
fn attributes_fall_back_to_the_default_model() {
    let manager = configuration(false);
    let builder = manager.protocol_builder(&serial("COM1")).unwrap();
    let endpoints = vec![Endpoint::Tx];
    let own = builder
        .attributes_for(&ProtocolAttributesIdentifier::Identifier("B".to_owned()), &endpoints)
        .unwrap();
    assert_eq!(own.message_attributes.scalar_cmd.len(), 3);
    let fallback = builder
        .attributes_for(&ProtocolAttributesIdentifier::Identifier("C".to_owned()), &endpoints)
        .unwrap();
    assert_eq!(fallback.message_attributes.scalar_cmd.len(), 2);
    assert_eq!(fallback.message_attributes.raw_endpoints, None);
    assert!(builder.has_attributes_for(&ProtocolAttributesIdentifier::Default));
}

#[test]
fn raw_messages_are_opened_on_every_endpoint_when_allowed() {
    let manager = configuration(true);
    let builder = manager.protocol_builder(&serial("COM1")).unwrap();
    let found = builder
        .attributes_for(&ProtocolAttributesIdentifier::Default, &vec![Endpoint::Tx, Endpoint::Rx])
        .unwrap();
    assert_eq!(
        found.message_attributes.raw_endpoints,
        Some(vec![Endpoint::Tx, Endpoint::Rx])
    );
}

#[test]
fn try_create_device_makes_a_device_of_claimed_hardware() {
    let manager = configuration(false);
    let made = ButtplugDevice::try_create_device(
        &manager,
        &serial("COM1"),
        Ok(hardware()),
        Ok(ProtocolAttributesIdentifier::Default),
    )
    .unwrap()
    .unwrap();
    assert_eq!(made.device_identifier(), "test|Default|COM1");
    assert_eq!(made.device_impl_address(), "COM1");
    assert_eq!(made.name(), "Test Device");
    assert_eq!(made.protocol.last_scalars, vec![None, None]);
    assert_eq!(made.display_name(), None);
}

#[test]
fn a_created_device_has_no_display_name_whatever_is_on_record() {
    let mut named = attributes(1);
    named.display_name = Some("Bedroom".to_owned());
    let mut builder = DeviceConfigurationManagerBuilder::default();
    builder
        .protocol_factory("test")
        .communication_specifier("test", serial("COM"))
        .protocol_attributes("test", ProtocolAttributesIdentifier::Default, named);
    let manager = builder.finish().unwrap();
    let mut made = ButtplugDevice::try_create_device(
        &manager,
        &serial("COM1"),
        Ok(hardware()),
        Ok(ProtocolAttributesIdentifier::Default),
    )
    .unwrap()
    .unwrap();
    assert_eq!(made.display_name(), None);
    let on_record = made.protocol.device_attributes().display_name.clone();
    assert_eq!(on_record, Some("Bedroom".to_owned()));
    made.set_display_name("Bedroom");
    assert_eq!(made.display_name(), Some("Bedroom".to_owned()));
}

#[test]
fn try_create_device_passes_over_unclaimed_hardware() {
    let manager = configuration(false);
    assert_eq!(
        ButtplugDevice::try_create_device(
            &manager,
            &serial("tty"),
            Ok(hardware()),
            Ok(ProtocolAttributesIdentifier::Default),
        ),
        Ok(None)
    );
}

#[test]
fn try_create_device_hands_failures_on() {
    let manager = configuration(false);
    let failure = ButtplugError::ButtplugDeviceError(ButtplugDeviceError::DeviceConnectionError);
    assert_eq!(
        ButtplugDevice::try_create_device(
            &manager,
            &serial("COM1"),
            Err(failure),
            Ok(ProtocolAttributesIdentifier::Default),
        ),
        Err(failure)
    );
    let specific = ButtplugError::ButtplugDeviceError(ButtplugDeviceError::ProtocolSpecificError);
    assert_eq!(
        ButtplugDevice::try_create_device(&manager, &serial("COM1"), Ok(hardware()), Err(specific)),
        Err(specific)
    );
    let mut builder = DeviceConfigurationManagerBuilder::default();
    builder
        .protocol_factory("test")
        .communication_specifier("test", serial("COM"));
    let bare = builder.finish().unwrap();
    assert_eq!(
        ButtplugDevice::try_create_device(
            &bare,
            &serial("COM1"),
            Ok(hardware()),
            Ok(ProtocolAttributesIdentifier::Default),
        ),
        Err(ButtplugError::ButtplugDeviceError(
            ButtplugDeviceError::ProtocolAttributesNotFound
        ))
    );
}

#[test]
fn discovery_walks_from_advertised_to_removed() {
    let manager = configuration(false);
    let mut found = DeviceDiscovery::new("COM1", serial("COM1"));
    assert_eq!(found.state, DeviceDiscoveryState::Advertised);
    assert_eq!(found.match_specifier(&manager), DiscoveryAction::Connect);
    assert_eq!(found.state, DeviceDiscoveryState::Matched);
    assert_eq!(found.connected(Ok(hardware())), DiscoveryAction::Identify);
    assert_eq!(found.state, DeviceDiscoveryState::Connected);
    assert_eq!(
        found.identified(Ok(ProtocolAttributesIdentifier::Default)),
        DiscoveryAction::ResolveAttributes
    );
    assert_eq!(found.state, DeviceDiscoveryState::Identified);
    assert_eq!(found.resolve_attributes(&manager), DiscoveryAction::Initialize);
    assert_eq!(found.state, DeviceDiscoveryState::AttributesResolved);
    let made = found.initialized(&manager, Ok(())).unwrap();
    assert_eq!(made.device_identifier(), "test|Default|COM1");
    assert_eq!(found.state, DeviceDiscoveryState::Ready);
    found.registered(true);
    assert_eq!(found.state, DeviceDiscoveryState::Registered);
    found.removed();
    assert_eq!(found.state, DeviceDiscoveryState::Removed);
}

#[test]
fn discovery_drops_hardware_when_a_step_fails() {
    let manager = configuration(false);
    let failure = ButtplugError::ButtplugDeviceError(ButtplugDeviceError::DeviceConnectionError);
    let mut unclaimed = DeviceDiscovery::new("tty1", serial("tty1"));
    assert_eq!(unclaimed.match_specifier(&manager), DiscoveryAction::Nothing);
    assert_eq!(unclaimed.state, DeviceDiscoveryState::Dropped);

    let mut unreachable = DeviceDiscovery::new("COM1", serial("COM1"));
    unreachable.match_specifier(&manager);
    assert_eq!(unreachable.connected(Err(failure)), DiscoveryAction::Nothing);
    assert_eq!(unreachable.state, DeviceDiscoveryState::Dropped);

    let mut nameless = DeviceDiscovery::new("COM1", serial("COM1"));
    nameless.match_specifier(&manager);
    nameless.connected(Ok(hardware()));
    assert_eq!(nameless.identified(Err(failure)), DiscoveryAction::Nothing);
    assert_eq!(nameless.state, DeviceDiscoveryState::Dropped);

    let mut builder = DeviceConfigurationManagerBuilder::default();
    builder
        .protocol_factory("test")
        .communication_specifier("test", serial("COM"));
    let bare = builder.finish().unwrap();
    let mut unknown = DeviceDiscovery::new("COM1", serial("COM1"));
    unknown.match_specifier(&bare);
    unknown.connected(Ok(hardware()));
    unknown.identified(Ok(ProtocolAttributesIdentifier::Default));
    assert_eq!(unknown.resolve_attributes(&bare), DiscoveryAction::Nothing);
    assert_eq!(unknown.state, DeviceDiscoveryState::Dropped);

    let mut stubborn = DeviceDiscovery::new("COM1", serial("COM1"));
    stubborn.match_specifier(&manager);
    stubborn.connected(Ok(hardware()));
    stubborn.identified(Ok(ProtocolAttributesIdentifier::Default));
    stubborn.resolve_attributes(&manager);
    assert_eq!(stubborn.initialized(&manager, Err(failure)), None);
    assert_eq!(stubborn.state, DeviceDiscoveryState::Dropped);

    let mut twin = DeviceDiscovery::new("COM1", serial("COM1"));
    twin.match_specifier(&manager);
    twin.connected(Ok(hardware()));
    twin.identified(Ok(ProtocolAttributesIdentifier::Default));
    twin.resolve_attributes(&manager);
    twin.initialized(&manager, Ok(())).unwrap();
    twin.registered(false);
    assert_eq!(twin.state, DeviceDiscoveryState::Dropped);
}

#[test]
fn discovery_turns_unwelcome_addresses_away() {
    let mut builder = DeviceConfigurationManagerBuilder::default();
    builder
        .protocol_factory("test")
        .communication_specifier("test", serial("COM"))
        .denied_address("COM1");
    let manager = builder.finish().unwrap();
    let mut denied = DeviceDiscovery::new("COM1", serial("COM1"));
    assert_eq!(denied.match_specifier(&manager), DiscoveryAction::Nothing);
    assert_eq!(denied.state, DeviceDiscoveryState::Dropped);
    let mut welcome = DeviceDiscovery::new("COM2", serial("COM2"));
    assert_eq!(welcome.match_specifier(&manager), DiscoveryAction::Connect);
}

#[test]
fn discovery_steps_out_of_turn_do_nothing() {
    let manager = configuration(false);
    let mut found = DeviceDiscovery::new("COM1", serial("COM1"));
    assert_eq!(found.connected(Ok(hardware())), DiscoveryAction::Nothing);
    assert_eq!(
        found.identified(Ok(ProtocolAttributesIdentifier::Default)),
        DiscoveryAction::Nothing
    );
    assert_eq!(found.resolve_attributes(&manager), DiscoveryAction::Nothing);
    assert_eq!(found.initialized(&manager, Ok(())), None);
    found.registered(true);
    found.removed();
    assert_eq!(found.state, DeviceDiscoveryState::Advertised);
}
