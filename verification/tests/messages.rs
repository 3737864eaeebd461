use buttplug::device::{
    DeviceImplCommand, DeviceReadCmd, DeviceSubscribeCmd, DeviceUnsubscribeCmd, DeviceWriteCmd,
    Endpoint,
};
use buttplug::errors::{
    ButtplugDeviceConfigError, ButtplugDeviceError, ButtplugError, ButtplugHandshakeError, ButtplugMessageError,
    ButtplugPingError, ButtplugUnknownError, ErrorCode, InvalidContents,
};
use buttplug::messages::{
    is_in_command_range, is_not_system_id, is_system_id, ActuatorType, ButtplugDeviceMessage,
    ButtplugMessage, ButtplugMessageSpecVersion, ButtplugMessageType, ButtplugMessageUnion,
    ButtplugMessageValidator, Error, LinearCmd, OkMessage, Ping, RawReadCmd, RawSubscribeCmd,
    RawUnsubscribeCmd, RawWriteCmd, RotateCmd, RotationSubcommand, ScalarCmd, ScalarSubcommand,
    ScanningFinished, SensorReading, SensorType, SingleMotorVibrateCmd, StopDeviceCmd,
    VectorSubcommand, VibrateCmd, VibrateSubcommand, SCALAR_NEGATIVE_ZERO, SCALAR_ONE,
};

fn bits(value: f64) -> u64 {
    value.to_bits()
}

fn out_of_range(index: u32, value: f64) -> ButtplugMessageError {
    ButtplugMessageError::InvalidMessageContents(InvalidContents::OutOfRange {
        index,
        value: bits(value),
    })
}

#[test]
fn unit_interval_constants_are_the_bits_of_the_numbers() {
    assert_eq!(SCALAR_ONE, bits(1.0));
    assert_eq!(SCALAR_NEGATIVE_ZERO, bits(-0.0));
    assert_eq!(0u64, bits(0.0));
}

#[test]
fn range_check_agrees_with_the_order_of_the_numbers() {
    let samples = [
        0.0,
        -0.0,
        1.0,
        0.5,
        0.25,
        0.999_999_999_999,
        1.000_000_000_000_1,
        2.0,
        -0.000_000_1,
        -1.0,
        f64::MIN_POSITIVE,
        f64::MIN_POSITIVE / 4.0,
        f64::MAX,
        f64::MIN,
        f64::INFINITY,
        f64::NEG_INFINITY,
        f64::NAN,
        -f64::NAN,
        f64::EPSILON,
        1.0 - f64::EPSILON,
        1.0 + f64::EPSILON,
    ];
    for value in samples {
        let expected = (0.0..=1.0).contains(&value);
        assert_eq!(
            is_in_command_range(3, bits(value)).is_ok(),
            expected,
            "value {value}"
        );
    }
}

#[test]
fn range_check_names_feature_and_level() {
    assert_eq!(is_in_command_range(4, bits(1.5)), Err(out_of_range(4, 1.5)));
    assert_eq!(is_in_command_range(4, bits(1.0)), Ok(()));
}

#[test]
fn client_messages_refuse_the_reserved_id() {
    let system_id = ButtplugMessageError::InvalidMessageContents(InvalidContents::SystemId);
    assert_eq!(is_not_system_id(0), Err(system_id));
    assert_eq!(is_not_system_id(1), Ok(()));
    let mut ping = Ping::default();
    assert_eq!(ping.id(), 1);
    assert_eq!(ping.is_valid(), Ok(()));
    ping.set_id(0);
    assert_eq!(ping.is_valid(), Err(system_id));
    let mut stop = StopDeviceCmd::new(2);
    stop.set_id(0);
    assert_eq!(stop.is_valid(), Err(system_id));
}

#[test]
fn notifications_take_only_the_reserved_id() {
    let not_system = ButtplugMessageError::InvalidMessageContents(InvalidContents::NotSystemId);
    assert_eq!(is_system_id(0), Ok(()));
    assert_eq!(is_system_id(7), Err(not_system));
    let mut finished = ScanningFinished::new();
    assert_eq!(finished.id(), 0);
    assert_eq!(finished.is_valid(), Ok(()));
    finished.set_id(3);
    assert_eq!(finished.is_valid(), Err(not_system));
}

#[test]
fn replies_take_any_id() {
    assert_eq!(OkMessage::new(0).is_valid(), Ok(()));
    assert_eq!(OkMessage::new(9).is_valid(), Ok(()));
    let reading = SensorReading::new(1, 0, SensorType::Battery, vec![bits(0.5)]);
    assert_eq!(reading.id(), 1);
    assert_eq!(reading.feature_index(), 0);
    assert_eq!(reading.sensor_type(), SensorType::Battery);
    assert_eq!(reading.data(), &vec![bits(0.5)]);
    assert_eq!(reading.is_valid(), Ok(()));
}

#[test]
fn raw_read_cmd_keeps_its_fields() {
    let cmd = RawReadCmd::new(3, Endpoint::Rx, 16, 250);
    assert_eq!(cmd.id(), 1);
    assert_eq!(cmd.device_index(), 3);
    assert_eq!(cmd.endpoint(), Endpoint::Rx);
    assert_eq!(cmd.expected_length(), 16);
    assert_eq!(cmd.timeout(), 250);
    assert_eq!(cmd.is_valid(), Ok(()));
}

#[test]
fn raw_read_cmd_length_zero_is_not_checked() {
    let cmd = RawReadCmd::new(3, Endpoint::Rx, 0, 0);
    assert_eq!(cmd.is_valid(), Ok(()));
}

#[test]
fn scalar_subcommand_keeps_its_fields() {
    let sub = ScalarSubcommand::new(2, bits(0.75), ActuatorType::Constrict);
    assert_eq!(sub.index(), 2);
    assert_eq!(f64::from_bits(sub.scalar()), 0.75);
    assert_eq!(sub.actuator_type(), ActuatorType::Constrict);
}

#[test]
fn scalar_cmd_accepts_levels_of_the_unit_interval() {
    let cmd = ScalarCmd::new(
        1,
        vec![
            ScalarSubcommand::new(0, bits(0.0), ActuatorType::Vibrate),
            ScalarSubcommand::new(1, bits(1.0), ActuatorType::Vibrate),
            ScalarSubcommand::new(2, bits(-0.0), ActuatorType::Rotate),
        ],
    );
    assert_eq!(cmd.scalars().len(), 3);
    assert_eq!(cmd.is_valid(), Ok(()));
}

#[test]
fn scalar_cmd_may_be_empty() {
    assert_eq!(ScalarCmd::new(1, vec![]).is_valid(), Ok(()));
}

#[test]
fn scalar_cmd_names_the_first_level_out_of_range() {
    let cmd = ScalarCmd::new(
        1,
        vec![
            ScalarSubcommand::new(0, bits(0.5), ActuatorType::Vibrate),
            ScalarSubcommand::new(5, bits(1.25), ActuatorType::Vibrate),
            ScalarSubcommand::new(6, bits(-3.0), ActuatorType::Vibrate),
        ],
    );
    assert_eq!(cmd.is_valid(), Err(out_of_range(5, 1.25)));
}

#[test]
fn scalar_cmd_checks_the_id_before_the_levels() {
    let mut cmd = ScalarCmd::new(
        1,
        vec![ScalarSubcommand::new(0, bits(7.0), ActuatorType::Vibrate)],
    );
    cmd.set_id(0);
    assert_eq!(
        cmd.is_valid(),
        Err(ButtplugMessageError::InvalidMessageContents(
            InvalidContents::SystemId
        ))
    );
}

#[test]
fn vibrate_rotate_and_linear_check_their_levels() {
    let vibrate = VibrateCmd::new(0, vec![VibrateSubcommand::new(1, bits(f64::NAN))]);
    assert_eq!(vibrate.is_valid(), Err(out_of_range(1, f64::NAN)));
    let rotate = RotateCmd::new(0, vec![RotationSubcommand::new(2, bits(1.5), true)]);
    assert_eq!(rotate.is_valid(), Err(out_of_range(2, 1.5)));
    let linear = LinearCmd::new(0, vec![VectorSubcommand::new(3, u32::MAX, bits(-0.5))]);
    assert_eq!(linear.is_valid(), Err(out_of_range(3, -0.5)));
    let fine = LinearCmd::new(0, vec![VectorSubcommand::new(3, u32::MAX, bits(0.5))]);
    assert_eq!(fine.is_valid(), Ok(()));
    let single = SingleMotorVibrateCmd::new(0, bits(1.5));
    assert_eq!(single.is_valid(), Err(out_of_range(0, 1.5)));
}

#[test]
fn scalar_cmd_from_vibrate_cmd_keeps_id_device_and_speeds() {
    let mut vibrate = VibrateCmd::new(
        4,
        vec![
            VibrateSubcommand::new(0, bits(0.5)),
            VibrateSubcommand::new(1, bits(0.25)),
        ],
    );
    vibrate.set_id(17);
    let scalar = ScalarCmd::from(vibrate);
    assert_eq!(scalar.id(), 17);
    assert_eq!(scalar.device_index(), 4);
    assert_eq!(
        scalar.scalars(),
        &vec![
            ScalarSubcommand::new(0, bits(0.5), ActuatorType::Vibrate),
            ScalarSubcommand::new(1, bits(0.25), ActuatorType::Vibrate),
        ]
    );
}

#[test]
fn scalar_cmd_goes_back_to_vibrate_cmd_only_for_vibrators() {
    let vibrators = ScalarCmd::new(
        2,
        vec![ScalarSubcommand::new(0, bits(0.5), ActuatorType::Vibrate)],
    );
    assert_eq!(
        vibrators.to_vibrate_cmd(),
        Some(VibrateCmd::new(2, vec![VibrateSubcommand::new(0, bits(0.5))]))
    );
    let mixed = ScalarCmd::new(
        2,
        vec![
            ScalarSubcommand::new(0, bits(0.5), ActuatorType::Vibrate),
            ScalarSubcommand::new(1, bits(0.5), ActuatorType::Inflate),
        ],
    );
    assert_eq!(mixed.to_vibrate_cmd(), None);
}

#[test]
fn scalar_cmd_from_single_motor_sets_every_vibrator() {
    let mut single = SingleMotorVibrateCmd::new(3, bits(0.5));
    single.set_id(8);
    let scalar = ScalarCmd::from_single_motor(&single, 3);
    assert_eq!(scalar.id(), 8);
    assert_eq!(scalar.device_index(), 3);
    assert_eq!(
        scalar.scalars(),
        &vec![
            ScalarSubcommand::new(0, bits(0.5), ActuatorType::Vibrate),
            ScalarSubcommand::new(1, bits(0.5), ActuatorType::Vibrate),
            ScalarSubcommand::new(2, bits(0.5), ActuatorType::Vibrate),
        ]
    );
    assert!(ScalarCmd::from_single_motor(&single, 0).scalars().is_empty());
}

#[test]
fn device_commands_come_from_raw_commands() {
    assert_eq!(
        DeviceReadCmd::from(RawReadCmd::new(1, Endpoint::Rx, 8, 100)),
        DeviceReadCmd::new(Endpoint::Rx, 8, 100)
    );
    assert_eq!(
        DeviceWriteCmd::from(RawWriteCmd::new(1, Endpoint::Tx, vec![1, 2, 3], true)),
        DeviceWriteCmd::new(Endpoint::Tx, vec![1, 2, 3], true)
    );
    assert_eq!(
        DeviceSubscribeCmd::from(RawSubscribeCmd::new(1, Endpoint::RxTouch)),
        DeviceSubscribeCmd::new(Endpoint::RxTouch)
    );
    assert_eq!(
        DeviceUnsubscribeCmd::from(RawUnsubscribeCmd::new(1, Endpoint::RxTouch)),
        DeviceUnsubscribeCmd::new(Endpoint::RxTouch)
    );
}

#[test]
fn device_impl_command_wraps_each_command() {
    assert_eq!(
        DeviceImplCommand::from(RawWriteCmd::new(1, Endpoint::Tx, vec![9], false)),
        DeviceImplCommand::Write(DeviceWriteCmd::new(Endpoint::Tx, vec![9], false))
    );
    assert_eq!(
        DeviceImplCommand::from(RawReadCmd::new(1, Endpoint::Rx, 2, 3)),
        DeviceImplCommand::Read(DeviceReadCmd::new(Endpoint::Rx, 2, 3))
    );
    assert_eq!(
        DeviceImplCommand::from(RawSubscribeCmd::new(1, Endpoint::Rx)),
        DeviceImplCommand::Subscribe(DeviceSubscribeCmd::new(Endpoint::Rx))
    );
    assert_eq!(
        DeviceImplCommand::from(RawUnsubscribeCmd::new(1, Endpoint::Rx)),
        DeviceImplCommand::Unsubscribe(DeviceUnsubscribeCmd::new(Endpoint::Rx))
    );
    assert_eq!(
        DeviceImplCommand::from(DeviceReadCmd::new(Endpoint::Rx, 2, 3)),
        DeviceImplCommand::Read(DeviceReadCmd::new(Endpoint::Rx, 2, 3))
    );
    assert_eq!(
        DeviceImplCommand::from(DeviceWriteCmd::new(Endpoint::Tx, vec![], true)),
        DeviceImplCommand::Write(DeviceWriteCmd::new(Endpoint::Tx, vec![], true))
    );
    assert_eq!(
        DeviceImplCommand::from(DeviceSubscribeCmd::new(Endpoint::Tx)).endpoint(),
        Endpoint::Tx
    );
    assert_eq!(
        DeviceImplCommand::from(DeviceUnsubscribeCmd::new(Endpoint::Firmware)).endpoint(),
        Endpoint::Firmware
    );
}

#[test]
fn error_codes_have_their_wire_numbers() {
    assert_eq!(ErrorCode::ErrorUnknown.code(), 0);
    assert_eq!(ErrorCode::ErrorInit.code(), 1);
    assert_eq!(ErrorCode::ErrorPing.code(), 2);
    assert_eq!(ErrorCode::ErrorMessage.code(), 3);
    assert_eq!(ErrorCode::ErrorDevice.code(), 4);
    for code in 0..=4u8 {
        assert_eq!(ErrorCode::from_code(code).map(|c| c.code()), Some(code));
    }
    assert_eq!(ErrorCode::from_code(5), None);
}

#[test]
fn error_kinds_map_to_their_codes() {
    let message = ButtplugError::ButtplugMessageError(
        ButtplugMessageError::UnexpectedMessageType(ButtplugMessageType::Ping),
    );
    assert_eq!(message.error_code(), ErrorCode::ErrorMessage);
    let handshake =
        ButtplugError::ButtplugHandshakeError(ButtplugHandshakeError::RequestServerInfoExpected);
    assert_eq!(handshake.error_code(), ErrorCode::ErrorInit);
    let device = ButtplugError::ButtplugDeviceError(ButtplugDeviceError::DeviceNotAvailable(2));
    assert_eq!(device.error_code(), ErrorCode::ErrorDevice);
    let ping = ButtplugError::ButtplugPingError(ButtplugPingError::PingedOut);
    assert_eq!(ping.error_code(), ErrorCode::ErrorPing);
    let unknown = ButtplugError::ButtplugUnknownError(ButtplugUnknownError::TransportFailure);
    assert_eq!(unknown.error_code(), ErrorCode::ErrorUnknown);
}

#[test]
fn error_message_reports_an_error_under_the_request_id() {
    let error = ButtplugError::ButtplugDeviceError(ButtplugDeviceError::DeviceNotAvailable(2));
    let message = Error::from_error(12, error);
    assert_eq!(message.id(), 12);
    assert_eq!(message.error_code(), ErrorCode::ErrorDevice);
    assert_eq!(message.error_message(), "Device index is not available");
    assert_eq!(error.description(), "Device index is not available");
}

#[test]
fn spec_versions_have_their_numbers() {
    assert_eq!(ButtplugMessageSpecVersion::Version0.number(), 0);
    assert_eq!(ButtplugMessageSpecVersion::Version3.number(), 3);
    assert_eq!(
        ButtplugMessageSpecVersion::from_number(2),
        Some(ButtplugMessageSpecVersion::Version2)
    );
    assert_eq!(ButtplugMessageSpecVersion::from_number(4), None);
    assert_eq!(
        ButtplugMessageSpecVersion::Version3.min(ButtplugMessageSpecVersion::Version1),
        ButtplugMessageSpecVersion::Version1
    );
    assert_eq!(
        ButtplugMessageSpecVersion::Version0.min(ButtplugMessageSpecVersion::Version2),
        ButtplugMessageSpecVersion::Version0
    );
}

#[test]
fn union_hands_on_id_type_and_check() {
    let mut union = ButtplugMessageUnion::StopDeviceCmd(StopDeviceCmd::new(4));
    assert_eq!(union.id(), 1);
    assert_eq!(union.message_type(), ButtplugMessageType::StopDeviceCmd);
    union.set_id(0);
    assert_eq!(union.id(), 0);
    assert_eq!(
        union.is_valid(),
        Err(ButtplugMessageError::InvalidMessageContents(
            InvalidContents::SystemId
        ))
    );
}

#[test]
fn every_error_has_its_text_and_code() {
    let cases = [
        (
            ButtplugError::ButtplugMessageError(ButtplugMessageError::InvalidMessageContents(
                InvalidContents::SystemId,
            )),
            "Message contents are invalid",
            3,
        ),
        (
            ButtplugError::ButtplugMessageError(ButtplugMessageError::UnexpectedMessageType(
                ButtplugMessageType::OkMessage,
            )),
            "Message type is not expected here",
            3,
        ),
        (
            ButtplugError::ButtplugMessageError(
                ButtplugMessageError::DeviceNotSupportedMessageType(
                    buttplug::messages::ButtplugDeviceMessageType::LovenseCmd,
                ),
            ),
            "Device does not support this message type",
            3,
        ),
        (
            ButtplugError::ButtplugMessageError(ButtplugMessageError::MessageSerializationError),
            "Message could not be read",
            3,
        ),
        (
            ButtplugError::ButtplugHandshakeError(
                ButtplugHandshakeError::MessageSpecVersionMismatch {
                    expected: ButtplugMessageSpecVersion::Version1,
                    received: ButtplugMessageSpecVersion::Version3,
                },
            ),
            "Message spec version does not match the handshake",
            1,
        ),
        (
            ButtplugError::ButtplugHandshakeError(
                ButtplugHandshakeError::RequestServerInfoExpected,
            ),
            "Expected RequestServerInfo as the first message",
            1,
        ),
        (
            ButtplugError::ButtplugHandshakeError(ButtplugHandshakeError::HandshakeAlreadyHappened),
            "Handshake already happened",
            1,
        ),
        (
            ButtplugError::ButtplugDeviceError(ButtplugDeviceError::DeviceNotAvailable(1)),
            "Device index is not available",
            4,
        ),
        (
            ButtplugError::ButtplugDeviceError(ButtplugDeviceError::DeviceFeatureIndexError {
                feature_count: 2,
                index: 7,
            }),
            "Device feature index is out of range",
            4,
        ),
        (
            ButtplugError::ButtplugDeviceError(ButtplugDeviceError::InvalidEndpoint(Endpoint::Tx)),
            "Device does not have this endpoint",
            4,
        ),
        (
            ButtplugError::ButtplugDeviceError(ButtplugDeviceError::DeviceNotConnected),
            "Device is not connected",
            4,
        ),
        (
            ButtplugError::ButtplugDeviceError(ButtplugDeviceError::ProtocolSpecificError),
            "Device protocol error",
            4,
        ),
        (
            ButtplugError::ButtplugDeviceError(ButtplugDeviceError::DeviceConnectionError),
            "Device connection failed",
            4,
        ),
        (
            ButtplugError::ButtplugDeviceError(ButtplugDeviceError::ProtocolAttributesNotFound),
            "Protocol has no attributes for this device",
            4,
        ),
        (
            ButtplugError::ButtplugPingError(ButtplugPingError::PingedOut),
            "Ping timer expired",
            2,
        ),
        (
            ButtplugError::ButtplugUnknownError(ButtplugUnknownError::TransportFailure),
            "Unknown error",
            0,
        ),
    ];
    for (error, text, code) in cases {
        assert_eq!(error.description(), text);
        assert_eq!(error.error_code().code(), code);
        let message = Error::from_error(77, error);
        assert_eq!(message.id(), 77);
        assert_eq!(message.error_message(), text);
        assert_eq!(message.error_code().code(), code);
    }
    assert_ne!(
        ButtplugDeviceConfigError::TooManyFeatures,
        ButtplugDeviceConfigError::ProtocolNotRegistered
    );
}
