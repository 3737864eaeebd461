use buttplug::device::Endpoint;
use buttplug::errors::{ButtplugError, ButtplugMessageError};
use buttplug::messages::{
    ActuatorType, ButtplugDeviceMessageType, ButtplugMessage, ButtplugMessageSpecVersion,
    ButtplugMessageType, ButtplugMessageUnion, ButtplugMessageUnionVersion0,
    ButtplugMessageUnionVersion1, ButtplugMessageUnionVersion2, DeviceAdded, DeviceAddedV2,
    DeviceList, DeviceListV2, DeviceMessageAttributes, DeviceMessageInfo,
    FleshlightLaunchFW12Cmd, GenericDeviceMessageAttributes, KiirooCmd, LinearCmd, LovenseCmd,
    MessageAttributes, OkMessage, Ping, RawReadCmd, RawReading, RequestDeviceList, RotateCmd,
    RotationSubcommand, ScalarCmd, ScalarSubcommand, SensorDeviceMessageAttributes,
    SensorReadCmd, SensorReading, SensorType, SingleMotorVibrateCmd, StopDeviceCmd,
    VectorSubcommand, VibrateCmd, VibrateSubcommand, VorzeA10CycloneCmd,
};
use buttplug::server::message_variant::ButtplugMessageVariant;

type Kind = ButtplugDeviceMessageType;

fn bits(value: f64) -> u64 {
    value.to_bits()
}

fn unsupported(message_type: ButtplugDeviceMessageType) -> ButtplugError {
    ButtplugError::ButtplugMessageError(ButtplugMessageError::DeviceNotSupportedMessageType(
        message_type,
    ))
}

fn unexpected(message_type: ButtplugMessageType) -> ButtplugError {
    ButtplugError::ButtplugMessageError(ButtplugMessageError::UnexpectedMessageType(message_type))
}

fn sample_attributes() -> DeviceMessageAttributes {
    let mut attributes = DeviceMessageAttributes::new();
    attributes.scalar_cmd = vec![
        GenericDeviceMessageAttributes::new("left", 20, ActuatorType::Vibrate),
        GenericDeviceMessageAttributes::new("pump", 5, ActuatorType::Inflate),
        GenericDeviceMessageAttributes::new("right", 10, ActuatorType::Vibrate),
    ];
    attributes.rotate_cmd = vec![GenericDeviceMessageAttributes::new(
        "ring",
        8,
        ActuatorType::Rotate,
    )];
    attributes.sensor_read_cmd = vec![SensorDeviceMessageAttributes::new(
        "battery",
        SensorType::Battery,
    )];
    attributes.raw_endpoints = Some(vec![Endpoint::Tx, Endpoint::Rx]);
    attributes
}

fn entry(
    message_type: ButtplugDeviceMessageType,
    feature_count: Option<u32>,
    step_count: Option<Vec<u32>>,
) -> MessageAttributes {
    MessageAttributes {
        message_type,
        feature_count,
        step_count,
    }
}

#[test]
fn vibrate_cmd_goes_up_as_scalar_cmd() {
    let mut vibrate = VibrateCmd::new(
        1,
        vec![
            VibrateSubcommand::new(0, bits(0.5)),
            VibrateSubcommand::new(1, bits(0.5)),
        ],
    );
    vibrate.set_id(2);
    let up = ButtplugMessageUnionVersion1::upgrade(
        ButtplugMessageUnionVersion1::VibrateCmd(vibrate),
        2,
    );
    let mut expected = ScalarCmd::new(
        1,
        vec![
            ScalarSubcommand::new(0, bits(0.5), ActuatorType::Vibrate),
            ScalarSubcommand::new(1, bits(0.5), ActuatorType::Vibrate),
        ],
    );
    expected.set_id(2);
    assert_eq!(up, Ok(ButtplugMessageUnion::ScalarCmd(expected)));
}

#[test]
fn version_round_trip_gives_the_message_back() {
    let mut vibrate = VibrateCmd::new(3, vec![VibrateSubcommand::new(1, bits(0.25))]);
    vibrate.set_id(40);
    let messages = vec![
        ButtplugMessageUnionVersion1::VibrateCmd(vibrate),
        ButtplugMessageUnionVersion1::Ping(Ping::default()),
        ButtplugMessageUnionVersion1::RequestDeviceList(RequestDeviceList::default()),
        ButtplugMessageUnionVersion1::StopDeviceCmd(StopDeviceCmd::new(9)),
        ButtplugMessageUnionVersion1::LinearCmd(LinearCmd::new(
            2,
            vec![VectorSubcommand::new(0, 500, bits(0.75))],
        )),
        ButtplugMessageUnionVersion1::RotateCmd(RotateCmd::new(
            2,
            vec![RotationSubcommand::new(0, bits(0.75), false)],
        )),
    ];
    for message in messages {
        let up = ButtplugMessageUnionVersion1::upgrade(message.clone(), 5).unwrap();
        assert_eq!(up.id(), message.id());
        assert_eq!(ButtplugMessageUnionVersion1::downgrade(up), Some(message));
    }
}

#[test]
fn version_round_trip_holds_in_the_first_and_third_version() {
    let ping = ButtplugMessageUnionVersion0::Ping(Ping::default());
    let up = ButtplugMessageUnionVersion0::upgrade(ping.clone(), 0).unwrap();
    assert_eq!(ButtplugMessageUnionVersion0::downgrade(up), Some(ping));
    let raw = ButtplugMessageUnionVersion2::RawReadCmd(RawReadCmd::new(1, Endpoint::Rx, 4, 10));
    let up = ButtplugMessageUnionVersion2::upgrade(raw.clone()).unwrap();
    assert_eq!(ButtplugMessageUnionVersion2::downgrade(up), Some(raw));
    let vibrate = ButtplugMessageUnionVersion2::VibrateCmd(VibrateCmd::new(
        1,
        vec![VibrateSubcommand::new(0, bits(1.0))],
    ));
    let up = ButtplugMessageUnionVersion2::upgrade(vibrate.clone()).unwrap();
    assert_eq!(ButtplugMessageUnionVersion2::downgrade(up), Some(vibrate));
}

#[test]
fn single_motor_vibrate_becomes_a_level_for_each_vibrator() {
    let mut single = SingleMotorVibrateCmd::new(6, bits(0.5));
    single.set_id(11);
    let up = ButtplugMessageUnionVersion0::upgrade(
        ButtplugMessageUnionVersion0::SingleMotorVibrateCmd(single),
        2,
    );
    let mut expected = ScalarCmd::new(
        6,
        vec![
            ScalarSubcommand::new(0, bits(0.5), ActuatorType::Vibrate),
            ScalarSubcommand::new(1, bits(0.5), ActuatorType::Vibrate),
        ],
    );
    expected.set_id(11);
    assert_eq!(up, Ok(ButtplugMessageUnion::ScalarCmd(expected.clone())));
    // The way back is lossy: that it was one speed for all is gone.
    assert_eq!(
        ButtplugMessageUnionVersion0::downgrade(ButtplugMessageUnion::ScalarCmd(expected.clone())),
        None
    );
    let mut vibrate = VibrateCmd::new(
        6,
        vec![
            VibrateSubcommand::new(0, bits(0.5)),
            VibrateSubcommand::new(1, bits(0.5)),
        ],
    );
    vibrate.set_id(11);
    assert_eq!(
        ButtplugMessageUnionVersion1::downgrade(ButtplugMessageUnion::ScalarCmd(expected)),
        Some(ButtplugMessageUnionVersion1::VibrateCmd(vibrate))
    );
}

#[test]
fn vendor_commands_are_not_supported() {
    assert_eq!(
        ButtplugMessageUnionVersion1::upgrade(
            ButtplugMessageUnionVersion1::LovenseCmd(LovenseCmd::new(1, "Vibrate:5;".to_owned())),
            1
        ),
        Err(unsupported(ButtplugDeviceMessageType::LovenseCmd))
    );
    assert_eq!(
        ButtplugMessageUnionVersion0::upgrade(
            ButtplugMessageUnionVersion0::KiirooCmd(KiirooCmd::new(1, "3".to_owned())),
            1
        ),
        Err(unsupported(ButtplugDeviceMessageType::KiirooCmd))
    );
    assert_eq!(
        ButtplugMessageUnionVersion0::upgrade(
            ButtplugMessageUnionVersion0::FleshlightLaunchFW12Cmd(FleshlightLaunchFW12Cmd::new(
                1, 50, 50
            )),
            1
        ),
        Err(unsupported(ButtplugDeviceMessageType::FleshlightLaunchFW12Cmd))
    );
    assert_eq!(
        ButtplugMessageUnionVersion1::upgrade(
            ButtplugMessageUnionVersion1::VorzeA10CycloneCmd(VorzeA10CycloneCmd::new(1, 50, true)),
            1
        ),
        Err(unsupported(ButtplugDeviceMessageType::VorzeA10CycloneCmd))
    );
}

#[test]
fn server_messages_are_out_of_place_coming_in() {
    assert_eq!(
        ButtplugMessageUnionVersion2::upgrade(ButtplugMessageUnionVersion2::OkMessage(
            OkMessage::new(3)
        )),
        Err(unexpected(ButtplugMessageType::OkMessage))
    );
    assert_eq!(
        ButtplugMessageUnionVersion2::upgrade(ButtplugMessageUnionVersion2::RawReading(
            RawReading::new(1, Endpoint::Rx, vec![1])
        )),
        Err(unexpected(ButtplugMessageType::RawReading))
    );
}

#[test]
fn sensor_messages_do_not_go_out_below_the_newest_version() {
    let reading = ButtplugMessageUnion::SensorReading(SensorReading::new(
        1,
        0,
        SensorType::Battery,
        vec![bits(0.5)],
    ));
    let read = ButtplugMessageUnion::SensorReadCmd(SensorReadCmd::new(1, 0, SensorType::Battery));
    assert_eq!(ButtplugMessageUnionVersion0::downgrade(reading.clone()), None);
    assert_eq!(ButtplugMessageUnionVersion1::downgrade(reading.clone()), None);
    assert_eq!(ButtplugMessageUnionVersion2::downgrade(reading.clone()), None);
    assert_eq!(ButtplugMessageUnionVersion2::downgrade(read), None);
    assert_eq!(
        ButtplugMessageVariant::downgrade(reading.clone(), ButtplugMessageSpecVersion::Version3),
        Some(ButtplugMessageVariant::Version3(reading))
    );
}

#[test]
fn raw_messages_go_out_from_the_third_version_on() {
    let reading = ButtplugMessageUnion::RawReading(RawReading::new(1, Endpoint::Rx, vec![7]));
    assert_eq!(ButtplugMessageUnionVersion0::downgrade(reading.clone()), None);
    assert_eq!(ButtplugMessageUnionVersion1::downgrade(reading.clone()), None);
    assert_eq!(
        ButtplugMessageUnionVersion2::downgrade(reading),
        Some(ButtplugMessageUnionVersion2::RawReading(RawReading::new(
            1,
            Endpoint::Rx,
            vec![7]
        )))
    );
}

#[test]
fn motion_commands_have_no_name_in_the_first_version() {
    let rotate = ButtplugMessageUnion::RotateCmd(RotateCmd::new(1, vec![]));
    assert_eq!(ButtplugMessageUnionVersion0::downgrade(rotate.clone()), None);
    assert_eq!(
        ButtplugMessageUnionVersion1::downgrade(rotate),
        Some(ButtplugMessageUnionVersion1::RotateCmd(RotateCmd::new(
            1,
            vec![]
        )))
    );
}

#[test]
fn attributes_for_the_third_version_keep_counts_and_steps() {
    assert_eq!(
        sample_attributes().legacy(ButtplugMessageSpecVersion::Version2),
        vec![
            entry(Kind::VibrateCmd, Some(2), Some(vec![20, 10])),
            entry(Kind::RotateCmd, Some(1), Some(vec![8])),
            entry(Kind::StopDeviceCmd, None, None),
            entry(Kind::RawReadCmd, None, None),
            entry(Kind::RawWriteCmd, None, None),
            entry(Kind::RawSubscribeCmd, None, None),
            entry(Kind::RawUnsubscribeCmd, None, None),
        ]
    );
}

#[test]
fn attributes_for_the_second_version_keep_counts_only() {
    assert_eq!(
        sample_attributes().legacy(ButtplugMessageSpecVersion::Version1),
        vec![
            entry(Kind::VibrateCmd, Some(2), None),
            entry(Kind::SingleMotorVibrateCmd, None, None),
            entry(Kind::RotateCmd, Some(1), None),
            entry(Kind::StopDeviceCmd, None, None),
        ]
    );
}

#[test]
fn attributes_for_the_first_version_keep_names_only() {
    assert_eq!(
        sample_attributes().legacy(ButtplugMessageSpecVersion::Version0),
        vec![
            entry(Kind::SingleMotorVibrateCmd, None, None),
            entry(Kind::StopDeviceCmd, None, None),
        ]
    );
}

#[test]
fn a_device_without_features_still_takes_the_stop_command() {
    assert_eq!(
        DeviceMessageAttributes::new().legacy(ButtplugMessageSpecVersion::Version2),
        vec![entry(Kind::StopDeviceCmd, None, None)]
    );
}

#[test]
fn device_added_goes_down_with_its_name_and_index() {
    let added = DeviceAdded::new(4, "Test Device", sample_attributes());
    let down = DeviceAddedV2::downgrade(added, ButtplugMessageSpecVersion::Version1);
    assert_eq!(down.id(), 0);
    assert_eq!(down.device_index, 4);
    assert_eq!(down.device_name, "Test Device");
    assert_eq!(
        down.device_messages,
        sample_attributes().legacy(ButtplugMessageSpecVersion::Version1)
    );
}

#[test]
fn device_list_goes_down_entry_for_entry() {
    let mut list = DeviceList::new(vec![
        DeviceMessageInfo::new(1, "One", sample_attributes()),
        DeviceMessageInfo::new(2, "Two", DeviceMessageAttributes::new()),
    ]);
    list.set_id(5);
    let down = DeviceListV2::downgrade(&list, ButtplugMessageSpecVersion::Version2);
    assert_eq!(down.id(), 5);
    assert_eq!(down.devices.len(), 2);
    assert_eq!(down.devices[0].device_index, 1);
    assert_eq!(down.devices[0].device_name, "One");
    assert_eq!(
        down.devices[0].device_messages,
        sample_attributes().legacy(ButtplugMessageSpecVersion::Version2)
    );
    assert_eq!(down.devices[1].device_index, 2);
    assert_eq!(down.devices[1].device_name, "Two");
    assert_eq!(
        down.devices[1].device_messages,
        DeviceMessageAttributes::new().legacy(ButtplugMessageSpecVersion::Version2)
    );
}

#[test]
fn attributes_say_which_commands_a_device_takes() {
    let attributes = sample_attributes();
    assert!(attributes.supports(Kind::ScalarCmd));
    assert!(attributes.supports(Kind::RotateCmd));
    assert!(!attributes.supports(Kind::LinearCmd));
    assert!(attributes.supports(Kind::StopDeviceCmd));
    assert!(attributes.supports(Kind::SensorReadCmd));
    assert!(!attributes.supports(Kind::SensorSubscribeCmd));
    assert!(attributes.supports(Kind::RawWriteCmd));
    assert!(attributes.supports(Kind::VibrateCmd));
    assert!(!attributes.supports(Kind::LovenseCmd));
    assert!(!attributes.supports(Kind::FleshlightLaunchFW12Cmd));
    let bare = DeviceMessageAttributes::new();
    assert!(bare.supports(Kind::StopDeviceCmd));
    assert!(!bare.supports(Kind::RawWriteCmd));
    assert!(!bare.supports(Kind::VibrateCmd));
    assert_eq!(attributes.vibrator_steps(), vec![20, 10]);
    assert_eq!(attributes.duplicate(), attributes);
}
