use crate::messages::{
    lemma_vibrator_count, vibrator_steps, ButtplugDeviceMessageType,
    ButtplugMessageSpecVersion, DeviceMessageAttributes, DeviceMessageAttributesView,
    GenericDeviceMessageAttributes,
};
use vstd::prelude::*;

verus! {

/// What the older wire versions say of one command a device takes: the
/// command, how many features take it, and how many steps each has. The
/// first version says the command and no more; the second adds the number of
/// features; the third adds the steps.
#[derive(Clone, Debug, PartialEq, Eq)]
pub struct MessageAttributes {
    pub message_type: ButtplugDeviceMessageType,
    pub feature_count: Option<u32>,
    pub step_count: Option<Vec<u32>>,
}

/// The contents of one entry.
pub struct MessageAttributesView {
    pub message_type: ButtplugDeviceMessageType,
    pub feature_count: Option<u32>,
    pub step_count: Option<Seq<u32>>,
}

impl View for MessageAttributes {
    type V = MessageAttributesView;

    open spec fn view(&self) -> MessageAttributesView {
        MessageAttributesView {
            message_type: self.message_type,
            feature_count: self.feature_count,
            step_count: match self.step_count {
                Some(steps) => Some(steps@),
                None => None,
            },
        }
    }
}

/// The contents of each entry of a list.
pub open spec fn entries_view(entries: Seq<MessageAttributes>) -> Seq<MessageAttributesView> {
    Seq::new(entries.len(), |i: int| entries[i]@)
}

/// The step counts of the features of a list, in their order.
pub open spec fn step_counts(features: Seq<GenericDeviceMessageAttributes>) -> Seq<u32> {
    Seq::new(features.len(), |i: int| features[i].step_count)
}

/// A number of features as the wire can say it: the number itself, or the
/// largest the wire has room for.
pub open spec fn wire_count(count: nat) -> u32 {
    if count > u32::MAX {
        u32::MAX
    } else {
        count as u32
    }
}

/// The entry for a command that has features behind it, as a wire version
/// says it: without the steps before the third version.
pub open spec fn counted_entry(
    message_type: ButtplugDeviceMessageType,
    steps: Seq<u32>,
    version: ButtplugMessageSpecVersion,
) -> MessageAttributesView {
    MessageAttributesView {
        message_type,
        feature_count: Some(wire_count(steps.len())),
        step_count: if version.spec_number() >= 2 {
            Some(steps)
        } else {
            None
        },
    }
}

/// The entry for a command of which a wire version says no more than that
/// the device takes it.
pub open spec fn plain_entry(message_type: ButtplugDeviceMessageType) -> MessageAttributesView {
    MessageAttributesView { message_type, feature_count: None, step_count: None }
}

/// What an older wire version says of a device's vibrators: nothing where
/// the device has none; the one-speed command in the first two versions; the
/// vibrate command from the second version on.
pub open spec fn legacy_vibrate_entries(
    attributes: DeviceMessageAttributesView,
    version: ButtplugMessageSpecVersion,
) -> Seq<MessageAttributesView> {
    let steps = vibrator_steps(attributes.scalar_cmd, attributes.scalar_cmd.len() as int);
    if steps.len() == 0 {
        Seq::empty()
    } else {
        match version {
            ButtplugMessageSpecVersion::Version0 => seq![
                plain_entry(ButtplugDeviceMessageType::SingleMotorVibrateCmd),
            ],
            ButtplugMessageSpecVersion::Version1 => seq![
                counted_entry(ButtplugDeviceMessageType::VibrateCmd, steps, version),
                plain_entry(ButtplugDeviceMessageType::SingleMotorVibrateCmd),
            ],
            _ => seq![counted_entry(ButtplugDeviceMessageType::VibrateCmd, steps, version)],
        }
    }
}

/// What an older wire version says of a device's rotators and linear
/// features: nothing in the first version, which knows neither command, and
/// nothing of a kind the device has none of.
pub open spec fn legacy_motion_entries(
    attributes: DeviceMessageAttributesView,
    version: ButtplugMessageSpecVersion,
) -> Seq<MessageAttributesView> {
    let rotate = if version.spec_number() >= 1 && attributes.rotate_cmd.len() > 0 {
        seq![
            counted_entry(
                ButtplugDeviceMessageType::RotateCmd,
                step_counts(attributes.rotate_cmd),
                version,
            ),
        ]
    } else {
        Seq::empty()
    };
    let linear = if version.spec_number() >= 1 && attributes.linear_cmd.len() > 0 {
        seq![
            counted_entry(
                ButtplugDeviceMessageType::LinearCmd,
                step_counts(attributes.linear_cmd),
                version,
            ),
        ]
    } else {
        Seq::empty()
    };
    rotate + linear
}

/// What an older wire version says of raw commands: the four of them from
/// the third version on where they are open, nothing otherwise.
pub open spec fn legacy_raw_entries(
    attributes: DeviceMessageAttributesView,
    version: ButtplugMessageSpecVersion,
) -> Seq<MessageAttributesView> {
    if version.spec_number() >= 2 && attributes.raw_endpoints is Some {
        seq![
            plain_entry(ButtplugDeviceMessageType::RawReadCmd),
            plain_entry(ButtplugDeviceMessageType::RawWriteCmd),
            plain_entry(ButtplugDeviceMessageType::RawSubscribeCmd),
            plain_entry(ButtplugDeviceMessageType::RawUnsubscribeCmd),
        ]
    } else {
        Seq::empty()
    }
}

/// What an older wire version says of a device. Levels for vibrators come
/// out as the vibrate commands; levels for anything else, and the sensors,
/// have no name in the older versions and are left out. The stop command is
/// always there. For the newest version, which says all this in another
/// form, the result is that for the version before it.
pub open spec fn legacy_attributes(
    attributes: DeviceMessageAttributesView,
    version: ButtplugMessageSpecVersion,
) -> Seq<MessageAttributesView> {
    legacy_vibrate_entries(attributes, version) + legacy_motion_entries(attributes, version)
        + seq![plain_entry(ButtplugDeviceMessageType::StopDeviceCmd)] + legacy_raw_entries(
        attributes,
        version,
    )
}

/// Returns the step counts of the features of a list, in their order.
fn collect_step_counts(features: &Vec<GenericDeviceMessageAttributes>) -> (r: Vec<u32>)
    ensures
        r@ == step_counts(features@),
{
    let mut steps: Vec<u32> = Vec::new();
    let mut i: usize = 0;
    while i < features.len()
        invariant
            i <= features@.len(),
            steps@ == step_counts(features@).take(i as int),
        decreases features@.len() - i,
    {
        steps.push(features[i].step_count);
        assert(steps@ =~= step_counts(features@).take(i + 1));
        i += 1;
    }
    assert(step_counts(features@).take(i as int) =~= step_counts(features@));
    steps
}

/// Makes the entry for a command that has features behind it.
fn make_counted_entry(
    message_type: ButtplugDeviceMessageType,
    steps: Vec<u32>,
    version: ButtplugMessageSpecVersion,
) -> (r: MessageAttributes)
    ensures
        r@ == counted_entry(message_type, steps@, version),
{
    let feature_count = if steps.len() > 0xFFFF_FFFF {
        Some(0xFFFF_FFFFu32)
    } else {
        Some(steps.len() as u32)
    };
    let step_count = if version.number() >= 2 {
        Some(steps)
    } else {
        None
    };
    MessageAttributes { message_type, feature_count, step_count }
}

/// Makes the entry for a command of which no more is said than that the
/// device takes it.
fn make_plain_entry(message_type: ButtplugDeviceMessageType) -> (r: MessageAttributes)
    ensures
        r@ == plain_entry(message_type),
{
    MessageAttributes { message_type, feature_count: None, step_count: None }
}

impl DeviceMessageAttributes {
    /// Says of the device what an older wire version can say of it.
    pub fn legacy(&self, version: ButtplugMessageSpecVersion) -> (r: Vec<MessageAttributes>)
        ensures
            entries_view(r@) == legacy_attributes(self@, version),
    {
        let mut entries: Vec<MessageAttributes> = Vec::new();
        let vibrators = self.vibrator_steps();
        proof {
            lemma_vibrator_count(self@.scalar_cmd, self@.scalar_cmd.len() as int);
        }
        if vibrators.len() > 0 {
            match version {
                ButtplugMessageSpecVersion::Version0 => {
                    entries.push(make_plain_entry(ButtplugDeviceMessageType::SingleMotorVibrateCmd));
                },
                ButtplugMessageSpecVersion::Version1 => {
                    entries.push(
                        make_counted_entry(ButtplugDeviceMessageType::VibrateCmd, vibrators, version),
                    );
                    entries.push(make_plain_entry(ButtplugDeviceMessageType::SingleMotorVibrateCmd));
                },
                _ => {
                    entries.push(
                        make_counted_entry(ButtplugDeviceMessageType::VibrateCmd, vibrators, version),
                    );
                },
            }
        }
        assert(entries_view(entries@) =~= legacy_vibrate_entries(self@, version));
        if version.number() >= 1 && self.rotate_cmd.len() > 0 {
            entries.push(
                make_counted_entry(
                    ButtplugDeviceMessageType::RotateCmd,
                    collect_step_counts(&self.rotate_cmd),
                    version,
                ),
            );
        }
        if version.number() >= 1 && self.linear_cmd.len() > 0 {
            entries.push(
                make_counted_entry(
                    ButtplugDeviceMessageType::LinearCmd,
                    collect_step_counts(&self.linear_cmd),
                    version,
                ),
            );
        }
        assert(entries_view(entries@) =~= legacy_vibrate_entries(self@, version)
            + legacy_motion_entries(self@, version));
        entries.push(make_plain_entry(ButtplugDeviceMessageType::StopDeviceCmd));
        if version.number() >= 2 && self.raw_endpoints.is_some() {
            entries.push(make_plain_entry(ButtplugDeviceMessageType::RawReadCmd));
            entries.push(make_plain_entry(ButtplugDeviceMessageType::RawWriteCmd));
            entries.push(make_plain_entry(ButtplugDeviceMessageType::RawSubscribeCmd));
            entries.push(make_plain_entry(ButtplugDeviceMessageType::RawUnsubscribeCmd));
        }
        assert(entries_view(entries@) =~= legacy_attributes(self@, version));
        entries
    }
}

} // verus!
