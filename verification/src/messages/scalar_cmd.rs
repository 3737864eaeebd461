use crate::errors::ButtplugMessageError;
use crate::messages::{
    in_command_range, is_in_command_range, is_not_system_id, lemma_levels_valid,
    spec_is_not_system_id, spec_levels_valid, ActuatorType, ButtplugDeviceMessage,
    ButtplugMessage, ButtplugMessageValidator, SingleMotorVibrateCmd, VibrateCmd, SYSTEM_ID,
};
use vstd::prelude::*;

verus! {

/// One level for one feature of a device.
#[derive(Clone, Copy, Debug, PartialEq, Eq, Structural)]
pub struct ScalarSubcommand {
    /// Which of the device's features.
    pub index: u32,
    /// The level, as the bits of a double in the unit interval.
    pub scalar: u64,
    /// What the feature is expected to do with the level.
    pub actuator_type: ActuatorType,
}

impl ScalarSubcommand {
    /// Creates the subcommand.
    pub fn new(index: u32, scalar: u64, actuator_type: ActuatorType) -> (r: Self)
        ensures
            r == (ScalarSubcommand { index, scalar, actuator_type }),
    {
        ScalarSubcommand { index, scalar, actuator_type }
    }

    /// Returns which of the device's features.
    pub fn index(&self) -> (r: u32)
        ensures
            r == self.index,
    {
        self.index
    }

    /// Returns the level, as the bits of a double in the unit interval.
    pub fn scalar(&self) -> (r: u64)
        ensures
            r == self.scalar,
    {
        self.scalar
    }

    /// Returns what the feature is expected to do with the level.
    pub fn actuator_type(&self) -> (r: ActuatorType)
        ensures
            r == self.actuator_type,
    {
        self.actuator_type
    }
}

/// Sets features of a device to levels, whatever the features do with a level.
#[derive(Clone, Debug, PartialEq, Eq)]
pub struct ScalarCmd {
    /// The id that ties a reply to its request.
    pub id: u32,
    /// The index of the device.
    pub device_index: u32,
    /// The levels, one subcommand for each feature addressed. The list may be
    /// empty, which asks for nothing.
    pub scalars: Vec<ScalarSubcommand>,
}

impl ScalarCmd {
    /// Creates the message under the id that every new message starts with.
    pub fn new(device_index: u32, scalars: Vec<ScalarSubcommand>) -> (r: Self)
        ensures
            r == (ScalarCmd { id: 1, device_index, scalars }),
    {
        ScalarCmd { id: 1, device_index, scalars }
    }

    /// Returns the subcommands.
    pub fn scalars(&self) -> (r: &Vec<ScalarSubcommand>)
        ensures
            r == &self.scalars,
    {
        &self.scalars
    }

    /// A command that passes its check does not carry the reserved id, and every
    /// one of its levels lies in the unit interval.
    pub proof fn lemma_valid_levels(&self)
        requires
            self.spec_is_valid() is Ok,
        ensures
            self.id != SYSTEM_ID,
            forall|i: int|
                0 <= i < self.scalars@.len() ==> in_command_range((#[trigger] self.scalars@[i]).scalar),
    {
        lemma_levels_valid(self.spec_levels(), 0);
        assert forall|i: int| 0 <= i < self.scalars@.len() implies in_command_range(
            (#[trigger] self.scalars@[i]).scalar,
        ) by {
            assert(self.spec_levels()[i].1 == self.scalars@[i].scalar);
        }
    }

    /// The feature and the level of each subcommand, in the order given.
    pub open spec fn spec_levels(&self) -> Seq<(u32, u64)> {
        Seq::new(self.scalars@.len(), |i: int| (self.scalars@[i].index, self.scalars@[i].scalar))
    }
}

impl ButtplugMessage for ScalarCmd {
    open spec fn spec_id(&self) -> u32 {
        self.id
    }

    fn id(&self) -> (r: u32) {
        self.id
    }

    fn set_id(&mut self, id: u32)
        ensures
            *final(self) == (ScalarCmd { id, ..*old(self) }),
    {
        self.id = id;
    }
}

impl ButtplugDeviceMessage for ScalarCmd {
    open spec fn spec_device_index(&self) -> u32 {
        self.device_index
    }

    fn device_index(&self) -> (r: u32) {
        self.device_index
    }

    fn set_device_index(&mut self, device_index: u32)
        ensures
            *final(self) == (ScalarCmd { device_index, ..*old(self) }),
    {
        self.device_index = device_index;
    }
}

impl ButtplugMessageValidator for ScalarCmd {
    /// A client sends this message, so the reserved id is refused; after that
    /// the first subcommand whose level lies outside the unit interval is named.
    open spec fn spec_is_valid(&self) -> Result<(), ButtplugMessageError> {
        if self.id == SYSTEM_ID {
            spec_is_not_system_id(self.id)
        } else {
            spec_levels_valid(self.spec_levels(), 0)
        }
    }

    fn is_valid(&self) -> (r: Result<(), ButtplugMessageError>) {
        if let Err(e) = is_not_system_id(self.id) {
            return Err(e);
        }
        let mut i: usize = 0;
        while i < self.scalars.len()
            invariant
                self.id != SYSTEM_ID,
                i <= self.scalars@.len(),
                spec_levels_valid(self.spec_levels(), 0) == spec_levels_valid(
                    self.spec_levels(),
                    i as int,
                ),
            decreases self.scalars@.len() - i,
        {
            let level = &self.scalars[i];
            if let Err(e) = is_in_command_range(level.index, level.scalar) {
                return Err(e);
            }
            i += 1;
        }
        Ok(())
    }
}

impl ScalarCmd {
    /// The subcommands that say of vibrators what `speeds` says: the same
    /// features and levels, in the same order.
    pub open spec fn spec_vibrate_scalars(speeds: Seq<crate::messages::VibrateSubcommand>) -> Seq<
        ScalarSubcommand,
    > {
        Seq::new(
            speeds.len(),
            |i: int|
                ScalarSubcommand {
                    index: speeds[i].index,
                    scalar: speeds[i].speed,
                    actuator_type: ActuatorType::Vibrate,
                },
        )
    }
}

impl ScalarCmd {
    /// The subcommands that set the first `vibrators` features to one speed.
    pub open spec fn spec_single_motor_scalars(speed: u64, vibrators: u32) -> Seq<ScalarSubcommand> {
        Seq::new(
            vibrators as nat,
            |i: int| ScalarSubcommand { index: i as u32, scalar: speed, actuator_type: ActuatorType::Vibrate },
        )
    }

    /// Says as a scalar command what the one-speed command says to a device
    /// with this many vibrators: the speed for each of them. The id and the
    /// device stay.
    pub fn from_single_motor(cmd: &SingleMotorVibrateCmd, vibrators: u32) -> (r: Self)
        ensures
            r.id == cmd.id,
            r.device_index == cmd.device_index,
            r.scalars@ == Self::spec_single_motor_scalars(cmd.speed, vibrators),
    {
        let mut subcommands: Vec<ScalarSubcommand> = Vec::new();
        let mut i: u32 = 0;
        while i < vibrators
            invariant
                i <= vibrators,
                subcommands@ == Self::spec_single_motor_scalars(cmd.speed, i),
            decreases vibrators - i,
        {
            subcommands.push(ScalarSubcommand::new(i, cmd.speed, ActuatorType::Vibrate));
            assert(subcommands@ =~= Self::spec_single_motor_scalars(cmd.speed, (i + 1) as u32));
            i += 1;
        }
        ScalarCmd { id: cmd.id, device_index: cmd.device_index, scalars: subcommands }
    }

    /// Whether every subcommand is for a feature that vibrates.
    pub open spec fn spec_all_vibrate(scalars: Seq<ScalarSubcommand>) -> bool {
        forall|i: int|
            0 <= i < scalars.len() ==> (#[trigger] scalars[i]).actuator_type == ActuatorType::Vibrate
    }

    /// The speeds that say of vibrators what `scalars` says: the same
    /// features and levels, in the same order.
    pub open spec fn spec_scalar_speeds(scalars: Seq<ScalarSubcommand>) -> Seq<
        crate::messages::VibrateSubcommand,
    > {
        Seq::new(
            scalars.len(),
            |i: int|
                crate::messages::VibrateSubcommand { index: scalars[i].index, speed: scalars[i].scalar },
        )
    }

    /// Says as a vibrate command what this command says, if it speaks of
    /// nothing but vibrators. The id and the device stay.
    pub fn to_vibrate_cmd(&self) -> (r: Option<VibrateCmd>)
        ensures
            r is Some <==> Self::spec_all_vibrate(self.scalars@),
            r matches Some(vibrate_cmd) ==> {
                &&& vibrate_cmd.id == self.id
                &&& vibrate_cmd.device_index == self.device_index
                &&& vibrate_cmd.speeds@ == Self::spec_scalar_speeds(self.scalars@)
            },
    {
        let mut speeds: Vec<crate::messages::VibrateSubcommand> = Vec::new();
        let mut i: usize = 0;
        while i < self.scalars.len()
            invariant
                i <= self.scalars@.len(),
                Self::spec_all_vibrate(self.scalars@.take(i as int)),
                speeds@ == Self::spec_scalar_speeds(self.scalars@.take(i as int)),
            decreases self.scalars@.len() - i,
        {
            let scalar = &self.scalars[i];
            match scalar.actuator_type {
                ActuatorType::Vibrate => {},
                _ => {
                    return None;
                },
            }
            speeds.push(crate::messages::VibrateSubcommand::new(scalar.index, scalar.scalar));
            assert(speeds@ =~= Self::spec_scalar_speeds(self.scalars@.take(i + 1)));
            assert forall|k: int| 0 <= k < i + 1 implies (#[trigger] self.scalars@.take(i + 1)[k]).actuator_type
                == ActuatorType::Vibrate by {
                if k < i {
                    assert(self.scalars@.take(i as int)[k] == self.scalars@[k]);
                }
            }
            i += 1;
        }
        assert(self.scalars@.take(i as int) == self.scalars@);
        Some(VibrateCmd { id: self.id, device_index: self.device_index, speeds })
    }

    /// Turning speeds into levels and back gives the speeds again.
    pub proof fn lemma_vibrate_round_trip(speeds: Seq<crate::messages::VibrateSubcommand>)
        ensures
            Self::spec_all_vibrate(Self::spec_vibrate_scalars(speeds)),
            Self::spec_scalar_speeds(Self::spec_vibrate_scalars(speeds)) == speeds,
    {
        assert(Self::spec_scalar_speeds(Self::spec_vibrate_scalars(speeds)) =~= speeds);
    }
}

impl vstd::std_specs::convert::FromSpecImpl<VibrateCmd> for ScalarCmd {
    /// The result holds a list made anew, so it is stated by `from` itself,
    /// over the list's contents, and not as one value here.
    open spec fn obeys_from_spec() -> bool {
        false
    }

    open spec fn from_spec(vibrate_cmd: VibrateCmd) -> ScalarCmd {
        arbitrary()
    }
}

impl From<VibrateCmd> for ScalarCmd {
    /// Says as a scalar command what a vibrate command says. The id and the
    /// device stay; each speed becomes a level for a vibrating feature.
    fn from(vibrate_cmd: VibrateCmd) -> (r: Self)
        ensures
            r.id == vibrate_cmd.id,
            r.device_index == vibrate_cmd.device_index,
            r.scalars@ == ScalarCmd::spec_vibrate_scalars(vibrate_cmd.speeds@),
    {
        let mut subcommands: Vec<ScalarSubcommand> = Vec::new();
        let mut i: usize = 0;
        while i < vibrate_cmd.speeds.len()
            invariant
                i <= vibrate_cmd.speeds@.len(),
                subcommands@ == ScalarCmd::spec_vibrate_scalars(vibrate_cmd.speeds@.take(i as int)),
            decreases vibrate_cmd.speeds@.len() - i,
        {
            let x = &vibrate_cmd.speeds[i];
            subcommands.push(ScalarSubcommand::new(x.index(), x.speed(), ActuatorType::Vibrate));
            i += 1;
        }
        assert(vibrate_cmd.speeds@.take(i as int) == vibrate_cmd.speeds@);
        ScalarCmd { id: vibrate_cmd.id, device_index: vibrate_cmd.device_index, scalars: subcommands }
    }
}

} // verus!
