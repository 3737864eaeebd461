use crate::errors::ButtplugMessageError;
use crate::messages::{
    in_command_range, is_in_command_range, is_not_system_id, lemma_levels_valid,
    spec_is_not_system_id, spec_levels_valid, ButtplugDeviceMessage, ButtplugMessage,
    ButtplugMessageValidator, SYSTEM_ID,
};
use vstd::prelude::*;

verus! {

/// One speed for one vibrator of a device.
#[derive(Clone, Copy, Debug, PartialEq, Eq, Structural)]
pub struct VibrateSubcommand {
    /// Which of the device's vibrators.
    pub index: u32,
    /// The speed, as the bits of a double in the unit interval.
    pub speed: u64,
}

impl VibrateSubcommand {
    /// Creates the subcommand.
    pub fn new(index: u32, speed: u64) -> (r: Self)
        ensures
            r == (VibrateSubcommand { index, speed }),
    {
        VibrateSubcommand { index, speed }
    }

    /// Returns which of the device's vibrators.
    pub fn index(&self) -> (r: u32)
        ensures
            r == self.index,
    {
        self.index
    }

    /// Returns the speed, as the bits of a double in the unit interval.
    pub fn speed(&self) -> (r: u64)
        ensures
            r == self.speed,
    {
        self.speed
    }
}

/// Sets vibrators of a device to speeds. The newest revision of the wire format
/// has the scalar command in its place.
#[derive(Clone, Debug, PartialEq, Eq)]
pub struct VibrateCmd {
    /// The id that ties a reply to its request.
    pub id: u32,
    /// The index of the device.
    pub device_index: u32,
    /// The speeds, one subcommand for each vibrator addressed. The list may be
    /// empty, which asks for nothing.
    pub speeds: Vec<VibrateSubcommand>,
}

impl VibrateCmd {
    /// Creates the message under the id that every new message starts with.
    pub fn new(device_index: u32, speeds: Vec<VibrateSubcommand>) -> (r: Self)
        ensures
            r == (VibrateCmd { id: 1, device_index, speeds }),
    {
        VibrateCmd { id: 1, device_index, speeds }
    }

    /// Returns the subcommands.
    pub fn speeds(&self) -> (r: &Vec<VibrateSubcommand>)
        ensures
            r == &self.speeds,
    {
        &self.speeds
    }

    /// A command that passes its check does not carry the reserved id, and every
    /// one of its levels lies in the unit interval.
    pub proof fn lemma_valid_levels(&self)
        requires
            self.spec_is_valid() is Ok,
        ensures
            self.id != SYSTEM_ID,
            forall|i: int|
                0 <= i < self.speeds@.len() ==> in_command_range((#[trigger] self.speeds@[i]).speed),
    {
        lemma_levels_valid(self.spec_levels(), 0);
        assert forall|i: int| 0 <= i < self.speeds@.len() implies in_command_range(
            (#[trigger] self.speeds@[i]).speed,
        ) by {
            assert(self.spec_levels()[i].1 == self.speeds@[i].speed);
        }
    }

    /// The feature and the level of each subcommand, in the order given.
    pub open spec fn spec_levels(&self) -> Seq<(u32, u64)> {
        Seq::new(self.speeds@.len(), |i: int| (self.speeds@[i].index, self.speeds@[i].speed))
    }
}

impl ButtplugMessage for VibrateCmd {
    open spec fn spec_id(&self) -> u32 {
        self.id
    }

    fn id(&self) -> (r: u32) {
        self.id
    }

    fn set_id(&mut self, id: u32)
        ensures
            *final(self) == (VibrateCmd { id, ..*old(self) }),
    {
        self.id = id;
    }
}

impl ButtplugDeviceMessage for VibrateCmd {
    open spec fn spec_device_index(&self) -> u32 {
        self.device_index
    }

    fn device_index(&self) -> (r: u32) {
        self.device_index
    }

    fn set_device_index(&mut self, device_index: u32)
        ensures
            *final(self) == (VibrateCmd { device_index, ..*old(self) }),
    {
        self.device_index = device_index;
    }
}

impl ButtplugMessageValidator for VibrateCmd {
    /// A client sends this message, so the reserved id is refused; after that
    /// the first subcommand whose level lies outside the unit interval is named.
    open spec fn spec_is_valid(&self) -> Result<(), ButtplugMessageError> {
        if self.id == SYSTEM_ID {
            spec_is_not_system_id(self.id)
        } else {
            spec_levels_valid(self.spec_levels(), 0)
        }
    }

    fn is_valid(&self) -> (r: Result<(), ButtplugMessageError>) {
        if let Err(e) = is_not_system_id(self.id) {
            return Err(e);
        }
        let mut i: usize = 0;
        while i < self.speeds.len()
            invariant
                self.id != SYSTEM_ID,
                i <= self.speeds@.len(),
                spec_levels_valid(self.spec_levels(), 0) == spec_levels_valid(
                    self.spec_levels(),
                    i as int,
                ),
            decreases self.speeds@.len() - i,
        {
            let level = &self.speeds[i];
            if let Err(e) = is_in_command_range(level.index, level.speed) {
                return Err(e);
            }
            i += 1;
        }
        Ok(())
    }
}

} // verus!
