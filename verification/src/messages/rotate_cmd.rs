use crate::errors::ButtplugMessageError;
use crate::messages::{
    in_command_range, is_in_command_range, is_not_system_id, lemma_levels_valid,
    spec_is_not_system_id, spec_levels_valid, ButtplugDeviceMessage, ButtplugMessage,
    ButtplugMessageValidator, SYSTEM_ID,
};
use vstd::prelude::*;

verus! {

/// One speed and direction for one rotator of a device.
#[derive(Clone, Copy, Debug, PartialEq, Eq, Structural)]
pub struct RotationSubcommand {
    /// Which of the device's rotators.
    pub index: u32,
    /// The speed, as the bits of a double in the unit interval.
    pub speed: u64,
    /// The direction.
    pub clockwise: bool,
}

impl RotationSubcommand {
    /// Creates the subcommand.
    pub fn new(index: u32, speed: u64, clockwise: bool) -> (r: Self)
        ensures
            r == (RotationSubcommand { index, speed, clockwise }),
    {
        RotationSubcommand { index, speed, clockwise }
    }

    /// Returns which of the device's rotators.
    pub fn index(&self) -> (r: u32)
        ensures
            r == self.index,
    {
        self.index
    }

    /// Returns the speed, as the bits of a double in the unit interval.
    pub fn speed(&self) -> (r: u64)
        ensures
            r == self.speed,
    {
        self.speed
    }

    /// Returns the direction.
    pub fn clockwise(&self) -> (r: bool)
        ensures
            r == self.clockwise,
    {
        self.clockwise
    }
}

/// Spins rotators of a device.
#[derive(Clone, Debug, PartialEq, Eq)]
pub struct RotateCmd {
    /// The id that ties a reply to its request.
    pub id: u32,
    /// The index of the device.
    pub device_index: u32,
    /// The rotations, one subcommand for each rotator addressed. The list may be
    /// empty, which asks for nothing.
    pub rotations: Vec<RotationSubcommand>,
}

impl RotateCmd {
    /// Creates the message under the id that every new message starts with.
    pub fn new(device_index: u32, rotations: Vec<RotationSubcommand>) -> (r: Self)
        ensures
            r == (RotateCmd { id: 1, device_index, rotations }),
    {
        RotateCmd { id: 1, device_index, rotations }
    }

    /// Returns the subcommands.
    pub fn rotations(&self) -> (r: &Vec<RotationSubcommand>)
        ensures
            r == &self.rotations,
    {
        &self.rotations
    }

    /// A command that passes its check does not carry the reserved id, and every
    /// one of its levels lies in the unit interval.
    pub proof fn lemma_valid_levels(&self)
        requires
            self.spec_is_valid() is Ok,
        ensures
            self.id != SYSTEM_ID,
            forall|i: int|
                0 <= i < self.rotations@.len() ==> in_command_range((#[trigger] self.rotations@[i]).speed),
    {
        lemma_levels_valid(self.spec_levels(), 0);
        assert forall|i: int| 0 <= i < self.rotations@.len() implies in_command_range(
            (#[trigger] self.rotations@[i]).speed,
        ) by {
            assert(self.spec_levels()[i].1 == self.rotations@[i].speed);
        }
    }

    /// The feature and the level of each subcommand, in the order given.
    pub open spec fn spec_levels(&self) -> Seq<(u32, u64)> {
        Seq::new(self.rotations@.len(), |i: int| (self.rotations@[i].index, self.rotations@[i].speed))
    }
}

impl ButtplugMessage for RotateCmd {
    open spec fn spec_id(&self) -> u32 {
        self.id
    }

    fn id(&self) -> (r: u32) {
        self.id
    }

    fn set_id(&mut self, id: u32)
        ensures
            *final(self) == (RotateCmd { id, ..*old(self) }),
    {
        self.id = id;
    }
}

impl ButtplugDeviceMessage for RotateCmd {
    open spec fn spec_device_index(&self) -> u32 {
        self.device_index
    }

    fn device_index(&self) -> (r: u32) {
        self.device_index
    }

    fn set_device_index(&mut self, device_index: u32)
        ensures
            *final(self) == (RotateCmd { device_index, ..*old(self) }),
    {
        self.device_index = device_index;
    }
}

impl ButtplugMessageValidator for RotateCmd {
    /// A client sends this message, so the reserved id is refused; after that
    /// the first subcommand whose level lies outside the unit interval is named.
    open spec fn spec_is_valid(&self) -> Result<(), ButtplugMessageError> {
        if self.id == SYSTEM_ID {
            spec_is_not_system_id(self.id)
        } else {
            spec_levels_valid(self.spec_levels(), 0)
        }
    }

    fn is_valid(&self) -> (r: Result<(), ButtplugMessageError>) {
        if let Err(e) = is_not_system_id(self.id) {
            return Err(e);
        }
        let mut i: usize = 0;
        while i < self.rotations.len()
            invariant
                self.id != SYSTEM_ID,
                i <= self.rotations@.len(),
                spec_levels_valid(self.spec_levels(), 0) == spec_levels_valid(
                    self.spec_levels(),
                    i as int,
                ),
            decreases self.rotations@.len() - i,
        {
            let level = &self.rotations[i];
            if let Err(e) = is_in_command_range(level.index, level.speed) {
                return Err(e);
            }
            i += 1;
        }
        Ok(())
    }
}

} // verus!
