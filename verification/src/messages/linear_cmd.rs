use crate::errors::ButtplugMessageError;
use crate::messages::{
    in_command_range, is_in_command_range, is_not_system_id, lemma_levels_valid,
    spec_is_not_system_id, spec_levels_valid, ButtplugDeviceMessage, ButtplugMessage,
    ButtplugMessageValidator, SYSTEM_ID,
};
use vstd::prelude::*;

verus! {

/// One move for one linear feature of a device.
#[derive(Clone, Copy, Debug, PartialEq, Eq, Structural)]
pub struct VectorSubcommand {
    /// Which of the device's linear features.
    pub index: u32,
    /// How long the move is to take, in milliseconds. Not checked here: the vendor
    /// protocol decides what it can do.
    pub duration: u32,
    /// The position to reach, as the bits of a double in the unit interval.
    pub position: u64,
}

impl VectorSubcommand {
    /// Creates the subcommand.
    pub fn new(index: u32, duration: u32, position: u64) -> (r: Self)
        ensures
            r == (VectorSubcommand { index, duration, position }),
    {
        VectorSubcommand { index, duration, position }
    }

    /// Returns which of the device's linear features.
    pub fn index(&self) -> (r: u32)
        ensures
            r == self.index,
    {
        self.index
    }

    /// Returns how long the move is to take, in milliseconds.
    pub fn duration(&self) -> (r: u32)
        ensures
            r == self.duration,
    {
        self.duration
    }

    /// Returns the position to reach, as the bits of a double in the unit interval.
    pub fn position(&self) -> (r: u64)
        ensures
            r == self.position,
    {
        self.position
    }
}

/// Moves linear features of a device to positions.
#[derive(Clone, Debug, PartialEq, Eq)]
pub struct LinearCmd {
    /// The id that ties a reply to its request.
    pub id: u32,
    /// The index of the device.
    pub device_index: u32,
    /// The moves, one subcommand for each feature addressed. The list may be empty,
    /// which asks for nothing.
    pub vectors: Vec<VectorSubcommand>,
}

impl LinearCmd {
    /// Creates the message under the id that every new message starts with.
    pub fn new(device_index: u32, vectors: Vec<VectorSubcommand>) -> (r: Self)
        ensures
            r == (LinearCmd { id: 1, device_index, vectors }),
    {
        LinearCmd { id: 1, device_index, vectors }
    }

    /// Returns the subcommands.
    pub fn vectors(&self) -> (r: &Vec<VectorSubcommand>)
        ensures
            r == &self.vectors,
    {
        &self.vectors
    }

    /// A command that passes its check does not carry the reserved id, and every
    /// one of its levels lies in the unit interval.
    pub proof fn lemma_valid_levels(&self)
        requires
            self.spec_is_valid() is Ok,
        ensures
            self.id != SYSTEM_ID,
            forall|i: int|
                0 <= i < self.vectors@.len() ==> in_command_range((#[trigger] self.vectors@[i]).position),
    {
        lemma_levels_valid(self.spec_levels(), 0);
        assert forall|i: int| 0 <= i < self.vectors@.len() implies in_command_range(
            (#[trigger] self.vectors@[i]).position,
        ) by {
            assert(self.spec_levels()[i].1 == self.vectors@[i].position);
        }
    }

    /// The feature and the level of each subcommand, in the order given.
    pub open spec fn spec_levels(&self) -> Seq<(u32, u64)> {
        Seq::new(self.vectors@.len(), |i: int| (self.vectors@[i].index, self.vectors@[i].position))
    }
}

impl ButtplugMessage for LinearCmd {
    open spec fn spec_id(&self) -> u32 {
        self.id
    }

    fn id(&self) -> (r: u32) {
        self.id
    }

    fn set_id(&mut self, id: u32)
        ensures
            *final(self) == (LinearCmd { id, ..*old(self) }),
    {
        self.id = id;
    }
}

impl ButtplugDeviceMessage for LinearCmd {
    open spec fn spec_device_index(&self) -> u32 {
        self.device_index
    }

    fn device_index(&self) -> (r: u32) {
        self.device_index
    }

    fn set_device_index(&mut self, device_index: u32)
        ensures
            *final(self) == (LinearCmd { device_index, ..*old(self) }),
    {
        self.device_index = device_index;
    }
}

impl ButtplugMessageValidator for LinearCmd {
    /// A client sends this message, so the reserved id is refused; after that
    /// the first subcommand whose level lies outside the unit interval is named.
    open spec fn spec_is_valid(&self) -> Result<(), ButtplugMessageError> {
        if self.id == SYSTEM_ID {
            spec_is_not_system_id(self.id)
        } else {
            spec_levels_valid(self.spec_levels(), 0)
        }
    }

    fn is_valid(&self) -> (r: Result<(), ButtplugMessageError>) {
        if let Err(e) = is_not_system_id(self.id) {
            return Err(e);
        }
        let mut i: usize = 0;
        while i < self.vectors.len()
            invariant
                self.id != SYSTEM_ID,
                i <= self.vectors@.len(),
                spec_levels_valid(self.spec_levels(), 0) == spec_levels_valid(
                    self.spec_levels(),
                    i as int,
                ),
            decreases self.vectors@.len() - i,
        {
            let level = &self.vectors[i];
            if let Err(e) = is_in_command_range(level.index, level.position) {
                return Err(e);
            }
            i += 1;
        }
        Ok(())
    }
}

} // verus!
