use crate::errors::ButtplugMessageError;
use crate::messages::{is_system_id, spec_is_system_id, ButtplugMessage, ButtplugMessageValidator};
use vstd::prelude::*;

verus! {

/// Tells the client that every transport has stopped looking for devices.
#[derive(Clone, Copy, Debug, PartialEq, Eq, Structural)]
pub struct ScanningFinished {
    /// The id that ties a reply to its request.
    pub id: u32,
}

impl ScanningFinished {
    /// Creates the message under the reserved id.
    pub fn new() -> (r: Self)
        ensures
            r == (ScanningFinished { id: 0 }),
    {
        ScanningFinished { id: 0 }
    }
}

impl Default for ScanningFinished {
    fn default() -> (r: Self)
        ensures
            r == (ScanningFinished { id: 0 }),
    {
        ScanningFinished { id: 0 }
    }
}

impl ButtplugMessage for ScanningFinished {
    open spec fn spec_id(&self) -> u32 {
        self.id
    }

    fn id(&self) -> (r: u32) {
        self.id
    }

    fn set_id(&mut self, id: u32)
        ensures
            *final(self) == (ScanningFinished { id, ..*old(self) }),
    {
        self.id = id;
    }
}

impl ButtplugMessageValidator for ScanningFinished {
    /// The server sends this message unasked, so only the reserved id is taken.
    open spec fn spec_is_valid(&self) -> Result<(), ButtplugMessageError> {
        spec_is_system_id(self.id)
    }

    fn is_valid(&self) -> (r: Result<(), ButtplugMessageError>) {
        is_system_id(self.id)
    }
}

} // verus!
