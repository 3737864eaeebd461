use crate::errors::ButtplugMessageError;
use crate::messages::{ButtplugMessage, ButtplugMessageValidator};
use vstd::prelude::*;

verus! {

/// Tells the client that the request with this id was carried out.
#[derive(Clone, Copy, Debug, PartialEq, Eq, Structural)]
pub struct OkMessage {
    /// The id that ties a reply to its request.
    pub id: u32,
}

impl OkMessage {
    /// Creates the reply to the request with this id.
    pub fn new(id: u32) -> (r: Self)
        ensures
            r == (OkMessage { id }),
    {
        OkMessage { id }
    }
}

impl ButtplugMessage for OkMessage {
    open spec fn spec_id(&self) -> u32 {
        self.id
    }

    fn id(&self) -> (r: u32) {
        self.id
    }

    fn set_id(&mut self, id: u32)
        ensures
            *final(self) == (OkMessage { id, ..*old(self) }),
    {
        self.id = id;
    }
}

impl ButtplugMessageValidator for OkMessage {
    /// The server sends this message, in reply or unasked: any id is taken.
    open spec fn spec_is_valid(&self) -> Result<(), ButtplugMessageError> {
        Ok(())
    }

    fn is_valid(&self) -> (r: Result<(), ButtplugMessageError>) {
        Ok(())
    }
}

} // verus!
