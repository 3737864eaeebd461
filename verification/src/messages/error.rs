use crate::errors::{ButtplugError, ButtplugMessageError, ErrorCode};
use crate::messages::{ButtplugMessage, ButtplugMessageValidator};
use vstd::prelude::*;

verus! {

/// Tells the client that something went wrong: with the request of this id,
/// or, under the reserved id, with the session as a whole.
#[derive(Clone, Debug, PartialEq, Eq)]
pub struct Error {
    /// The id that ties a reply to its request.
    pub id: u32,
    /// The class of the error.
    pub error_code: ErrorCode,
    /// A text for people to read.
    pub error_message: String,
}

impl Error {
    /// Creates the message under the reserved id.
    pub fn new(error_code: ErrorCode, error_message: String) -> (r: Self)
        ensures
            r == (Error { id: 0, error_code, error_message }),
    {
        Error { id: 0, error_code, error_message }
    }

    /// Creates the message that reports `error` for the request with this id.
    pub fn from_error(id: u32, error: ButtplugError) -> (r: Self)
        ensures
            r.id == id,
            r.error_code == error.spec_error_code(),
            r.error_message@ == error.spec_description(),
    {
        Error { id, error_code: error.error_code(), error_message: error.description() }
    }

    /// Returns the class of the error.
    pub fn error_code(&self) -> (r: ErrorCode)
        ensures
            r == self.error_code,
    {
        self.error_code
    }

    /// Returns the text for people to read.
    pub fn error_message(&self) -> (r: &String)
        ensures
            r == &self.error_message,
    {
        &self.error_message
    }
}

impl ButtplugMessage for Error {
    open spec fn spec_id(&self) -> u32 {
        self.id
    }

    fn id(&self) -> (r: u32) {
        self.id
    }

    fn set_id(&mut self, id: u32)
        ensures
            *final(self) == (Error { id, ..*old(self) }),
    {
        self.id = id;
    }
}

impl ButtplugMessageValidator for Error {
    /// The server sends this message, in reply or unasked: any id is taken.
    open spec fn spec_is_valid(&self) -> Result<(), ButtplugMessageError> {
        Ok(())
    }

    fn is_valid(&self) -> (r: Result<(), ButtplugMessageError>) {
        Ok(())
    }
}

} // verus!
