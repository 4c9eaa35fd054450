//! The uniform envelope of every response: either the data of a success or
//! the text of an error, never both.

use vstd::prelude::*;
use vstd::string::*;
use crate::error::{error_message, ApiError};

verus! {

/// Status sent with a success.
pub const STATUS_OK: u16 = 200;

/// Status sent with every error, whatever its kind.
pub const STATUS_BAD_REQUEST: u16 = 400;

/// A response: the data of a success, or the text of an error.
#[derive(Debug, PartialEq, Eq)]
pub enum Envelope<T> {
    Success { data: T },
    Failure { error: String },
}

impl<T> Envelope<T> {
    /// The value of the envelope's `success` flag.
    pub open spec fn succeeded(self) -> bool {
        self is Success
    }

    /// The value of the envelope's `success` flag.
    pub fn is_success(&self) -> (flag: bool)
        ensures
            flag == self.succeeded(),
    {
        match self {
            Envelope::Success { .. } => true,
            Envelope::Failure { .. } => false,
        }
    }

    /// The status that the envelope is sent with: 200 for a success, 400 for an
    /// error.
    pub fn status(&self) -> (code: u16)
        ensures
            code == if self.succeeded() {
                STATUS_OK
            } else {
                STATUS_BAD_REQUEST
            },
    {
        match self {
            Envelope::Success { .. } => STATUS_OK,
            Envelope::Failure { .. } => STATUS_BAD_REQUEST,
        }
    }
}

/// The envelope of a success.
pub fn success<T>(data: T) -> (envelope: Envelope<T>)
    ensures
        envelope == (Envelope::Success { data }),
{
    Envelope::Success { data }
}

/// The envelope of an error with the given text.
pub fn error<T>(message: &str) -> (envelope: Envelope<T>)
    ensures
        envelope matches Envelope::Failure { error } && error@ == message@,
{
    Envelope::Failure { error: String::from_str(message) }
}

/// Wraps the outcome of a handler: its data as a success, its error as the
/// error's text.
pub fn respond<T>(outcome: Result<T, ApiError>) -> (envelope: Envelope<T>)
    ensures
        match outcome {
            Ok(data) => envelope == (Envelope::Success { data }),
            Err(e) => envelope matches Envelope::Failure { error } && error@ == error_message(e),
        },
{
    match outcome {
        Ok(data) => success(data),
        Err(e) => error(e.message().as_str()),
    }
}

} // verus!
