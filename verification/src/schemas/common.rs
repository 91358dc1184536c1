//! Types shared by several endpoints.
use vstd::prelude::*;

verus! {

/// A day of the working week.
#[derive(Clone, Copy, Debug, PartialEq, Eq, Structural)]
pub enum Day {
    Monday,
    Tuesday,
    Wednesday,
    Thursday,
    Friday,
    Saturday,
}

/// An error as sent in a body: its kind and a message.
pub struct ErrorResponse {
    pub error: String,
    pub message: String,
}

} // verus!
