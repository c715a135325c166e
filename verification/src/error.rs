use vstd::prelude::*;

verus! {

/// The error returned when an operation of this crate fails.
///
/// The only failure intrinsic to the query and batch building blocks is a
/// serialization failure reported by a caller-supplied entity-to-text
/// capability; the message carries its description.
#[derive(Clone, Debug, PartialEq, Eq)]
pub struct DataverseError {
    pub message: String,
}

impl DataverseError {
    pub fn new(message: String) -> (r: Self)
        ensures
            r.message == message,
    {
        Self { message }
    }

    /// The error's message, for callers that display errors.
    pub fn text(&self) -> (r: String)
        ensures
            r@ == self.message@,
    {
        self.message.clone()
    }
}

} // verus!
