//! The error of every fallible operation: its message.

use vstd::prelude::*;

verus! {

/// An error, which is what it says.
#[derive(Clone, Debug)]
pub struct VortexError {
    pub message: String,
}

impl View for VortexError {
    type V = Seq<char>;

    open spec fn view(&self) -> Seq<char> {
        self.message@
    }
}

impl VortexError {
    pub fn new(message: String) -> (out: Self)
        ensures
            out@ == message@,
    {
        VortexError { message }
    }

    pub fn of(message: &str) -> (out: Self)
        ensures
            out@ == message@,
    {
        VortexError { message: String::from_str(message) }
    }

    /// The message, as shown to a user.
    pub fn message(&self) -> (out: String)
        ensures
            out@ == self@,
    {
        self.message.clone()
    }
}

pub type VortexResult<T> = Result<T, VortexError>;

} // verus!
