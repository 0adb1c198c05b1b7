//! The data the tool works on: events, their kinds, users and instants.

pub mod events;
pub mod timestamp;
pub mod user;

use vstd::prelude::*;

verus! {

/// A value given on the command line that the tool refuses.
#[derive(Debug, PartialEq, Eq, Structural, Clone, Copy)]
pub enum InputError {
    /// The event limit is outside 1 to 300.
    LimitOutOfRange,
    /// The username is empty once surrounding whitespace is removed.
    EmptyUsername,
}

impl InputError {
    /// The message shown to the user for this error.
    pub fn message(&self) -> (r: &'static str)
        ensures
            r@ == input_error_message(*self),
    {
        match self {
            InputError::LimitOutOfRange => "limit must be in the range [1, 300]",
            InputError::EmptyUsername => "username must not be empty",
        }
    }
}

/// The message shown for `e`.
pub open spec fn input_error_message(e: InputError) -> Seq<char> {
    match e {
        InputError::LimitOutOfRange => "limit must be in the range [1, 300]"@,
        InputError::EmptyUsername => "username must not be empty"@,
    }
}

} // verus!
