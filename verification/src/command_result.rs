//! The error value handed back to the command surface.

use vstd::prelude::*;
use vstd::std_specs::convert::FromSpecImpl;
use crate::structs::failure_text;

verus! {

/// A failure reported to the caller of a command, as the text shown to the
/// user.
#[derive(Debug)]
pub struct CommandError(pub String);

impl CommandError {
    /// The text of the failure.
    pub fn message(&self) -> (text: &String)
        ensures
            text@ == self.0@,
    {
        &self.0
    }
}

impl From<crate::structs::Error> for CommandError {
    /// The failure with the text that describes it.
    fn from(e: crate::structs::Error) -> (shown: CommandError)
        ensures
            shown.0@ == failure_text(e@),
    {
        CommandError(e.message())
    }
}

/// The conversion is specified on `from` itself, by the text of its result.
impl FromSpecImpl<crate::structs::Error> for CommandError {
    open spec fn obeys_from_spec() -> bool {
        false
    }

    open spec fn from_spec(e: crate::structs::Error) -> CommandError {
        arbitrary()
    }
}

impl From<crate::search::Error> for CommandError {
    /// The error with the text that describes it.
    fn from(e: crate::search::Error) -> (shown: CommandError)
        ensures
            shown.0@ == e.text(),
    {
        CommandError(e.message())
    }
}

/// The conversion is specified on `from` itself, by the text of its result.
impl FromSpecImpl<crate::search::Error> for CommandError {
    open spec fn obeys_from_spec() -> bool {
        false
    }

    open spec fn from_spec(e: crate::search::Error) -> CommandError {
        arbitrary()
    }
}

} // verus!
