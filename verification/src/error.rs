//! What can go wrong when a session is created or driven.

use vstd::prelude::*;

verus! {

/// A failure of a session operation.
///
/// The engine reports a failure by a diagnostic text that it owns for the
/// whole life of the program, so an error never owns memory of its own.
#[derive(Clone, Copy, Debug, PartialEq, Eq)]
pub enum Error {
    /// The layout has more channels than the engine's channel count can
    /// express. This is found before the engine is asked for anything.
    ChannelCountTooLarge,
    /// The engine refused a call, with this diagnostic.
    Engine(&'static str),
}

impl Error {
    /// The text of this error.
    pub open spec fn message(self) -> Seq<char> {
        match self {
            Error::ChannelCountTooLarge => "channel count does not fit in c_uint"@,
            Error::Engine(diagnostic) => diagnostic@,
        }
    }

    /// Reads the diagnostic that the engine gave for a call: none means that
    /// the call succeeded, and any diagnostic is the error of that call.
    pub fn check(diagnostic: Option<&'static str>) -> (checked: Result<(), Error>)
        ensures
            checked == match diagnostic {
                None => Ok::<(), Error>(()),
                Some(text) => Err::<(), Error>(Error::Engine(text)),
            },
    {
        match diagnostic {
            None => Ok(()),
            Some(text) => Err(Error::Engine(text)),
        }
    }

    /// The text of this error.
    pub fn as_str(&self) -> (text: &'static str)
        ensures
            text@ == self.message(),
    {
        match self {
            Error::ChannelCountTooLarge => "channel count does not fit in c_uint",
            Error::Engine(diagnostic) => diagnostic,
        }
    }
}

} // verus!
