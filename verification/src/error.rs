//! The error type shared by both decoders.

use vstd::prelude::*;

verus! {

/// An error while parsing a relative human time duration string.
#[derive(Debug, PartialEq, Eq)]
pub enum Error {
    /// There was an invalid unit.
    InvalidUnit,
    /// There was an invalid number: no digits where a number was expected, or
    /// a span too long for a [`std::time::Duration`] to hold.
    InvalidNumber,
    /// The input was empty while parsing the duration.
    EmptyDurationInput,
    /// There was an invalid relative type.
    InvalidRelativeType,
    /// The input was empty while parsing the relative type.
    EmptyRelativeInput,
    /// There was multiple relative types.
    MultipleRelativeTypes,
}

impl Error {
    /// The text of [`Error::message`], as a sequence of characters.
    pub open spec fn text(self) -> Seq<char> {
        match self {
            Error::InvalidUnit => "invalid unit"@,
            Error::InvalidNumber => "invalid number"@,
            Error::EmptyDurationInput => "empty duration input"@,
            Error::InvalidRelativeType => "invalid relative type"@,
            Error::EmptyRelativeInput => "empty relative input"@,
            Error::MultipleRelativeTypes => "multiple relative types"@,
        }
    }

    /// A short, lower-case description of the error, fit for showing to a user.
    pub fn message(&self) -> (s: &'static str)
        ensures
            s@ == self.text(),
    {
        match self {
            Error::InvalidUnit => "invalid unit",
            Error::InvalidNumber => "invalid number",
            Error::EmptyDurationInput => "empty duration input",
            Error::InvalidRelativeType => "invalid relative type",
            Error::EmptyRelativeInput => "empty relative input",
            Error::MultipleRelativeTypes => "multiple relative types",
        }
    }
}

} // verus!
