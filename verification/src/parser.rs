//! The span decoder on its own, for callers that have no use for relative
//! expressions: text in, `Duration` out, with an error type of three cases.

use crate::duration::{decode_span, span_to_duration};
use std::time::Duration;
use vstd::prelude::*;
use vstd::string::StringSliceAdditionalSpecFns;

verus! {

/// An error while parsing a human time duration string.
#[derive(Debug, PartialEq, Eq)]
pub enum Error {
    /// The input had an invalid time unit.
    InvalidUnit,
    /// The input for a unit is not valid for a [`Duration`].
    InvalidNumber,
    /// The input was empty.
    EmptyInput,
}

impl Error {
    /// The text of [`Error::message`], as a sequence of characters.
    pub open spec fn text(self) -> Seq<char> {
        match self {
            Error::InvalidUnit => "invalid unit"@,
            Error::InvalidNumber => "invalid number"@,
            Error::EmptyInput => "empty input"@,
        }
    }

    /// A short, lower-case description of the error, fit for showing to a user.
    pub fn message(&self) -> (s: &'static str)
        ensures
            s@ == self.text(),
    {
        match self {
            Error::InvalidUnit => "invalid unit",
            Error::InvalidNumber => "invalid number",
            Error::EmptyInput => "empty input",
        }
    }
}

/// The error of this module that stands for an error of the span decoder.
pub open spec fn narrowed(error: crate::error::Error) -> Error {
    match error {
        crate::error::Error::EmptyDurationInput => Error::EmptyInput,
        crate::error::Error::InvalidUnit => Error::InvalidUnit,
        _ => Error::InvalidNumber,
    }
}

/// Convert an input to a [`Duration`].
///
/// The result is the sum of the terms of `input`. Input that is empty, that
/// is not term after term to its end, or whose terms sum to more than a
/// `Duration` holds, is refused.
pub fn parse(input: &str) -> (result: Result<Duration, Error>)
    ensures
        result == match span_to_duration(decode_span(input.spec_bytes())) {
            Ok(duration) => Ok::<Duration, Error>(duration),
            Err(error) => Err(narrowed(error)),
        },
{
    match crate::duration::parse(input.as_bytes()) {
        Ok(duration) => Ok(duration),
        Err(crate::error::Error::EmptyDurationInput) => Err(Error::EmptyInput),
        Err(crate::error::Error::InvalidUnit) => Err(Error::InvalidUnit),
        Err(_) => Err(Error::InvalidNumber),
    }
}

} // verus!
