//! relhu is a library that can parse _**rel**ative and/or **hu**man_ time duration strings.
//!
//! # Examples
//!
//! ```rust
//! use std::time::{Duration, Instant};
//!
//! // Parsing to get a duration.
//! assert_eq!(relhu::parse_duration("5s").unwrap(), Duration::from_secs(5));
//! assert_eq!(relhu::parse_duration("100 us").unwrap(), Duration::from_micros(100));
//!
//! // Parsing to get an instant in the future.
//! let now = Instant::now();
//! assert_eq!(relhu::parse_with_instant("15m later", now).unwrap(), now + Duration::from_secs(15 * 60));
//! assert_eq!(relhu::parse_with_instant("+55ms", now).unwrap(), now + Duration::from_millis(55));
//!
//! // Parsing to get an instant in the past.
//! let now = Instant::now();
//! assert_eq!(relhu::parse_with_instant("20ns ago", now).unwrap(), now - Duration::from_nanos(20));
//! assert_eq!(relhu::parse_with_instant("- 5 days", now).unwrap(), now - Duration::from_secs(5 * 60 * 60 * 24));
//! ```
//!
//! # What is read
//!
//! A span is one or more terms, and a term is a whole number and a unit:
//! `1h30m`, `500ms 50us`. Whitespace may stand in front of a number and
//! between a number and its unit, and nowhere else. The units go from
//! nanoseconds to days; each has several spellings, all in lower case. A
//! relative expression is a span with a direction, given once: by `+` or `-`
//! in front, or by `later` or `ago` behind.
//!
//! Numbers are read exactly, however many digits they have. A span may be as
//! long as a [`Duration`] can be; a longer one is refused, or, where an
//! [`Instant`] is asked for, leads to no instant.
//!
//! # What is proved
//!
//! What a text means is defined once, in [`duration::decode_span`] and
//! [`instant::decode_relative`], and every function here is proved to return
//! just that, without panicking. Module [`laws`] holds what follows for all
//! inputs. Module [`time`] lists what is taken on trust of `std::time`.

pub mod duration;
pub mod error;
pub mod instant;
pub mod laws;
pub mod lemmas;
pub mod parser;
pub mod spellings;
pub mod time;
pub mod units;

pub use error::Error;

use duration::{decode_span, span_to_duration, within_range};
use instant::{decode_relative, moved, shift, RelativeType};
use std::time::{Duration, Instant};
use vstd::prelude::*;
use vstd::string::StringSliceAdditionalSpecFns;

verus! {

/// Parse `input` as a [`Duration`].
///
/// The duration is the sum of the terms of `input`. Input that is empty or
/// that is not term after term to its end is refused with the error of
/// [`decode_span`]; input whose terms sum to more than a `Duration` holds is
/// refused with [`Error::InvalidNumber`].
///
/// # Examples
/// ```rust
/// use std::time::{Duration, Instant};
///
/// assert_eq!(relhu::parse_duration("5s").unwrap(), Duration::from_secs(5));
/// assert_eq!(relhu::parse_duration("100 us").unwrap(), Duration::from_micros(100));
/// ```
pub fn parse_duration(input: &str) -> (result: Result<Duration, Error>)
    ensures
        result == span_to_duration(decode_span(input.spec_bytes())),
{
    duration::parse(input.as_bytes())
}

/// Decodes `input` as a span of time with a direction. The span is returned
/// as [`within_range`] gives it.
fn get_input_and_rel(input: &str) -> (result: Result<(Option<u128>, RelativeType), Error>)
    ensures
        result == match decode_relative(input.spec_bytes()) {
            Ok((nanos, direction)) => Ok::<(Option<u128>, RelativeType), Error>(
                (within_range(nanos), direction),
            ),
            Err(error) => Err(error),
        },
{
    let input = input.as_bytes();
    let possible_relative_type = instant::parse_relative_prefix(input);

    instant::parse(input, possible_relative_type)
}

/// Parse `input` as an [`Instant`], based on a provided [`Instant`].
///
/// The instant lies as far from `now` as `input` says, in the direction it
/// says. The caller sees to it that there is such an instant; where that is
/// not known, [`checked_parse_with_instant`] finds out.
///
/// # Examples
///
/// ```rust
/// use std::time::{Duration, Instant};
///
/// let now = Instant::now();
/// assert_eq!(relhu::parse_with_instant("+55ms", now).unwrap(), now + Duration::from_millis(55));
/// assert_eq!(relhu::parse_with_instant("20ns ago", now).unwrap(), now - Duration::from_nanos(20));
/// ```
pub fn parse_with_instant(input: &str, now: Instant) -> (result: Result<Instant, Error>)
    requires
        decode_relative(input.spec_bytes()) matches Ok((nanos, direction)) ==> moved(
            now,
            nanos,
            direction,
        ) is Some,
    ensures
        result == match decode_relative(input.spec_bytes()) {
            Ok((nanos, direction)) => Ok::<Instant, Error>(moved(now, nanos, direction)->0),
            Err(error) => Err(error),
        },
{
    let (span, relative_type) = match get_input_and_rel(input) {
        Ok(decoded) => decoded,
        Err(error) => {
            return Err(error);
        },
    };

    Ok(shift(now, span, relative_type).unwrap())
}

/// Parse `input` as an [`Instant`].
///
/// The instant lies as far from the current moment as `input` says, in the
/// direction it says. The caller sees to it that there is such an instant,
/// whatever the current moment is; where that is not known,
/// [`checked_parse_instant`] finds out.
///
/// # Examples
///
/// ```rust
/// use std::time::{Duration, Instant};
///
/// relhu::parse_instant("+55ms").unwrap();
/// ```
pub fn parse_instant(input: &str) -> (result: Result<Instant, Error>)
    requires
        decode_relative(input.spec_bytes()) matches Ok((nanos, direction)) ==> forall|now: Instant|
            (#[trigger] moved(now, nanos, direction)) is Some,
    ensures
        match decode_relative(input.spec_bytes()) {
            Ok((nanos, direction)) => exists|now: Instant|
                result == Ok::<Instant, Error>((#[trigger] moved(now, nanos, direction))->0),
            Err(error) => result == Err::<Instant, Error>(error),
        },
{
    parse_with_instant(input, Instant::now())
}

/// Parse `input` as an [`Instant`], based on a provided [`Instant`]. If the input will result in overflow,
/// it will return `None`.
///
/// # Examples
///
/// ```rust
/// use std::time::{Duration, Instant};
///
/// let now = Instant::now();
/// assert_eq!(relhu::checked_parse_with_instant("+55ms", now).unwrap().unwrap(), now + Duration::from_millis(55));
/// assert_eq!(relhu::checked_parse_with_instant("20ns ago", now).unwrap().unwrap(), now - Duration::from_nanos(20));
/// ```
pub fn checked_parse_with_instant(input: &str, now: Instant) -> (result: Result<
    Option<Instant>,
    Error,
>)
    ensures
        result == match decode_relative(input.spec_bytes()) {
            Ok((nanos, direction)) => Ok::<Option<Instant>, Error>(moved(now, nanos, direction)),
            Err(error) => Err(error),
        },
{
    let (span, relative_type) = match get_input_and_rel(input) {
        Ok(decoded) => decoded,
        Err(error) => {
            return Err(error);
        },
    };

    Ok(shift(now, span, relative_type))
}

/// Parse `input` as an [`Instant`]. If the input will result in overflow, it will return `None`.
///
/// # Examples
///
/// ```rust
/// use std::time::{Duration, Instant};
///
/// relhu::checked_parse_instant("+55ms").unwrap();
/// ```
pub fn checked_parse_instant(input: &str) -> (result: Result<Option<Instant>, Error>)
    ensures
        match decode_relative(input.spec_bytes()) {
            Ok((nanos, direction)) => exists|now: Instant|
                result == Ok::<Option<Instant>, Error>(#[trigger] moved(now, nanos, direction)),
            Err(error) => result == Err::<Option<Instant>, Error>(error),
        },
{
    checked_parse_with_instant(input, Instant::now())
}

} // verus!
