//! The relative decoder: text such as `+55ms` or `20ns ago` to a span of
//! time and the direction in which it is meant.
//!
//! A relative expression is a span with a direction. The direction is given
//! once: by a `+` or `-` in front of the span, or by the word `later` or
//! `ago` behind it.

use crate::duration::{
    digits, eat_spaces, lemma_spaces, lemma_term_length, parse_term, plus, remaining, spaces,
    term_at, within_range,
};
use crate::error::Error;
use crate::time::{
    duration_from_nanos, instant_checked_add, instant_checked_sub, to_duration, MAX_NANOS,
};
use crate::units::same;
use std::time::Instant;
use vstd::prelude::*;
use vstd::string::StringSliceAdditionalSpecFns;

verus! {

/// The direction in which a span is meant, seen from a point in time.
#[derive(Debug, Clone, Copy, PartialEq, Eq)]
pub enum RelativeType {
    /// Into the past.
    Subtract,
    /// Into the future.
    Add,
}

/// The direction that a sign at the beginning of `text` gives: `+` for the
/// future, `-` for the past.
pub open spec fn sign_at(text: Seq<u8>) -> Option<RelativeType> {
    if text.len() > 0 && text[0] == 0x2b {
        Some(RelativeType::Add)
    } else if text.len() > 0 && text[0] == 0x2d {
        Some(RelativeType::Subtract)
    } else {
        None
    }
}

/// The direction that `word` names: `later` for the future, `ago` for the
/// past. The word is all there is: nothing may follow it.
pub open spec fn direction_word(word: Seq<u8>) -> Result<RelativeType, Error> {
    if word.len() == 0 {
        Err(Error::EmptyRelativeInput)
    } else if word == "later".spec_bytes() {
        Ok(RelativeType::Add)
    } else if word == "ago".spec_bytes() {
        Ok(RelativeType::Subtract)
    } else {
        Err(Error::InvalidRelativeType)
    }
}

/// The span and the direction that `text` denotes, where `text` is what
/// follows the sign, if there was one.
///
/// `sign` is the direction that a sign gave. `at_start` says that `text` is
/// the whole input, with nothing read of it so far.
///
/// The terms are summed as far as they go. Where they end before the text
/// does, what is left must be a direction word, after optional whitespace:
/// - with nothing read so far and no whitespace either, there is no span at
///   all: [`Error::InvalidNumber`];
/// - after a sign, a second direction is one too many:
///   [`Error::MultipleRelativeTypes`];
/// - otherwise the word gives the direction, or its own error.
/// Where the terms go to the end of the text, the direction is that of the
/// sign, and without a sign there is none: [`Error::EmptyRelativeInput`].
pub open spec fn relative_sum(text: Seq<u8>, sign: Option<RelativeType>, at_start: bool) -> Result<
    (nat, RelativeType),
    Error,
>
    decreases text.len(),
    via relative_sum_decreases
{
    let lead = spaces(text);
    let word = text.skip(lead as int);
    if text.len() == 0 {
        match sign {
            Some(direction) => Ok((0, direction)),
            None => Err(Error::EmptyRelativeInput),
        }
    } else if digits(word) == 0 {
        if at_start && lead == 0 {
            Err(Error::InvalidNumber)
        } else if sign is Some {
            Err(Error::MultipleRelativeTypes)
        } else {
            match direction_word(word) {
                Ok(direction) => Ok((0, direction)),
                Err(error) => Err(error),
            }
        }
    } else {
        match term_at(text) {
            Ok((nanos, length)) => match relative_sum(text.skip(length as int), sign, false) {
                Ok((rest, direction)) => Ok((nanos + rest, direction)),
                Err(error) => Err(error),
            },
            Err(error) => Err(error),
        }
    }
}

#[via_fn]
proof fn relative_sum_decreases(text: Seq<u8>, sign: Option<RelativeType>, at_start: bool) {
    lemma_term_length(text);
}

/// The span and the direction that `text` denotes, where a sign has been
/// looked for already: `sign` is its direction and the place where the span
/// begins.
pub open spec fn relative_from(text: Seq<u8>, sign: Option<(RelativeType, usize)>) -> Result<
    (nat, RelativeType),
    Error,
> {
    if text.len() == 0 {
        Err(Error::EmptyDurationInput)
    } else {
        match sign {
            Some((direction, start)) => if start >= text.len() {
                Ok((0, direction))
            } else {
                relative_sum(text.skip(start as int), Some(direction), start == 0)
            },
            None => relative_sum(text, None, true),
        }
    }
}

/// The direction that a sign gave, without the place where the span begins.
pub open spec fn direction_of(sign: Option<(RelativeType, usize)>) -> Option<RelativeType> {
    match sign {
        Some((direction, _)) => Some(direction),
        None => None,
    }
}

/// The sign at the beginning of `text`, as [`relative_from`] takes it: its
/// direction, and 1 for the place after it.
pub open spec fn sign_of(text: Seq<u8>) -> Option<(RelativeType, usize)> {
    match sign_at(text) {
        Some(direction) => Some((direction, 1usize)),
        None => None,
    }
}

/// The span, in nanoseconds, and the direction that `text` denotes.
pub open spec fn decode_relative(text: Seq<u8>) -> Result<(nat, RelativeType), Error> {
    relative_from(text, sign_of(text))
}

/// Looks for a sign at the beginning of `input`.
///
/// Returns its direction and its length, which is 1.
pub fn parse_relative_prefix(input: &[u8]) -> (sign: Option<(RelativeType, usize)>)
    ensures
        sign == sign_of(input@),
{
    if input.len() > 0 && input[0] == 0x2b {
        Some((RelativeType::Add, 1))
    } else if input.len() > 0 && input[0] == 0x2d {
        Some((RelativeType::Subtract, 1))
    } else {
        None
    }
}

/// Reads `input` as a direction word.
pub fn parse_relative_suffix(input: &[u8]) -> (direction: Result<RelativeType, Error>)
    ensures
        direction == direction_word(input@),
{
    if input.len() == 0 {
        return Err(Error::EmptyRelativeInput);
    }
    if same(input, "later".as_bytes()) {
        Ok(RelativeType::Add)
    } else if same(input, "ago".as_bytes()) {
        Ok(RelativeType::Subtract)
    } else {
        Err(Error::InvalidRelativeType)
    }
}

/// Decodes `input` as a span of time with a direction.
///
/// `possible_relative_type` is what [`parse_relative_prefix`] found at the
/// beginning of `input`. The span is returned as [`within_range`] gives it:
/// `None` where it is more than a `Duration` holds.
pub fn parse(input: &[u8], possible_relative_type: Option<(RelativeType, usize)>) -> (result:
    Result<(Option<u128>, RelativeType), Error>)
    ensures
        result == match relative_from(input@, possible_relative_type) {
            Ok((nanos, direction)) => Ok::<(Option<u128>, RelativeType), Error>(
                (within_range(nanos), direction),
            ),
            Err(error) => Err(error),
        },
{
    if input.len() == 0 {
        return Err(Error::EmptyDurationInput);
    }
    let mut total: Option<u128> = Some(0);
    let mut current: usize = match &possible_relative_type {
        Some((_, offset)) => *offset,
        None => 0,
    };
    let ghost sign = direction_of(possible_relative_type);
    let ghost mut sum_so_far: nat = 0;

    assert(input@.skip(0) =~= input@);
    while current < input.len()
        invariant
            input.len() > 0,
            sign == direction_of(possible_relative_type),
            total == within_range(sum_so_far),
            current < input.len() ==> relative_from(input@, possible_relative_type)
                == match relative_sum(input@.skip(current as int), sign, current == 0) {
                Ok((rest, direction)) => Ok::<(nat, RelativeType), Error>(
                    (sum_so_far + rest, direction),
                ),
                Err(error) => Err(error),
            },
            current >= input.len() ==> relative_from(input@, possible_relative_type) == match sign {
                Some(direction) => Ok::<(nat, RelativeType), Error>((sum_so_far, direction)),
                None => Err(Error::EmptyRelativeInput),
            },
        decreases input.len() - current,
    {
        let ghost text = input@.skip(current as int);
        let (nanos, length) = match parse_term(remaining(input, current)) {
            Ok(term) => term,
            Err(Error::InvalidUnit) => {
                return Err(Error::InvalidUnit);
            },
            Err(val_err) => {
                proof {
                    lemma_spaces(text);
                    assert(text.skip(spaces(text) as int) =~= input@.skip(current + spaces(text)));
                }
                current += eat_spaces(remaining(input, current));

                // If current is still 0, then return the value error immediately.
                if current == 0 {
                    return Err(val_err);
                }
                // If there is already a relative type, then return an error.
                if possible_relative_type.is_some() {
                    return Err(Error::MultipleRelativeTypes);
                }
                // It must either end with a relative type or it's invalid.
                match parse_relative_suffix(remaining(input, current)) {
                    Ok(rel) => {
                        return Ok((total, rel));
                    },
                    Err(err) => {
                        return Err(err);
                    },
                }
            },
        };
        proof {
            lemma_term_length(text);
            assert(input@.skip(current + length) =~= text.skip(length as int));
            sum_so_far = sum_so_far + term_at(text)->Ok_0.0;
        }
        total = plus(total, nanos);
        current += length;
    }

    let relative_type = match possible_relative_type {
        Some(relative_type) => relative_type.0,
        None => {
            return Err(Error::EmptyRelativeInput);
        },
    };

    Ok((total, relative_type))
}

/// The instant that lies `nanos` nanoseconds from `now` in the given
/// direction, or `None` where there is no such instant: where the span is
/// more than a `Duration` holds, or where `Instant` cannot go that far.
pub open spec fn moved(now: Instant, nanos: nat, direction: RelativeType) -> Option<Instant> {
    if nanos > MAX_NANOS {
        None
    } else {
        match direction {
            RelativeType::Add => instant_checked_add(now, to_duration(nanos)),
            RelativeType::Subtract => instant_checked_sub(now, to_duration(nanos)),
        }
    }
}

/// Moves `now` by `span` nanoseconds in the given direction. A span of
/// `None` is one that is more than a `Duration` holds.
pub fn shift(now: Instant, span: Option<u128>, direction: RelativeType) -> (instant: Option<
    Instant,
>)
    ensures
        instant == match span {
            Some(nanos) => moved(now, nanos as nat, direction),
            None => None,
        },
{
    match span {
        Some(nanos) => {
            if nanos > MAX_NANOS {
                return None;
            }
            let elapsed = duration_from_nanos(nanos);
            match direction {
                RelativeType::Add => now.checked_add(elapsed),
                RelativeType::Subtract => now.checked_sub(elapsed),
            }
        },
        None => None,
    }
}

} // verus!
