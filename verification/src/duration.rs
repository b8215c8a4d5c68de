//! The span decoder: text such as `1h30m` or `500ms 50us` to a span of time.
//!
//! A span is written as one or more terms. A term is a decimal number and a
//! unit, with optional ASCII whitespace before the number and between the
//! number and the unit. The span is the sum of its terms.
//!
//! The first half of this module says what text means: [`decode_span`] and
//! what it is made of. The second half reads text, and is proved to read it
//! so.

use crate::error::Error;
use crate::time::{duration_from_nanos, to_duration, MAX_NANOS};
use crate::units::{lemma_unit_at, parse_unit, unit_at, Unit};
use std::time::Duration;
use vstd::prelude::*;

verus! {

/// Whether `byte` is ASCII whitespace: space, tab, line feed, form feed or
/// carriage return.
pub open spec fn is_space(byte: u8) -> bool {
    byte == 0x20 || byte == 0x09 || byte == 0x0a || byte == 0x0c || byte == 0x0d
}

/// Whether `byte` is an ASCII decimal digit.
pub open spec fn is_digit(byte: u8) -> bool {
    0x30 <= byte <= 0x39
}

/// How many bytes of whitespace `text` begins with.
pub open spec fn spaces(text: Seq<u8>) -> nat
    decreases text.len(),
{
    if text.len() > 0 && is_space(text[0]) {
        1 + spaces(text.skip(1))
    } else {
        0
    }
}

/// How many decimal digits `text` begins with.
pub open spec fn digits(text: Seq<u8>) -> nat
    decreases text.len(),
{
    if text.len() > 0 && is_digit(text[0]) {
        1 + digits(text.skip(1))
    } else {
        0
    }
}

/// The number that a sequence of decimal digits denotes, most significant
/// digit first. The empty sequence denotes zero.
pub open spec fn decimal(numeral: Seq<u8>) -> nat
    decreases numeral.len(),
{
    if numeral.len() == 0 {
        0
    } else {
        decimal(numeral.drop_last()) * 10 + (numeral.last() - 0x30) as nat
    }
}

/// The term that `text` begins with: what it is worth in nanoseconds, and
/// how many bytes it takes up.
///
/// A term is optional whitespace, a decimal number, optional whitespace and
/// the spelling of a unit. Text with no digit where the number should begin
/// has no term ([`Error::InvalidNumber`]), nor has text in which no unit
/// follows the number ([`Error::InvalidUnit`]).
pub open spec fn term_at(text: Seq<u8>) -> Result<(nat, nat), Error> {
    let lead = spaces(text);
    let number = text.skip(lead as int);
    let count = digits(number);
    let after = number.skip(count as int);
    let gap = spaces(after);
    if count == 0 {
        Err(Error::InvalidNumber)
    } else {
        match unit_at(after.skip(gap as int)) {
            Some((unit, length)) => Ok(
                (decimal(number.take(count as int)) * unit.nanos(), lead + count + gap + length),
            ),
            None => Err(Error::InvalidUnit),
        }
    }
}

/// The sum of the terms that make up `text`, in nanoseconds. Empty text has
/// no terms and sums to zero; text that is not term after term to its end
/// has the error of the first place where no term is found.
pub open spec fn span_sum(text: Seq<u8>) -> Result<nat, Error>
    decreases text.len(),
    via span_sum_decreases
{
    if text.len() == 0 {
        Ok(0)
    } else {
        match term_at(text) {
            Ok((nanos, length)) => match span_sum(text.skip(length as int)) {
                Ok(rest) => Ok(nanos + rest),
                Err(error) => Err(error),
            },
            Err(error) => Err(error),
        }
    }
}

#[via_fn]
proof fn span_sum_decreases(text: Seq<u8>) {
    lemma_term_length(text);
}

/// The span that `text` denotes, in nanoseconds: the sum of its terms, of
/// which there is at least one.
pub open spec fn decode_span(text: Seq<u8>) -> Result<nat, Error> {
    if text.len() == 0 {
        Err(Error::EmptyDurationInput)
    } else {
        span_sum(text)
    }
}

/// A number of nanoseconds as the decoders carry it: itself while a
/// `Duration` can hold it, `None` once it is beyond that.
pub open spec fn within_range(nanos: nat) -> Option<u128> {
    if nanos <= MAX_NANOS {
        Some(nanos as u128)
    } else {
        None
    }
}

/// A decoded span as a `Duration`. A span that is more than a `Duration`
/// holds is no valid number of anything: [`Error::InvalidNumber`].
pub open spec fn span_to_duration(span: Result<nat, Error>) -> Result<Duration, Error> {
    match span {
        Ok(nanos) => if nanos <= MAX_NANOS {
            Ok(to_duration(nanos))
        } else {
            Err(Error::InvalidNumber)
        },
        Err(error) => Err(error),
    }
}

/// The whitespace that `text` begins with lies within it: every byte of it
/// is whitespace, and the byte after it, if there is one, is not.
pub proof fn lemma_spaces(text: Seq<u8>)
    ensures
        spaces(text) <= text.len(),
        forall|i: int| 0 <= i < spaces(text) ==> is_space(#[trigger] text[i]),
        spaces(text) < text.len() ==> !is_space(text[spaces(text) as int]),
    decreases text.len(),
{
    if text.len() > 0 && is_space(text[0]) {
        lemma_spaces(text.skip(1));
        assert forall|i: int| 0 <= i < spaces(text) implies is_space(#[trigger] text[i]) by {
            if i > 0 {
                assert(text[i] == text.skip(1)[i - 1]);
            }
        }
    }
}

/// The digits that `text` begins with lie within it: every byte of them is
/// a digit, and the byte after them, if there is one, is not.
pub proof fn lemma_digits(text: Seq<u8>)
    ensures
        digits(text) <= text.len(),
        forall|i: int| 0 <= i < digits(text) ==> is_digit(#[trigger] text[i]),
        digits(text) < text.len() ==> !is_digit(text[digits(text) as int]),
    decreases text.len(),
{
    if text.len() > 0 && is_digit(text[0]) {
        lemma_digits(text.skip(1));
        assert forall|i: int| 0 <= i < digits(text) implies is_digit(#[trigger] text[i]) by {
            if i > 0 {
                assert(text[i] == text.skip(1)[i - 1]);
            }
        }
    }
}

/// A term is at least two bytes long, a digit and a unit, and lies within
/// the text.
pub proof fn lemma_term_length(text: Seq<u8>)
    ensures
        term_at(text) matches Ok((_, length)) ==> 2 <= length <= text.len(),
{
    let lead = spaces(text);
    lemma_spaces(text);
    let number = text.skip(lead as int);
    let count = digits(number);
    lemma_digits(number);
    let after = number.skip(count as int);
    let gap = spaces(after);
    lemma_spaces(after);
    lemma_unit_at(after.skip(gap as int));
}

/// A count that is out of range is out of range in every unit.
pub proof fn lemma_scaled_beyond(count: nat, unit: Unit)
    requires
        within_range(count) is None,
    ensures
        within_range(count * unit.nanos()) is None,
{
    let nanos = unit.nanos();
    assert(count * nanos >= count) by (nonlinear_arith)
        requires
            nanos >= 1,
            count >= 0,
    ;
}

/// Whether `byte` is ASCII whitespace.
pub fn is_whitespace(byte: u8) -> (yes: bool)
    ensures
        yes == is_space(byte),
{
    byte == 0x20 || byte == 0x09 || byte == 0x0a || byte == 0x0c || byte == 0x0d
}

/// Whether `byte` is an ASCII decimal digit.
pub fn is_decimal_digit(byte: u8) -> (yes: bool)
    ensures
        yes == is_digit(byte),
{
    0x30 <= byte && byte <= 0x39
}

/// Counts the whitespace that `input` begins with.
pub fn eat_spaces(input: &[u8]) -> (length: usize)
    ensures
        length == spaces(input@),
{
    let mut length: usize = 0;

    assert(input@.skip(0) =~= input@);
    while length < input.len() && is_whitespace(input[length])
        invariant
            length <= input.len(),
            spaces(input@) == length + spaces(input@.skip(length as int)),
        decreases input.len() - length,
    {
        proof {
            let rest = input@.skip(length as int);
            assert(rest.skip(1) =~= input@.skip(length + 1));
        }
        length += 1;
    }

    length
}

/// Reads the decimal number that `input` begins with.
///
/// Returns the number and how many digits it has. The number is `None` when
/// it is more nanoseconds than a `Duration` holds: whatever its unit, a term
/// with such a count is out of range. Text that does not begin with a digit
/// is refused with [`Error::InvalidNumber`].
pub fn parse_number(input: &[u8]) -> (result: Result<(Option<u128>, usize), Error>)
    ensures
        match result {
            Ok((number, length)) => {
                &&& length == digits(input@)
                &&& length > 0
                &&& number == within_range(decimal(input@.take(length as int)))
            },
            Err(error) => error == Error::InvalidNumber && digits(input@) == 0,
        },
{
    let mut number: Option<u128> = Some(0);
    let mut length: usize = 0;

    assert(input@.skip(0) =~= input@);
    while length < input.len() && is_decimal_digit(input[length])
        invariant
            length <= input.len(),
            digits(input@) == length + digits(input@.skip(length as int)),
            number == within_range(decimal(input@.take(length as int))),
        decreases input.len() - length,
    {
        let digit: u128 = (input[length] - 0x30) as u128;
        proof {
            let rest = input@.skip(length as int);
            assert(rest.skip(1) =~= input@.skip(length + 1));
            let longer = input@.take(length + 1);
            assert(longer.drop_last() =~= input@.take(length as int));
        }
        number = match number {
            Some(value) => {
                let next: u128 = value * 10 + digit;
                if next <= MAX_NANOS {
                    Some(next)
                } else {
                    None
                }
            },
            None => None,
        };
        length += 1;
    }

    if length == 0 {
        Err(Error::InvalidNumber)
    } else {
        Ok((number, length))
    }
}

/// The part of `input` from `start` on, which is nothing where `start` is
/// behind the end.
pub fn remaining(input: &[u8], start: usize) -> (rest: &[u8])
    ensures
        rest@ == if start <= input@.len() {
            input@.skip(start as int)
        } else {
            Seq::<u8>::empty()
        },
{
    if start < input.len() {
        &input[start..input.len()]
    } else {
        &input[input.len()..input.len()]
    }
}

/// `count` times `unit`, in nanoseconds.
///
/// The count is carried as [`within_range`] gives it, and so is the
/// product: `None` as soon as it is more than a `Duration` holds.
pub fn scaled(count: Option<u128>, unit: &Unit) -> (nanos: Option<u128>)
    ensures
        nanos == match count {
            Some(count) => within_range(count as nat * unit.nanos()),
            None => None,
        },
{
    match count {
        Some(count) => {
            let factor = unit.factor();
            if count > MAX_NANOS / factor {
                assert(count * factor > MAX_NANOS) by (nonlinear_arith)
                    requires
                        factor > 0,
                        count > MAX_NANOS / factor,
                ;
                None
            } else {
                assert(count * factor <= MAX_NANOS) by (nonlinear_arith)
                    requires
                        factor > 0,
                        count <= MAX_NANOS / factor,
                ;
                Some(count * factor)
            }
        },
        None => None,
    }
}

/// The sum of two spans, each carried as [`within_range`] gives it, and
/// carried so itself.
pub fn plus(span: Option<u128>, more: Option<u128>) -> (sum: Option<u128>)
    ensures
        sum == match (span, more) {
            (Some(span), Some(more)) => within_range((span + more) as nat),
            _ => None,
        },
{
    match (span, more) {
        (Some(span), Some(more)) => {
            if span > MAX_NANOS || more > MAX_NANOS - span {
                None
            } else {
                Some(span + more)
            }
        },
        _ => None,
    }
}

/// Reads the term that `input` begins with.
///
/// Returns what the term is worth in nanoseconds, as [`within_range`] gives
/// it, and how many bytes the term takes up. Where `input` begins with no
/// term, the error is that of [`term_at`].
pub fn parse_term(input: &[u8]) -> (result: Result<(Option<u128>, usize), Error>)
    ensures
        match result {
            Ok((nanos, length)) => {
                &&& term_at(input@) matches Ok((worth, taken))
                &&& nanos == within_range(worth)
                &&& length == taken
            },
            Err(error) => term_at(input@) == Err::<(nat, nat), Error>(error),
        },
{
    let ghost lead = spaces(input@);
    let ghost number = input@.skip(lead as int);
    let ghost count = digits(number);
    let ghost after = number.skip(count as int);
    let ghost gap = spaces(after);
    proof {
        lemma_spaces(input@);
        lemma_digits(number);
        lemma_spaces(after);
        lemma_unit_at(after.skip(gap as int));
        assert(input@.len() == input.len());
        assert(after =~= input@.skip((lead + count) as int));
        assert(after.skip(gap as int) =~= input@.skip((lead + count + gap) as int));
    }
    let mut current: usize = eat_spaces(input);

    let (value, value_length) = match parse_number(remaining(input, current)) {
        Ok(number) => number,
        Err(error) => {
            return Err(error);
        },
    };
    current += value_length;

    current += eat_spaces(remaining(input, current));

    let (unit, unit_length) = match parse_unit(remaining(input, current)) {
        Ok(unit) => unit,
        Err(error) => {
            return Err(error);
        },
    };
    current += unit_length;

    proof {
        if value is None {
            lemma_scaled_beyond(decimal(number.take(count as int)), unit);
        }
    }
    Ok((scaled(value, &unit), current))
}

/// Decodes `input` as a span of time.
///
/// The result is the sum of the terms of `input`, as a `Duration`. Input
/// that is empty, or that is not term after term to its end, is refused with
/// the error of [`decode_span`]. Input whose terms sum to more than a
/// `Duration` holds is refused with [`Error::InvalidNumber`].
pub fn parse(input: &[u8]) -> (result: Result<Duration, Error>)
    ensures
        result == span_to_duration(decode_span(input@)),
{
    if input.len() == 0 {
        return Err(Error::EmptyDurationInput);
    }
    let mut total: Option<u128> = Some(0);
    let mut current: usize = 0;
    let ghost mut sum_so_far: nat = 0;

    assert(input@.skip(0) =~= input@);
    while current < input.len()
        invariant
            current <= input.len(),
            total == within_range(sum_so_far),
            span_sum(input@) == match span_sum(input@.skip(current as int)) {
                Ok(rest) => Ok::<nat, Error>(sum_so_far + rest),
                Err(error) => Err(error),
            },
        decreases input.len() - current,
    {
        let ghost text = input@.skip(current as int);
        let (nanos, length) = match parse_term(remaining(input, current)) {
            Ok(term) => term,
            Err(error) => {
                return Err(error);
            },
        };
        proof {
            lemma_term_length(text);
            assert(input@.skip(current + length) =~= text.skip(length as int));
            sum_so_far = sum_so_far + term_at(text)->Ok_0.0;
        }
        total = plus(total, nanos);
        current += length;
    }

    match total {
        Some(nanos) => Ok(duration_from_nanos(nanos)),
        None => Err(Error::InvalidNumber),
    }
}

} // verus!
