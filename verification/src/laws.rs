//! What holds of the decoders on every input, proved from their model.

use crate::duration::{
    decimal, decode_span, is_digit, is_space, lemma_digits, lemma_term_length, span_sum, term_at,
};
use crate::error::Error;
use crate::instant::{decode_relative, direction_word, relative_sum, sign_at, RelativeType};
use crate::lemmas::{
    all_digits, all_spaces, follows_term, lemma_digits_then, lemma_direction_words,
    lemma_relative_append, lemma_span_append, lemma_span_begins, lemma_spaces_then,
    lemma_term_begins, lemma_term_then,
};
use crate::units::{spelled, unit_at};
use vstd::prelude::*;
use vstd::string::StringSliceAdditionalSpecFns;

verus! {

/// Every term counts, and counts for its number times its unit: a span is
/// the sum of its terms. `before` and `after` are the terms in front of the
/// term and behind it, if any; `lead` and `gap` are the whitespace in front
/// of its number and in front of its unit.
pub proof fn law_every_term_counts(
    before: Seq<u8>,
    lead: Seq<u8>,
    numeral: Seq<u8>,
    gap: Seq<u8>,
    word: Seq<u8>,
    after: Seq<u8>,
)
    requires
        span_sum(before) is Ok,
        all_spaces(lead),
        numeral.len() > 0,
        all_digits(numeral),
        all_spaces(gap),
        spelled(word) is Some,
        span_sum(after) is Ok,
    ensures
        decode_span(before + (lead + numeral + gap + word + after)) == Ok::<nat, Error>(
            span_sum(before)->Ok_0 + decimal(numeral) * (spelled(word)->0).nanos() + span_sum(
                after,
            )->Ok_0,
        ),
{
    lemma_span_begins(after);
    lemma_term_then(lead, numeral, gap, word, after);
    lemma_span_append(before, lead + numeral + gap + word + after);
}

/// A number with a unit is worth the number times the unit, however the
/// unit is spelled: `5s`, `5sec` and `5seconds` are one span.
pub proof fn law_spellings_agree(numeral: Seq<u8>, word: Seq<u8>, other: Seq<u8>)
    requires
        numeral.len() > 0,
        all_digits(numeral),
        spelled(word) is Some,
        spelled(other) == spelled(word),
    ensures
        decode_span(numeral + word) == Ok::<nat, Error>(
            decimal(numeral) * (spelled(word)->0).nanos(),
        ),
        decode_span(numeral + other) == decode_span(numeral + word),
{
    let none = Seq::<u8>::empty();
    lemma_term_then(none, numeral, none, word, none);
    assert(span_sum(none) == Ok::<nat, Error>(0));
    lemma_term_then(none, numeral, none, other, none);
}

/// Two spans written one behind the other are the sum of the two: `1h30m`
/// is `1h` and `30m`.
pub proof fn law_concatenation_adds(first: Seq<u8>, second: Seq<u8>)
    requires
        decode_span(first) is Ok,
        decode_span(second) is Ok,
    ensures
        decode_span(first + second) == Ok::<nat, Error>(
            decode_span(first)->Ok_0 + decode_span(second)->Ok_0,
        ),
{
    lemma_span_begins(second);
    lemma_span_append(first, second);
}

/// Whitespace in front of a term, and between its number and its unit,
/// changes nothing: `5s`, `5 s` and `  5   s` are read alike, wherever in
/// the text the term stands. `before` is the terms in front of it, if any;
/// `after` is the rest of the text, which may be anything that can follow a
/// term.
pub proof fn law_whitespace_ignored(
    before: Seq<u8>,
    lead: Seq<u8>,
    numeral: Seq<u8>,
    gap: Seq<u8>,
    word: Seq<u8>,
    after: Seq<u8>,
)
    requires
        span_sum(before) is Ok,
        all_spaces(lead),
        numeral.len() > 0,
        all_digits(numeral),
        all_spaces(gap),
        spelled(word) is Some,
        follows_term(after),
    ensures
        decode_span(before + (lead + numeral + gap + word + after)) == decode_span(
            before + (numeral + word + after),
        ),
{
    let none = Seq::<u8>::empty();
    let spaced = lead + numeral + gap + word + after;
    let dense = numeral + word + after;
    lemma_term_then(lead, numeral, gap, word, after);
    lemma_term_then(none, numeral, none, word, after);
    lemma_span_append(before, spaced);
    lemma_span_append(before, dense);
}

/// Text in which no digit stands where a term should begin is refused for
/// its number: `abc`, and `5s x` too. `before` is the terms in front of that
/// place, if any, and `lead` the whitespace that leads up to it.
pub proof fn law_number_required(before: Seq<u8>, lead: Seq<u8>, rest: Seq<u8>)
    requires
        span_sum(before) is Ok,
        all_spaces(lead),
        rest.len() == 0 || !(is_digit(rest[0]) || is_space(rest[0])),
        lead.len() + rest.len() > 0,
        before.len() > 0 ==> lead.len() > 0,
    ensures
        decode_span(before + (lead + rest)) == Err::<nat, Error>(Error::InvalidNumber),
{
    let text = lead + rest;
    lemma_spaces_then(lead, rest);
    lemma_digits(rest);
    if before.len() > 0 {
        lemma_span_append(before, text);
    }
}

/// A number that no unit follows is refused for its unit: `5x`. `before`
/// is the terms in front of the number, if any; `rest` is what follows the
/// number and the whitespace behind it.
pub proof fn law_unit_required(
    before: Seq<u8>,
    lead: Seq<u8>,
    numeral: Seq<u8>,
    gap: Seq<u8>,
    rest: Seq<u8>,
)
    requires
        span_sum(before) is Ok,
        all_spaces(lead),
        numeral.len() > 0,
        all_digits(numeral),
        all_spaces(gap),
        unit_at(rest) is None,
        rest.len() == 0 || !is_space(rest[0]),
        gap.len() == 0 ==> rest.len() == 0 || !is_digit(rest[0]),
    ensures
        decode_span(before + (lead + numeral + gap + rest)) == Err::<nat, Error>(
            Error::InvalidUnit,
        ),
{
    let text = lead + numeral + gap + rest;
    let from_number = numeral + gap + rest;
    let from_gap = gap + rest;
    assert(text =~= lead + from_number);
    assert(from_number =~= numeral + from_gap);
    lemma_spaces_then(lead, from_number);
    assert(text.skip(lead.len() as int) =~= from_number);
    lemma_digits_then(numeral, from_gap);
    assert(from_number.skip(numeral.len() as int) =~= from_gap);
    lemma_spaces_then(gap, rest);
    assert(from_gap.skip(gap.len() as int) =~= rest);
    lemma_span_append(before, text);
}

/// Without terms and without a direction there is nothing to decode: empty
/// text is refused as such by both decoders.
pub proof fn law_empty_refused()
    ensures
        decode_span(Seq::<u8>::empty()) == Err::<nat, Error>(Error::EmptyDurationInput),
        decode_relative(Seq::<u8>::empty()) == Err::<(nat, RelativeType), Error>(
            Error::EmptyDurationInput,
        ),
{
}

/// A span alone is no relative expression: text that the span decoder
/// accepts says nothing of a direction, and the relative decoder refuses it
/// for that.
pub proof fn law_direction_required(text: Seq<u8>)
    requires
        decode_span(text) is Ok,
    ensures
        decode_relative(text) == Err::<(nat, RelativeType), Error>(Error::EmptyRelativeInput),
{
    lemma_term_begins(text);
    lemma_undirected(text, true);
}

/// Terms to the end of the text leave the direction open.
proof fn lemma_undirected(text: Seq<u8>, at_start: bool)
    requires
        span_sum(text) is Ok,
    ensures
        relative_sum(text, None, at_start) == Err::<(nat, RelativeType), Error>(
            Error::EmptyRelativeInput,
        ),
    decreases text.len(),
{
    if text.len() > 0 {
        lemma_term_length(text);
        lemma_undirected(text.skip((term_at(text)->Ok_0).1 as int), false);
    }
}

/// A sign in front of a span gives the span its direction: `+` the future,
/// `-` the past.
pub proof fn law_sign_directs(text: Seq<u8>)
    requires
        decode_span(text) is Ok,
    ensures
        decode_relative(seq![0x2bu8] + text) == Ok::<(nat, RelativeType), Error>(
            (decode_span(text)->Ok_0, RelativeType::Add),
        ),
        decode_relative(seq![0x2du8] + text) == Ok::<(nat, RelativeType), Error>(
            (decode_span(text)->Ok_0, RelativeType::Subtract),
        ),
{
    let none = Seq::<u8>::empty();
    let plus = seq![0x2bu8] + text;
    let minus = seq![0x2du8] + text;
    assert(plus.skip(1) =~= text);
    assert(minus.skip(1) =~= text);
    lemma_relative_append(text, none, Some(RelativeType::Add), false);
    lemma_relative_append(text, none, Some(RelativeType::Subtract), false);
}

/// A direction word behind a span gives the span its direction: `later`
/// the future, as `+` does, and `ago` the past, as `-` does. Whitespace may
/// stand between the span and the word, and need not.
pub proof fn law_word_directs(text: Seq<u8>, gap: Seq<u8>)
    requires
        decode_span(text) is Ok,
        all_spaces(gap),
    ensures
        decode_relative(text + gap + "later".spec_bytes()) == Ok::<(nat, RelativeType), Error>(
            (decode_span(text)->Ok_0, RelativeType::Add),
        ),
        decode_relative(text + gap + "ago".spec_bytes()) == Ok::<(nat, RelativeType), Error>(
            (decode_span(text)->Ok_0, RelativeType::Subtract),
        ),
{
    lemma_direction_words();
    lemma_word_read(text, gap, "later".spec_bytes(), None);
    lemma_word_read(text, gap, "ago".spec_bytes(), None);
}

/// A direction is given once: a direction word behind a span that has a
/// sign in front of it is one direction too many, `+5h ago`.
pub proof fn law_one_direction(sign: u8, text: Seq<u8>, gap: Seq<u8>, word: Seq<u8>)
    requires
        sign == 0x2b || sign == 0x2d,
        span_sum(text) is Ok,
        all_spaces(gap),
        direction_word(word) is Ok,
    ensures
        decode_relative(seq![sign] + (text + gap + word)) == Err::<(nat, RelativeType), Error>(
            Error::MultipleRelativeTypes,
        ),
{
    let whole = seq![sign] + (text + gap + word);
    let direction = if sign == 0x2b {
        RelativeType::Add
    } else {
        RelativeType::Subtract
    };
    assert(whole.skip(1) =~= text + gap + word);
    if text.len() == 0 {
        lemma_direction_words();
        lemma_spaces_then(gap, word);
        lemma_digits(word);
    } else {
        lemma_word_read(text, gap, word, Some(direction));
    }
}

/// How the relative decoder reads a direction word behind terms.
proof fn lemma_word_read(text: Seq<u8>, gap: Seq<u8>, word: Seq<u8>, sign: Option<RelativeType>)
    requires
        span_sum(text) is Ok,
        text.len() > 0,
        all_spaces(gap),
        direction_word(word) is Ok,
    ensures
        sign_at(text + gap + word) is None,
        relative_sum(text + gap + word, sign, sign is None) == match sign {
            Some(_) => Err::<(nat, RelativeType), Error>(Error::MultipleRelativeTypes),
            None => Ok((span_sum(text)->Ok_0, direction_word(word)->Ok_0)),
        },
{
    let tail = gap + word;
    lemma_direction_words();
    lemma_term_begins(text);
    assert(text + gap + word =~= text + tail);
    lemma_spaces_then(gap, word);
    assert(tail.skip(gap.len() as int) =~= word);
    lemma_digits(word);
    lemma_relative_append(text, tail, sign, sign is None);
}

} // verus!
