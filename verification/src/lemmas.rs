//! Lemmas about the model of the decoders: how runs of whitespace and of
//! digits, spellings and terms behave when text is put together from parts.

use crate::duration::{
    decimal, digits, is_digit, is_space, lemma_digits, lemma_spaces, lemma_term_length, spaces,
    span_sum, term_at,
};
use crate::error::Error;
use crate::instant::{direction_word, relative_sum, RelativeType};
use crate::spellings::{ends_as_spelling, lemma_spelled_ending, lemma_spelled_shape};
use crate::units::{lemma_unit_at, spelled, unit_at, Unit};
use vstd::prelude::*;
use vstd::string::StringSliceAdditionalSpecFns;

verus! {

/// Whether every byte of `text` is whitespace.
pub open spec fn all_spaces(text: Seq<u8>) -> bool {
    forall|i: int| 0 <= i < text.len() ==> is_space(#[trigger] text[i])
}

/// Whether every byte of `text` is a decimal digit.
pub open spec fn all_digits(text: Seq<u8>) -> bool {
    forall|i: int| 0 <= i < text.len() ==> is_digit(#[trigger] text[i])
}

/// Whether `text` can follow a term: it is empty, it begins with
/// whitespace or with a digit, or it is a direction word.
pub open spec fn follows_term(text: Seq<u8>) -> bool {
    text.len() == 0 || is_space(text[0]) || is_digit(text[0]) || direction_word(text) is Ok
}

/// The bytes of the two direction words.
pub proof fn lemma_direction_words()
    ensures
        "ago".spec_bytes() == seq![0x61u8, 0x67u8, 0x6fu8],
        "later".spec_bytes() == seq![0x6cu8, 0x61u8, 0x74u8, 0x65u8, 0x72u8],
{
    reveal_strlit("ago");
    reveal_strlit("later");
    vstd::utf8::is_ascii_chars_encode_utf8("ago"@);
    vstd::utf8::is_ascii_chars_encode_utf8("later"@);
}

/// No spelling goes on into a direction word that stands right behind it:
/// `dago` is `d` and `ago`, and `hlater` is `h` and `later`.
pub proof fn lemma_unit_then_direction(word: Seq<u8>, rest: Seq<u8>, n: int)
    requires
        spelled(word) is Some,
        direction_word(rest) is Ok,
        word.len() < n <= word.len() + rest.len(),
    ensures
        spelled((word + rest).take(n)) is None,
{
    let longer = (word + rest).take(n);
    lemma_direction_words();
    lemma_spelled_shape(word);
    if spelled(longer) is Some {
        lemma_spelled_ending(longer);
        reveal(ends_as_spelling);
    }
}

/// Whitespace in front of text that does not begin with whitespace is the
/// whitespace that the whole begins with.
pub proof fn lemma_spaces_then(blank: Seq<u8>, rest: Seq<u8>)
    requires
        all_spaces(blank),
        rest.len() == 0 || !is_space(rest[0]),
    ensures
        spaces(blank + rest) == blank.len(),
    decreases blank.len(),
{
    if blank.len() > 0 {
        assert((blank + rest).skip(1) =~= blank.skip(1) + rest);
        assert(all_spaces(blank.skip(1)));
        lemma_spaces_then(blank.skip(1), rest);
    }
}

/// Digits in front of text that does not begin with a digit are the digits
/// that the whole begins with.
pub proof fn lemma_digits_then(numeral: Seq<u8>, rest: Seq<u8>)
    requires
        all_digits(numeral),
        rest.len() == 0 || !is_digit(rest[0]),
    ensures
        digits(numeral + rest) == numeral.len(),
    decreases numeral.len(),
{
    if numeral.len() > 0 {
        assert((numeral + rest).skip(1) =~= numeral.skip(1) + rest);
        assert(all_digits(numeral.skip(1)));
        lemma_digits_then(numeral.skip(1), rest);
    }
}

/// The unit of a beginning of `text` that spells one, where no longer
/// beginning does.
pub proof fn lemma_unit_at_is(text: Seq<u8>, unit: Unit, length: nat)
    requires
        1 <= length <= text.len(),
        spelled(text.take(length as int)) == Some(unit),
        forall|n: int| length < n <= text.len() ==> spelled(#[trigger] text.take(n)) is None,
    ensures
        unit_at(text) == Some((unit, length)),
{
    lemma_unit_at(text);
}

/// A spelling is read whole where what follows it can follow a term.
pub proof fn lemma_unit_then(word: Seq<u8>, rest: Seq<u8>)
    requires
        spelled(word) is Some,
        follows_term(rest),
    ensures
        unit_at(word + rest) == Some((spelled(word)->0, word.len())),
{
    let text = word + rest;
    lemma_spelled_shape(word);
    assert(text.take(word.len() as int) =~= word);
    assert forall|n: int| word.len() < n <= text.len() implies spelled(
        #[trigger] text.take(n),
    ) is None by {
        if direction_word(rest) is Ok {
            lemma_unit_then_direction(word, rest, n);
        } else if spelled(text.take(n)) is Some {
            lemma_spelled_shape(text.take(n));
            assert(text.take(n)[word.len() as int] == rest[0]);
        }
    }
    lemma_unit_at_is(text, spelled(word)->0, word.len());
}

/// The term that text begins with, where the text is put together from the
/// parts of a term and from what follows it.
pub proof fn lemma_term_then(
    lead: Seq<u8>,
    numeral: Seq<u8>,
    gap: Seq<u8>,
    word: Seq<u8>,
    rest: Seq<u8>,
)
    requires
        all_spaces(lead),
        all_digits(numeral),
        numeral.len() > 0,
        all_spaces(gap),
        spelled(word) is Some,
        follows_term(rest),
    ensures
        term_at(lead + numeral + gap + word + rest) == Ok::<(nat, nat), Error>(
            (
                decimal(numeral) * (spelled(word)->0).nanos(),
                lead.len() + numeral.len() + gap.len() + word.len(),
            ),
        ),
        (lead + numeral + gap + word + rest).skip(
            (lead.len() + numeral.len() + gap.len() + word.len()) as int,
        ) == rest,
{
    let text = lead + numeral + gap + word + rest;
    lemma_spelled_shape(word);
    let from_number = numeral + gap + word + rest;
    let from_gap = gap + word + rest;
    let from_word = word + rest;
    assert(text =~= lead + from_number);
    assert(from_number =~= numeral + from_gap);
    assert(from_gap =~= gap + from_word);
    lemma_spaces_then(lead, from_number);
    assert(text.skip(lead.len() as int) =~= from_number);
    lemma_digits_then(numeral, from_gap);
    assert(from_number.skip(numeral.len() as int) =~= from_gap);
    assert(from_number.take(numeral.len() as int) =~= numeral);
    lemma_spaces_then(gap, from_word);
    assert(from_gap.skip(gap.len() as int) =~= from_word);
    lemma_unit_then(word, rest);
}

/// Text that begins with a term begins with whitespace or with a digit.
pub proof fn lemma_term_begins(text: Seq<u8>)
    requires
        term_at(text) is Ok,
    ensures
        text.len() > 0,
        is_space(text[0]) || is_digit(text[0]),
{
    lemma_spaces(text);
    lemma_digits(text.skip(spaces(text) as int));
}

/// A term stays what it is when text is put behind the text it begins,
/// as long as the term is still followed by what can follow a term.
pub proof fn lemma_term_append(text: Seq<u8>, more: Seq<u8>)
    requires
        term_at(text) is Ok,
        follows_term(text.skip((term_at(text)->Ok_0).1 as int) + more),
    ensures
        term_at(text + more) == term_at(text),
        (text + more).skip((term_at(text)->Ok_0).1 as int) == text.skip(
            (term_at(text)->Ok_0).1 as int,
        ) + more,
{
    let length = (term_at(text)->Ok_0).1;
    let lead_length = spaces(text);
    let number = text.skip(lead_length as int);
    let count = digits(number);
    let after = number.skip(count as int);
    let gap_length = spaces(after);
    let named = after.skip(gap_length as int);
    lemma_spaces(text);
    lemma_digits(number);
    lemma_spaces(after);
    lemma_unit_at(named);
    let word_length = (unit_at(named)->0).1;

    let lead = text.take(lead_length as int);
    let numeral = number.take(count as int);
    let gap = after.take(gap_length as int);
    let word = named.take(word_length as int);
    let rest = text.skip(length as int);
    assert(all_digits(numeral));
    assert(all_spaces(gap));
    assert(text + more =~= lead + numeral + gap + word + (rest + more));
    lemma_term_then(lead, numeral, gap, word, rest + more);
}

/// The sum of the terms of text that is put together from two parts, where
/// the first part is term after term to its end and the second can follow a
/// term: the sum of the first part and that of the second, or the error of
/// the second.
pub proof fn lemma_span_append(text: Seq<u8>, more: Seq<u8>)
    requires
        span_sum(text) is Ok,
        follows_term(more),
    ensures
        span_sum(text + more) == match span_sum(more) {
            Ok(rest) => Ok::<nat, Error>(span_sum(text)->Ok_0 + rest),
            Err(error) => Err(error),
        },
    decreases text.len(),
{
    if text.len() > 0 {
        lemma_term_length(text);
        let length = (term_at(text)->Ok_0).1;
        let rest = text.skip(length as int);
        assert(span_sum(rest) is Ok);
        if rest.len() > 0 {
            lemma_term_begins(rest);
        }
        lemma_term_append(text, more);
        lemma_span_append(rest, more);
    }
}

/// Text that is term after term to its end is empty or begins as a term
/// does.
pub proof fn lemma_span_begins(text: Seq<u8>)
    requires
        span_sum(text) is Ok,
    ensures
        follows_term(text),
{
    if text.len() > 0 {
        lemma_term_begins(text);
    }
}

/// The relative reading of text that is put together from two parts, where
/// the first part is term after term to its end and the second can follow a
/// term: the sum of the first part goes on top of what the second part
/// gives.
pub proof fn lemma_relative_append(
    text: Seq<u8>,
    more: Seq<u8>,
    sign: Option<RelativeType>,
    at_start: bool,
)
    requires
        span_sum(text) is Ok,
        follows_term(more),
    ensures
        relative_sum(text + more, sign, at_start) == match relative_sum(
            more,
            sign,
            at_start && text.len() == 0,
        ) {
            Ok((rest, direction)) => Ok::<(nat, RelativeType), Error>(
                (span_sum(text)->Ok_0 + rest, direction),
            ),
            Err(error) => Err(error),
        },
    decreases text.len(),
{
    if text.len() > 0 {
        lemma_term_length(text);
        let length = (term_at(text)->Ok_0).1;
        let rest = text.skip(length as int);
        assert(span_sum(rest) is Ok);
        if rest.len() > 0 {
            lemma_term_begins(rest);
        }
        lemma_term_append(text, more);
        lemma_relative_append(rest, more, sign, false);
    }
}

} // verus!
