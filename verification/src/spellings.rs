//! What the spellings of the units are made of: how long they are, which
//! bytes they hold and how they end. These facts are read off the spellings
//! one by one, here, so that nothing else has to look into them.

use crate::duration::{is_digit, is_space};
use crate::units::{greek_mu_s, micro_sign_s, spelled, Unit, LONGEST_SPELLING};
use vstd::prelude::*;
use vstd::string::StringSliceAdditionalSpecFns;

verus! {

/// Whether `byte` is a lower-case ASCII letter.
spec fn is_lower(byte: u8) -> bool {
    0x61 <= byte <= 0x7a
}

/// Whether `name` is `length` bytes long, each of them a lower-case letter.
spec fn is_name(name: &str, length: nat) -> bool {
    &&& name.spec_bytes().len() == length
    &&& forall|i: int| 0 <= i < length ==> is_lower(#[trigger] name.spec_bytes()[i])
}

/// A string of lower-case ASCII letters has one byte for each of them.
proof fn lemma_lower_case_name(name: &str)
    requires
        forall|i: int| 0 <= i < name@.len() ==> 'a' <= #[trigger] name@[i] <= 'z',
    ensures
        is_name(name, name@.len()),
{
    vstd::utf8::is_ascii_chars_encode_utf8(name@);
}

/// The length of every spelling that is written in ASCII, and that it is
/// made of lower-case letters.
proof fn lemma_names()
    ensures
        is_name("ns", 2),
        is_name("nsec", 4),
        is_name("nsecs", 5),
        is_name("nanos", 5),
        is_name("nanosecond", 10),
        is_name("nanoseconds", 11),
        is_name("us", 2),
        is_name("usec", 4),
        is_name("usecs", 5),
        is_name("microsecond", 11),
        is_name("microseconds", 12),
        is_name("ms", 2),
        is_name("msec", 4),
        is_name("msecs", 5),
        is_name("millisecond", 11),
        is_name("milliseconds", 12),
        is_name("s", 1),
        is_name("sec", 3),
        is_name("secs", 4),
        is_name("second", 6),
        is_name("seconds", 7),
        is_name("m", 1),
        is_name("min", 3),
        is_name("mins", 4),
        is_name("minute", 6),
        is_name("minutes", 7),
        is_name("h", 1),
        is_name("hr", 2),
        is_name("hrs", 3),
        is_name("hour", 4),
        is_name("hours", 5),
        is_name("d", 1),
        is_name("day", 3),
        is_name("days", 4),
{
    reveal_strlit("ns");
    lemma_lower_case_name("ns");
    reveal_strlit("nsec");
    lemma_lower_case_name("nsec");
    reveal_strlit("nsecs");
    lemma_lower_case_name("nsecs");
    reveal_strlit("nanos");
    lemma_lower_case_name("nanos");
    reveal_strlit("nanosecond");
    lemma_lower_case_name("nanosecond");
    reveal_strlit("nanoseconds");
    lemma_lower_case_name("nanoseconds");
    reveal_strlit("us");
    lemma_lower_case_name("us");
    reveal_strlit("usec");
    lemma_lower_case_name("usec");
    reveal_strlit("usecs");
    lemma_lower_case_name("usecs");
    reveal_strlit("microsecond");
    lemma_lower_case_name("microsecond");
    reveal_strlit("microseconds");
    lemma_lower_case_name("microseconds");
    reveal_strlit("ms");
    lemma_lower_case_name("ms");
    reveal_strlit("msec");
    lemma_lower_case_name("msec");
    reveal_strlit("msecs");
    lemma_lower_case_name("msecs");
    reveal_strlit("millisecond");
    lemma_lower_case_name("millisecond");
    reveal_strlit("milliseconds");
    lemma_lower_case_name("milliseconds");
    reveal_strlit("s");
    lemma_lower_case_name("s");
    reveal_strlit("sec");
    lemma_lower_case_name("sec");
    reveal_strlit("secs");
    lemma_lower_case_name("secs");
    reveal_strlit("second");
    lemma_lower_case_name("second");
    reveal_strlit("seconds");
    lemma_lower_case_name("seconds");
    reveal_strlit("m");
    lemma_lower_case_name("m");
    reveal_strlit("min");
    lemma_lower_case_name("min");
    reveal_strlit("mins");
    lemma_lower_case_name("mins");
    reveal_strlit("minute");
    lemma_lower_case_name("minute");
    reveal_strlit("minutes");
    lemma_lower_case_name("minutes");
    reveal_strlit("h");
    lemma_lower_case_name("h");
    reveal_strlit("hr");
    lemma_lower_case_name("hr");
    reveal_strlit("hrs");
    lemma_lower_case_name("hrs");
    reveal_strlit("hour");
    lemma_lower_case_name("hour");
    reveal_strlit("hours");
    lemma_lower_case_name("hours");
    reveal_strlit("d");
    lemma_lower_case_name("d");
    reveal_strlit("day");
    lemma_lower_case_name("day");
    reveal_strlit("days");
    lemma_lower_case_name("days");
}

/// Every spelling is made of 1 to 12 bytes, none of them a digit or
/// whitespace.
pub proof fn lemma_spelled_shape(word: Seq<u8>)
    requires
        spelled(word) is Some,
    ensures
        1 <= word.len() <= LONGEST_SPELLING,
        forall|i: int| 0 <= i < word.len() ==> !is_digit(#[trigger] word[i]) && !is_space(word[i]),
{
    reveal(spelled);
    lemma_names();
}

/// What the last byte of a spelling tells: it is one of `s`, `c`, `d`, `n`,
/// `e`, `r`, `h`, `m` and `y`; a word that ends in `e` has six bytes, the
/// third of them `n`; and a word that ends in `r` has at most four.
#[verifier::opaque]
pub open spec fn ends_as_spelling(word: Seq<u8>) -> bool {
    let last = word[word.len() - 1];
    &&& word.len() >= 1
    &&& last == 0x73 || last == 0x63 || last == 0x64 || last == 0x6e || last == 0x65 || last
        == 0x72 || last == 0x68 || last == 0x6d || last == 0x79
    &&& last == 0x65 ==> word.len() == 6 && word[2] == 0x6e
    &&& last == 0x72 ==> word.len() <= 4
}

/// A string of lower-case ASCII letters whose last letter is as
/// [`ends_as_spelling`] says has bytes that end so.
proof fn lemma_name_ending(name: &str)
    requires
        name@.len() >= 1,
        forall|i: int| 0 <= i < name@.len() ==> 'a' <= #[trigger] name@[i] <= 'z',
        ({
            let last = name@[name@.len() - 1];
            &&& last == 's' || last == 'c' || last == 'd' || last == 'n' || last == 'e' || last
                == 'r' || last == 'h' || last == 'm' || last == 'y'
            &&& last == 'e' ==> name@.len() == 6 && name@[2] == 'n'
            &&& last == 'r' ==> name@.len() <= 4
        }),
    ensures
        ends_as_spelling(name.spec_bytes()),
{
    reveal(ends_as_spelling);
    vstd::utf8::is_ascii_chars_encode_utf8(name@);
}

/// The spellings of nanoseconds end as [`ends_as_spelling`] says.
proof fn lemma_nanoseconds_ending()
    ensures
        ends_as_spelling("ns".spec_bytes()),
        ends_as_spelling("nsec".spec_bytes()),
        ends_as_spelling("nsecs".spec_bytes()),
        ends_as_spelling("nanos".spec_bytes()),
        ends_as_spelling("nanosecond".spec_bytes()),
        ends_as_spelling("nanoseconds".spec_bytes()),
{
    reveal_strlit("ns");
    lemma_name_ending("ns");
    reveal_strlit("nsec");
    lemma_name_ending("nsec");
    reveal_strlit("nsecs");
    lemma_name_ending("nsecs");
    reveal_strlit("nanos");
    lemma_name_ending("nanos");
    reveal_strlit("nanosecond");
    lemma_name_ending("nanosecond");
    reveal_strlit("nanoseconds");
    lemma_name_ending("nanoseconds");
}

/// The spellings of microseconds end as [`ends_as_spelling`] says.
proof fn lemma_microseconds_ending()
    ensures
        ends_as_spelling("us".spec_bytes()),
        ends_as_spelling("usec".spec_bytes()),
        ends_as_spelling("usecs".spec_bytes()),
        ends_as_spelling("microsecond".spec_bytes()),
        ends_as_spelling("microseconds".spec_bytes()),
{
    reveal_strlit("us");
    lemma_name_ending("us");
    reveal_strlit("usec");
    lemma_name_ending("usec");
    reveal_strlit("usecs");
    lemma_name_ending("usecs");
    reveal_strlit("microsecond");
    lemma_name_ending("microsecond");
    reveal_strlit("microseconds");
    lemma_name_ending("microseconds");
}

/// The spellings of milliseconds end as [`ends_as_spelling`] says.
proof fn lemma_milliseconds_ending()
    ensures
        ends_as_spelling("ms".spec_bytes()),
        ends_as_spelling("msec".spec_bytes()),
        ends_as_spelling("msecs".spec_bytes()),
        ends_as_spelling("millisecond".spec_bytes()),
        ends_as_spelling("milliseconds".spec_bytes()),
{
    reveal_strlit("ms");
    lemma_name_ending("ms");
    reveal_strlit("msec");
    lemma_name_ending("msec");
    reveal_strlit("msecs");
    lemma_name_ending("msecs");
    reveal_strlit("millisecond");
    lemma_name_ending("millisecond");
    reveal_strlit("milliseconds");
    lemma_name_ending("milliseconds");
}

/// The spellings of seconds end as [`ends_as_spelling`] says.
proof fn lemma_seconds_ending()
    ensures
        ends_as_spelling("s".spec_bytes()),
        ends_as_spelling("sec".spec_bytes()),
        ends_as_spelling("secs".spec_bytes()),
        ends_as_spelling("second".spec_bytes()),
        ends_as_spelling("seconds".spec_bytes()),
{
    reveal_strlit("s");
    lemma_name_ending("s");
    reveal_strlit("sec");
    lemma_name_ending("sec");
    reveal_strlit("secs");
    lemma_name_ending("secs");
    reveal_strlit("second");
    lemma_name_ending("second");
    reveal_strlit("seconds");
    lemma_name_ending("seconds");
}

/// The spellings of minutes end as [`ends_as_spelling`] says.
proof fn lemma_minutes_ending()
    ensures
        ends_as_spelling("m".spec_bytes()),
        ends_as_spelling("min".spec_bytes()),
        ends_as_spelling("mins".spec_bytes()),
        ends_as_spelling("minute".spec_bytes()),
        ends_as_spelling("minutes".spec_bytes()),
{
    reveal_strlit("m");
    lemma_name_ending("m");
    reveal_strlit("min");
    lemma_name_ending("min");
    reveal_strlit("mins");
    lemma_name_ending("mins");
    reveal_strlit("minute");
    lemma_name_ending("minute");
    reveal_strlit("minutes");
    lemma_name_ending("minutes");
}

/// The spellings of hours end as [`ends_as_spelling`] says.
proof fn lemma_hours_ending()
    ensures
        ends_as_spelling("h".spec_bytes()),
        ends_as_spelling("hr".spec_bytes()),
        ends_as_spelling("hrs".spec_bytes()),
        ends_as_spelling("hour".spec_bytes()),
        ends_as_spelling("hours".spec_bytes()),
{
    reveal_strlit("h");
    lemma_name_ending("h");
    reveal_strlit("hr");
    lemma_name_ending("hr");
    reveal_strlit("hrs");
    lemma_name_ending("hrs");
    reveal_strlit("hour");
    lemma_name_ending("hour");
    reveal_strlit("hours");
    lemma_name_ending("hours");
}

/// The spellings of days end as [`ends_as_spelling`] says.
proof fn lemma_days_ending()
    ensures
        ends_as_spelling("d".spec_bytes()),
        ends_as_spelling("day".spec_bytes()),
        ends_as_spelling("days".spec_bytes()),
{
    reveal_strlit("d");
    lemma_name_ending("d");
    reveal_strlit("day");
    lemma_name_ending("day");
    reveal_strlit("days");
    lemma_name_ending("days");
}

/// Every spelling ends as [`ends_as_spelling`] says.
pub proof fn lemma_spelled_ending(word: Seq<u8>)
    requires
        spelled(word) is Some,
    ensures
        ends_as_spelling(word),
{
    lemma_nanoseconds_ending();
    lemma_microseconds_ending();
    lemma_milliseconds_ending();
    lemma_seconds_ending();
    lemma_minutes_ending();
    lemma_hours_ending();
    lemma_days_ending();
    assert(ends_as_spelling(micro_sign_s())) by {
        reveal(ends_as_spelling);
    }
    assert(ends_as_spelling(greek_mu_s())) by {
        reveal(ends_as_spelling);
    }
    reveal(spelled);
}

/// Whether `word` is `length` bytes long and begins with the bytes given,
/// as far as it goes.
spec fn begins_as(word: Seq<u8>, length: nat, first: u8, second: u8, third: u8) -> bool {
    &&& word.len() == length
    &&& length >= 1 ==> word[0] == first
    &&& length >= 2 ==> word[1] == second
    &&& length >= 3 ==> word[2] == third
}

/// How a string of lower-case ASCII letters begins, in bytes.
proof fn lemma_name_begins(name: &str)
    requires
        forall|i: int| 0 <= i < name@.len() ==> 'a' <= #[trigger] name@[i] <= 'z',
    ensures
        begins_as(name.spec_bytes(), name@.len(), name@[0] as u8, name@[1] as u8, name@[2] as u8),
{
    vstd::utf8::is_ascii_chars_encode_utf8(name@);
}

/// How the spellings of nanoseconds begin.
proof fn lemma_nanoseconds_begin()
    ensures
        begins_as("ns".spec_bytes(), 2, 0x6e, 0x73, 0x00),
        begins_as("nsec".spec_bytes(), 4, 0x6e, 0x73, 0x65),
        begins_as("nsecs".spec_bytes(), 5, 0x6e, 0x73, 0x65),
        begins_as("nanos".spec_bytes(), 5, 0x6e, 0x61, 0x6e),
        begins_as("nanosecond".spec_bytes(), 10, 0x6e, 0x61, 0x6e),
        begins_as("nanoseconds".spec_bytes(), 11, 0x6e, 0x61, 0x6e),
{
    reveal_strlit("ns");
    lemma_name_begins("ns");
    reveal_strlit("nsec");
    lemma_name_begins("nsec");
    reveal_strlit("nsecs");
    lemma_name_begins("nsecs");
    reveal_strlit("nanos");
    lemma_name_begins("nanos");
    reveal_strlit("nanosecond");
    lemma_name_begins("nanosecond");
    reveal_strlit("nanoseconds");
    lemma_name_begins("nanoseconds");
}

/// How the spellings of microseconds begin.
proof fn lemma_microseconds_begin()
    ensures
        begins_as("us".spec_bytes(), 2, 0x75, 0x73, 0x00),
        begins_as("usec".spec_bytes(), 4, 0x75, 0x73, 0x65),
        begins_as("usecs".spec_bytes(), 5, 0x75, 0x73, 0x65),
        begins_as("microsecond".spec_bytes(), 11, 0x6d, 0x69, 0x63),
        begins_as("microseconds".spec_bytes(), 12, 0x6d, 0x69, 0x63),
{
    reveal_strlit("us");
    lemma_name_begins("us");
    reveal_strlit("usec");
    lemma_name_begins("usec");
    reveal_strlit("usecs");
    lemma_name_begins("usecs");
    reveal_strlit("microsecond");
    lemma_name_begins("microsecond");
    reveal_strlit("microseconds");
    lemma_name_begins("microseconds");
}

/// How the spellings of milliseconds begin.
proof fn lemma_milliseconds_begin()
    ensures
        begins_as("ms".spec_bytes(), 2, 0x6d, 0x73, 0x00),
        begins_as("msec".spec_bytes(), 4, 0x6d, 0x73, 0x65),
        begins_as("msecs".spec_bytes(), 5, 0x6d, 0x73, 0x65),
        begins_as("millisecond".spec_bytes(), 11, 0x6d, 0x69, 0x6c),
        begins_as("milliseconds".spec_bytes(), 12, 0x6d, 0x69, 0x6c),
{
    reveal_strlit("ms");
    lemma_name_begins("ms");
    reveal_strlit("msec");
    lemma_name_begins("msec");
    reveal_strlit("msecs");
    lemma_name_begins("msecs");
    reveal_strlit("millisecond");
    lemma_name_begins("millisecond");
    reveal_strlit("milliseconds");
    lemma_name_begins("milliseconds");
}

/// How the spellings of seconds begin.
proof fn lemma_seconds_begin()
    ensures
        begins_as("s".spec_bytes(), 1, 0x73, 0x00, 0x00),
        begins_as("sec".spec_bytes(), 3, 0x73, 0x65, 0x63),
        begins_as("secs".spec_bytes(), 4, 0x73, 0x65, 0x63),
        begins_as("second".spec_bytes(), 6, 0x73, 0x65, 0x63),
        begins_as("seconds".spec_bytes(), 7, 0x73, 0x65, 0x63),
{
    reveal_strlit("s");
    lemma_name_begins("s");
    reveal_strlit("sec");
    lemma_name_begins("sec");
    reveal_strlit("secs");
    lemma_name_begins("secs");
    reveal_strlit("second");
    lemma_name_begins("second");
    reveal_strlit("seconds");
    lemma_name_begins("seconds");
}

/// How the spellings of minutes begin.
proof fn lemma_minutes_begin()
    ensures
        begins_as("m".spec_bytes(), 1, 0x6d, 0x00, 0x00),
        begins_as("min".spec_bytes(), 3, 0x6d, 0x69, 0x6e),
        begins_as("mins".spec_bytes(), 4, 0x6d, 0x69, 0x6e),
        begins_as("minute".spec_bytes(), 6, 0x6d, 0x69, 0x6e),
        begins_as("minutes".spec_bytes(), 7, 0x6d, 0x69, 0x6e),
{
    reveal_strlit("m");
    lemma_name_begins("m");
    reveal_strlit("min");
    lemma_name_begins("min");
    reveal_strlit("mins");
    lemma_name_begins("mins");
    reveal_strlit("minute");
    lemma_name_begins("minute");
    reveal_strlit("minutes");
    lemma_name_begins("minutes");
}

/// How the spellings of hours begin.
proof fn lemma_hours_begin()
    ensures
        begins_as("h".spec_bytes(), 1, 0x68, 0x00, 0x00),
        begins_as("hr".spec_bytes(), 2, 0x68, 0x72, 0x00),
        begins_as("hrs".spec_bytes(), 3, 0x68, 0x72, 0x73),
        begins_as("hour".spec_bytes(), 4, 0x68, 0x6f, 0x75),
        begins_as("hours".spec_bytes(), 5, 0x68, 0x6f, 0x75),
{
    reveal_strlit("h");
    lemma_name_begins("h");
    reveal_strlit("hr");
    lemma_name_begins("hr");
    reveal_strlit("hrs");
    lemma_name_begins("hrs");
    reveal_strlit("hour");
    lemma_name_begins("hour");
    reveal_strlit("hours");
    lemma_name_begins("hours");
}

/// How the spellings of days begin.
proof fn lemma_days_begin()
    ensures
        begins_as("d".spec_bytes(), 1, 0x64, 0x00, 0x00),
        begins_as("day".spec_bytes(), 3, 0x64, 0x61, 0x79),
        begins_as("days".spec_bytes(), 4, 0x64, 0x61, 0x79),
{
    reveal_strlit("d");
    lemma_name_begins("d");
    reveal_strlit("day");
    lemma_name_begins("day");
    reveal_strlit("days");
    lemma_name_begins("days");
}

/// How every spelling begins: what tells the spellings apart.
proof fn lemma_names_begin()
    ensures
        begins_as("ns".spec_bytes(), 2, 0x6e, 0x73, 0x00),
        begins_as("nsec".spec_bytes(), 4, 0x6e, 0x73, 0x65),
        begins_as("nsecs".spec_bytes(), 5, 0x6e, 0x73, 0x65),
        begins_as("nanos".spec_bytes(), 5, 0x6e, 0x61, 0x6e),
        begins_as("nanosecond".spec_bytes(), 10, 0x6e, 0x61, 0x6e),
        begins_as("nanoseconds".spec_bytes(), 11, 0x6e, 0x61, 0x6e),
        begins_as("us".spec_bytes(), 2, 0x75, 0x73, 0x00),
        begins_as("usec".spec_bytes(), 4, 0x75, 0x73, 0x65),
        begins_as("usecs".spec_bytes(), 5, 0x75, 0x73, 0x65),
        begins_as("microsecond".spec_bytes(), 11, 0x6d, 0x69, 0x63),
        begins_as("microseconds".spec_bytes(), 12, 0x6d, 0x69, 0x63),
        begins_as("ms".spec_bytes(), 2, 0x6d, 0x73, 0x00),
        begins_as("msec".spec_bytes(), 4, 0x6d, 0x73, 0x65),
        begins_as("msecs".spec_bytes(), 5, 0x6d, 0x73, 0x65),
        begins_as("millisecond".spec_bytes(), 11, 0x6d, 0x69, 0x6c),
        begins_as("milliseconds".spec_bytes(), 12, 0x6d, 0x69, 0x6c),
        begins_as("s".spec_bytes(), 1, 0x73, 0x00, 0x00),
        begins_as("sec".spec_bytes(), 3, 0x73, 0x65, 0x63),
        begins_as("secs".spec_bytes(), 4, 0x73, 0x65, 0x63),
        begins_as("second".spec_bytes(), 6, 0x73, 0x65, 0x63),
        begins_as("seconds".spec_bytes(), 7, 0x73, 0x65, 0x63),
        begins_as("m".spec_bytes(), 1, 0x6d, 0x00, 0x00),
        begins_as("min".spec_bytes(), 3, 0x6d, 0x69, 0x6e),
        begins_as("mins".spec_bytes(), 4, 0x6d, 0x69, 0x6e),
        begins_as("minute".spec_bytes(), 6, 0x6d, 0x69, 0x6e),
        begins_as("minutes".spec_bytes(), 7, 0x6d, 0x69, 0x6e),
        begins_as("h".spec_bytes(), 1, 0x68, 0x00, 0x00),
        begins_as("hr".spec_bytes(), 2, 0x68, 0x72, 0x00),
        begins_as("hrs".spec_bytes(), 3, 0x68, 0x72, 0x73),
        begins_as("hour".spec_bytes(), 4, 0x68, 0x6f, 0x75),
        begins_as("hours".spec_bytes(), 5, 0x68, 0x6f, 0x75),
        begins_as("d".spec_bytes(), 1, 0x64, 0x00, 0x00),
        begins_as("day".spec_bytes(), 3, 0x64, 0x61, 0x79),
        begins_as("days".spec_bytes(), 4, 0x64, 0x61, 0x79),
        begins_as(micro_sign_s(), 3, 0xc2, 0xb5, 0x73),
        begins_as(greek_mu_s(), 3, 0xce, 0xbc, 0x73),
{
    lemma_nanoseconds_begin();
    lemma_microseconds_begin();
    lemma_milliseconds_begin();
    lemma_seconds_begin();
    lemma_minutes_begin();
    lemma_hours_begin();
    lemma_days_begin();
}

/// The spellings of nanoseconds spell nanoseconds.
proof fn lemma_nanoseconds_spelled()
    ensures
        spelled("ns".spec_bytes()) == Some(Unit::Nanoseconds),
        spelled("nsec".spec_bytes()) == Some(Unit::Nanoseconds),
        spelled("nsecs".spec_bytes()) == Some(Unit::Nanoseconds),
        spelled("nanos".spec_bytes()) == Some(Unit::Nanoseconds),
        spelled("nanosecond".spec_bytes()) == Some(Unit::Nanoseconds),
        spelled("nanoseconds".spec_bytes()) == Some(Unit::Nanoseconds),
{
    lemma_names_begin();
    reveal(spelled);
}

/// The spellings of microseconds spell microseconds.
proof fn lemma_microseconds_spelled()
    ensures
        spelled("us".spec_bytes()) == Some(Unit::Microseconds),
        spelled("usec".spec_bytes()) == Some(Unit::Microseconds),
        spelled("usecs".spec_bytes()) == Some(Unit::Microseconds),
        spelled("microsecond".spec_bytes()) == Some(Unit::Microseconds),
        spelled("microseconds".spec_bytes()) == Some(Unit::Microseconds),
        spelled(micro_sign_s()) == Some(Unit::Microseconds),
        spelled(greek_mu_s()) == Some(Unit::Microseconds),
{
    lemma_names_begin();
    reveal(spelled);
}

/// The spellings of milliseconds spell milliseconds.
proof fn lemma_milliseconds_spelled()
    ensures
        spelled("ms".spec_bytes()) == Some(Unit::Milliseconds),
        spelled("msec".spec_bytes()) == Some(Unit::Milliseconds),
        spelled("msecs".spec_bytes()) == Some(Unit::Milliseconds),
        spelled("millisecond".spec_bytes()) == Some(Unit::Milliseconds),
        spelled("milliseconds".spec_bytes()) == Some(Unit::Milliseconds),
{
    lemma_names_begin();
    reveal(spelled);
}

/// The spellings of seconds spell seconds.
proof fn lemma_seconds_spelled()
    ensures
        spelled("s".spec_bytes()) == Some(Unit::Seconds),
        spelled("sec".spec_bytes()) == Some(Unit::Seconds),
        spelled("secs".spec_bytes()) == Some(Unit::Seconds),
        spelled("second".spec_bytes()) == Some(Unit::Seconds),
        spelled("seconds".spec_bytes()) == Some(Unit::Seconds),
{
    lemma_names_begin();
    reveal(spelled);
}

/// The spellings of minutes spell minutes.
proof fn lemma_minutes_spelled()
    ensures
        spelled("m".spec_bytes()) == Some(Unit::Minutes),
        spelled("min".spec_bytes()) == Some(Unit::Minutes),
        spelled("mins".spec_bytes()) == Some(Unit::Minutes),
        spelled("minute".spec_bytes()) == Some(Unit::Minutes),
        spelled("minutes".spec_bytes()) == Some(Unit::Minutes),
{
    lemma_names_begin();
    reveal(spelled);
}

/// The spellings of hours spell hours.
proof fn lemma_hours_spelled()
    ensures
        spelled("h".spec_bytes()) == Some(Unit::Hours),
        spelled("hr".spec_bytes()) == Some(Unit::Hours),
        spelled("hrs".spec_bytes()) == Some(Unit::Hours),
        spelled("hour".spec_bytes()) == Some(Unit::Hours),
        spelled("hours".spec_bytes()) == Some(Unit::Hours),
{
    lemma_names_begin();
    reveal(spelled);
}

/// The spellings of days spell days.
proof fn lemma_days_spelled()
    ensures
        spelled("d".spec_bytes()) == Some(Unit::Days),
        spelled("day".spec_bytes()) == Some(Unit::Days),
        spelled("days".spec_bytes()) == Some(Unit::Days),
{
    lemma_names_begin();
    reveal(spelled);
}

/// The vocabulary: every spelling, and the unit that it spells.
pub proof fn lemma_vocabulary()
    ensures
        spelled("ns".spec_bytes()) == Some(Unit::Nanoseconds),
        spelled("nsec".spec_bytes()) == Some(Unit::Nanoseconds),
        spelled("nsecs".spec_bytes()) == Some(Unit::Nanoseconds),
        spelled("nanos".spec_bytes()) == Some(Unit::Nanoseconds),
        spelled("nanosecond".spec_bytes()) == Some(Unit::Nanoseconds),
        spelled("nanoseconds".spec_bytes()) == Some(Unit::Nanoseconds),
        spelled("us".spec_bytes()) == Some(Unit::Microseconds),
        spelled("usec".spec_bytes()) == Some(Unit::Microseconds),
        spelled("usecs".spec_bytes()) == Some(Unit::Microseconds),
        spelled(micro_sign_s()) == Some(Unit::Microseconds),
        spelled(greek_mu_s()) == Some(Unit::Microseconds),
        spelled("microsecond".spec_bytes()) == Some(Unit::Microseconds),
        spelled("microseconds".spec_bytes()) == Some(Unit::Microseconds),
        spelled("ms".spec_bytes()) == Some(Unit::Milliseconds),
        spelled("msec".spec_bytes()) == Some(Unit::Milliseconds),
        spelled("msecs".spec_bytes()) == Some(Unit::Milliseconds),
        spelled("millisecond".spec_bytes()) == Some(Unit::Milliseconds),
        spelled("milliseconds".spec_bytes()) == Some(Unit::Milliseconds),
        spelled("s".spec_bytes()) == Some(Unit::Seconds),
        spelled("sec".spec_bytes()) == Some(Unit::Seconds),
        spelled("secs".spec_bytes()) == Some(Unit::Seconds),
        spelled("second".spec_bytes()) == Some(Unit::Seconds),
        spelled("seconds".spec_bytes()) == Some(Unit::Seconds),
        spelled("m".spec_bytes()) == Some(Unit::Minutes),
        spelled("min".spec_bytes()) == Some(Unit::Minutes),
        spelled("mins".spec_bytes()) == Some(Unit::Minutes),
        spelled("minute".spec_bytes()) == Some(Unit::Minutes),
        spelled("minutes".spec_bytes()) == Some(Unit::Minutes),
        spelled("h".spec_bytes()) == Some(Unit::Hours),
        spelled("hr".spec_bytes()) == Some(Unit::Hours),
        spelled("hrs".spec_bytes()) == Some(Unit::Hours),
        spelled("hour".spec_bytes()) == Some(Unit::Hours),
        spelled("hours".spec_bytes()) == Some(Unit::Hours),
        spelled("d".spec_bytes()) == Some(Unit::Days),
        spelled("day".spec_bytes()) == Some(Unit::Days),
        spelled("days".spec_bytes()) == Some(Unit::Days),
{
    lemma_nanoseconds_spelled();
    lemma_microseconds_spelled();
    lemma_milliseconds_spelled();
    lemma_seconds_spelled();
    lemma_minutes_spelled();
    lemma_hours_spelled();
    lemma_days_spelled();
}

} // verus!
