//! The units of time and how they are spelled.
//!
//! Every unit has a short spelling and longer ones, and some spellings
//! begin others: `m`, `min` and `minutes` are minutes, `ms` is milliseconds.
//! Text is read for the longest spelling that it begins with.

use crate::error::Error;
use crate::spellings::lemma_spelled_shape;
use vstd::prelude::*;
use vstd::string::StringSliceAdditionalSpecFns;

verus! {

/// A unit of time that a term can be counted in.
#[derive(Debug, PartialEq, Eq)]
pub enum Unit {
    Nanoseconds,
    Microseconds,
    Milliseconds,
    Seconds,
    Minutes,
    Hours,
    Days,
}

impl Unit {
    /// How many nanoseconds one of this unit is.
    pub open spec fn nanos(self) -> nat {
        match self {
            Unit::Nanoseconds => 1,
            Unit::Microseconds => 1_000,
            Unit::Milliseconds => 1_000_000,
            Unit::Seconds => 1_000_000_000,
            Unit::Minutes => 60_000_000_000,
            Unit::Hours => 3_600_000_000_000,
            Unit::Days => 86_400_000_000_000,
        }
    }

    /// How many nanoseconds one of this unit is.
    pub fn factor(&self) -> (nanos: u128)
        ensures
            nanos == self.nanos(),
    {
        match self {
            Unit::Nanoseconds => 1,
            Unit::Microseconds => 1_000,
            Unit::Milliseconds => 1_000_000,
            Unit::Seconds => 1_000_000_000,
            Unit::Minutes => 60_000_000_000,
            Unit::Hours => 3_600_000_000_000,
            Unit::Days => 86_400_000_000_000,
        }
    }
}

/// The bytes of `us` written with the micro sign, U+00B5, in UTF-8.
pub open spec fn micro_sign_s() -> Seq<u8> {
    seq![0xc2u8, 0xb5u8, 0x73u8]
}

/// The bytes of `us` written with the Greek small letter mu, U+03BC, in UTF-8.
pub open spec fn greek_mu_s() -> Seq<u8> {
    seq![0xceu8, 0xbcu8, 0x73u8]
}

/// The unit that `word` spells, if it spells one. Spellings are matched byte
/// for byte: an upper-case letter spells nothing.
#[verifier::opaque]
pub open spec fn spelled(word: Seq<u8>) -> Option<Unit> {
    if word == "ns".spec_bytes() || word == "nsec".spec_bytes() || word == "nsecs".spec_bytes()
        || word == "nanos".spec_bytes() || word == "nanosecond".spec_bytes() || word
        == "nanoseconds".spec_bytes() {
        Some(Unit::Nanoseconds)
    } else if word == "us".spec_bytes() || word == "usec".spec_bytes() || word
        == "usecs".spec_bytes() || word == micro_sign_s() || word == greek_mu_s() || word
        == "microsecond".spec_bytes() || word == "microseconds".spec_bytes() {
        Some(Unit::Microseconds)
    } else if word == "ms".spec_bytes() || word == "msec".spec_bytes() || word
        == "msecs".spec_bytes() || word == "millisecond".spec_bytes() || word
        == "milliseconds".spec_bytes() {
        Some(Unit::Milliseconds)
    } else if word == "s".spec_bytes() || word == "sec".spec_bytes() || word
        == "secs".spec_bytes() || word == "second".spec_bytes() || word == "seconds".spec_bytes() {
        Some(Unit::Seconds)
    } else if word == "m".spec_bytes() || word == "min".spec_bytes() || word
        == "mins".spec_bytes() || word == "minute".spec_bytes() || word == "minutes".spec_bytes() {
        Some(Unit::Minutes)
    } else if word == "h".spec_bytes() || word == "hr".spec_bytes() || word == "hrs".spec_bytes()
        || word == "hour".spec_bytes() || word == "hours".spec_bytes() {
        Some(Unit::Hours)
    } else if word == "d".spec_bytes() || word == "day".spec_bytes() || word
        == "days".spec_bytes() {
        Some(Unit::Days)
    } else {
        None
    }
}

/// The length of the longest spelling of a unit.
pub const LONGEST_SPELLING: usize = 12;

/// The longest beginning of `text`, of at most `limit` bytes, that spells a
/// unit: the unit and the length of its spelling.
pub open spec fn longest_spelling(text: Seq<u8>, limit: nat) -> Option<(Unit, nat)>
    decreases limit,
{
    if limit == 0 {
        None
    } else if limit <= text.len() && spelled(text.take(limit as int)) is Some {
        Some((spelled(text.take(limit as int))->0, limit))
    } else {
        longest_spelling(text, (limit - 1) as nat)
    }
}

/// The unit that `text` begins with, and the length of its spelling. Where
/// one spelling begins another (`m`, `min`, `minutes`), the longest that fits
/// is the one meant. More text may follow the spelling.
pub open spec fn unit_at(text: Seq<u8>) -> Option<(Unit, nat)> {
    longest_spelling(text, text.len())
}

/// What [`lemma_unit_at`] says, of the beginnings of at most `limit` bytes.
proof fn lemma_longest_spelling(text: Seq<u8>, limit: nat)
    requires
        limit <= text.len(),
    ensures
        match longest_spelling(text, limit) {
            Some((unit, length)) => {
                &&& 1 <= length <= limit
                &&& spelled(text.take(length as int)) == Some(unit)
                &&& forall|n: int| length < n <= limit ==> spelled(#[trigger] text.take(n)) is None
            },
            None => forall|n: int| 1 <= n <= limit ==> spelled(#[trigger] text.take(n)) is None,
        },
    decreases limit,
{
    if limit > 0 && spelled(text.take(limit as int)) is None {
        lemma_longest_spelling(text, (limit - 1) as nat);
    }
}

/// The unit that `text` begins with is spelled by the first `length` bytes
/// of `text`, and by no longer beginning of it.
pub proof fn lemma_unit_at(text: Seq<u8>)
    ensures
        match unit_at(text) {
            Some((unit, length)) => {
                &&& 1 <= length <= text.len()
                &&& length <= LONGEST_SPELLING
                &&& spelled(text.take(length as int)) == Some(unit)
                &&& forall|n: int|
                    length < n <= text.len() ==> spelled(#[trigger] text.take(n)) is None
            },
            None => forall|n: int| 1 <= n <= text.len() ==> spelled(#[trigger] text.take(n)) is None,
        },
{
    lemma_longest_spelling(text, text.len());
    if let Some((unit, length)) = unit_at(text) {
        lemma_spelled_shape(text.take(length as int));
    }
}

/// Where no beginning of `text` longer than `length` spells a unit, the
/// search for the longest spelling may start at `length`.
proof fn lemma_longest_from(text: Seq<u8>, limit: nat, length: nat)
    requires
        length <= limit <= text.len(),
        forall|n: int| length < n <= limit ==> spelled(#[trigger] text.take(n)) is None,
    ensures
        longest_spelling(text, limit) == longest_spelling(text, length),
    decreases limit,
{
    if length < limit {
        lemma_longest_from(text, (limit - 1) as nat, length);
    }
}

/// Whether `word` and `name` are the same bytes.
pub fn same(word: &[u8], name: &[u8]) -> (yes: bool)
    ensures
        yes == (word@ == name@),
{
    if word.len() != name.len() {
        return false;
    }
    let mut i: usize = 0;
    while i < word.len()
        invariant
            i <= word.len() == name.len(),
            forall|j: int| 0 <= j < i ==> word@[j] == name@[j],
        decreases word.len() - i,
    {
        if word[i] != name[i] {
            return false;
        }
        i += 1;
    }
    assert(word@ =~= name@);
    true
}

/// Looks `word` up among the spellings of the units.
pub fn unit_named(word: &[u8]) -> (unit: Option<Unit>)
    ensures
        unit == spelled(word@),
{
    let micro_sign: [u8; 3] = [0xc2, 0xb5, 0x73];
    let greek_mu: [u8; 3] = [0xce, 0xbc, 0x73];
    proof {
        reveal(spelled);
    }
    if same(word, "ns".as_bytes())
        || same(word, "nsec".as_bytes())
        || same(word, "nsecs".as_bytes())
        || same(word, "nanos".as_bytes())
        || same(word, "nanosecond".as_bytes())
        || same(word, "nanoseconds".as_bytes()) {
        Some(Unit::Nanoseconds)
    } else if same(word, "us".as_bytes())
        || same(word, "usec".as_bytes())
        || same(word, "usecs".as_bytes())
        || same(word, &micro_sign)
        || same(word, &greek_mu)
        || same(word, "microsecond".as_bytes())
        || same(word, "microseconds".as_bytes()) {
        Some(Unit::Microseconds)
    } else if same(word, "ms".as_bytes())
        || same(word, "msec".as_bytes())
        || same(word, "msecs".as_bytes())
        || same(word, "millisecond".as_bytes())
        || same(word, "milliseconds".as_bytes()) {
        Some(Unit::Milliseconds)
    } else if same(word, "s".as_bytes())
        || same(word, "sec".as_bytes())
        || same(word, "secs".as_bytes())
        || same(word, "second".as_bytes())
        || same(word, "seconds".as_bytes()) {
        Some(Unit::Seconds)
    } else if same(word, "m".as_bytes())
        || same(word, "min".as_bytes())
        || same(word, "mins".as_bytes())
        || same(word, "minute".as_bytes())
        || same(word, "minutes".as_bytes()) {
        Some(Unit::Minutes)
    } else if same(word, "h".as_bytes())
        || same(word, "hr".as_bytes())
        || same(word, "hrs".as_bytes())
        || same(word, "hour".as_bytes())
        || same(word, "hours".as_bytes()) {
        Some(Unit::Hours)
    } else if same(word, "d".as_bytes())
        || same(word, "day".as_bytes())
        || same(word, "days".as_bytes()) {
        Some(Unit::Days)
    } else {
        None
    }
}

/// Resolves the unit that `input` begins with.
///
/// Returns the unit and the length of its spelling, the longest one that
/// `input` begins with. Text that begins with no spelling is refused with
/// [`Error::InvalidUnit`].
pub fn parse_unit(input: &[u8]) -> (result: Result<(Unit, usize), Error>)
    ensures
        match result {
            Ok((unit, length)) => unit_at(input@) == Some((unit, length as nat)),
            Err(error) => error == Error::InvalidUnit && unit_at(input@) is None,
        },
{
    let mut length: usize = if input.len() < LONGEST_SPELLING {
        input.len()
    } else {
        LONGEST_SPELLING
    };
    proof {
        assert forall|n: int| length < n <= input@.len() implies spelled(
            #[trigger] input@.take(n),
        ) is None by {
            if spelled(input@.take(n)) is Some {
                lemma_spelled_shape(input@.take(n));
            }
        }
        lemma_longest_from(input@, input@.len(), length as nat);
    }

    // Longer spellings are tried first, so that `minutes` is not taken for `m`.
    while length > 0
        invariant
            length <= input.len(),
            unit_at(input@) == longest_spelling(input@, length as nat),
        decreases length,
    {
        match unit_named(&input[0..length]) {
            Some(unit) => {
                return Ok((unit, length));
            },
            None => {},
        }
        length -= 1;
    }

    Err(Error::InvalidUnit)
}

} // verus!
