use relhu::duration::{
    eat_spaces, is_decimal_digit, is_whitespace, parse, parse_number, parse_term, plus,
    remaining, scaled,
};
use relhu::units::{parse_unit, same, unit_named, Unit};
use relhu::time::{duration_from_nanos, MAX_NANOS};
use relhu::{parse_duration, Error};
use std::time::Duration;

#[test]
fn whitespace_is_the_ascii_class() {
    for byte in [b' ', b'\t', b'\n', 0x0c, b'\r'] {
        assert!(is_whitespace(byte));
        assert!(byte.is_ascii_whitespace());
    }
    // Vertical tab is not part of the class.
    assert!(!is_whitespace(0x0b));
    for byte in 0..=255u8 {
        assert_eq!(is_whitespace(byte), byte.is_ascii_whitespace());
        assert_eq!(is_decimal_digit(byte), byte.is_ascii_digit());
    }
}

#[test]
fn eat_spaces_counts_leading_whitespace() {
    assert_eq!(eat_spaces(b""), 0);
    assert_eq!(eat_spaces(b"5s"), 0);
    assert_eq!(eat_spaces(b"   5s"), 3);
    assert_eq!(eat_spaces(b" \t\n\r\x0c5 s"), 5);
    assert_eq!(eat_spaces(b"    "), 4);
    assert_eq!(eat_spaces(b"\x0b "), 0);
}

#[test]
fn parse_number_reads_digits_greedily() {
    assert_eq!(parse_number(b"5s"), Ok((Some(5), 1)));
    assert_eq!(parse_number(b"1234567890ms"), Ok((Some(1_234_567_890), 10)));
    assert_eq!(parse_number(b"42"), Ok((Some(42), 2)));
    assert_eq!(parse_number(b"0"), Ok((Some(0), 1)));
    assert_eq!(parse_number(b"007 s"), Ok((Some(7), 3)));
}

#[test]
fn parse_number_needs_a_digit() {
    assert_eq!(parse_number(b""), Err(Error::InvalidNumber));
    assert_eq!(parse_number(b"s5"), Err(Error::InvalidNumber));
    assert_eq!(parse_number(b" 5"), Err(Error::InvalidNumber));
    assert_eq!(parse_number(b"-5"), Err(Error::InvalidNumber));
    assert_eq!(parse_number(b"+5"), Err(Error::InvalidNumber));
}

#[test]
fn parse_number_marks_what_is_out_of_range() {
    // The largest count that is still carried: the nanoseconds of Duration::MAX.
    assert_eq!(
        parse_number(b"18446744073709551615999999999"),
        Ok((Some(MAX_NANOS), 29))
    );
    assert_eq!(parse_number(b"18446744073709551616000000000"), Ok((None, 29)));
    assert_eq!(
        parse_number(b"99999999999999999999999999999999999999999999999999"),
        Ok((None, 50))
    );
    // Leading zeros do not count against the range.
    assert_eq!(
        parse_number(b"00000000000000000000000000000000000000000000000005s"),
        Ok((Some(5), 50))
    );
}

#[test]
fn unit_named_knows_every_spelling() {
    let table: [(&str, Unit); 36] = [
        ("ns", Unit::Nanoseconds),
        ("nsec", Unit::Nanoseconds),
        ("nsecs", Unit::Nanoseconds),
        ("nanos", Unit::Nanoseconds),
        ("nanosecond", Unit::Nanoseconds),
        ("nanoseconds", Unit::Nanoseconds),
        ("us", Unit::Microseconds),
        ("usec", Unit::Microseconds),
        ("usecs", Unit::Microseconds),
        ("\u{b5}s", Unit::Microseconds),
        ("\u{3bc}s", Unit::Microseconds),
        ("microsecond", Unit::Microseconds),
        ("microseconds", Unit::Microseconds),
        ("ms", Unit::Milliseconds),
        ("msec", Unit::Milliseconds),
        ("msecs", Unit::Milliseconds),
        ("millisecond", Unit::Milliseconds),
        ("milliseconds", Unit::Milliseconds),
        ("s", Unit::Seconds),
        ("sec", Unit::Seconds),
        ("secs", Unit::Seconds),
        ("second", Unit::Seconds),
        ("seconds", Unit::Seconds),
        ("m", Unit::Minutes),
        ("min", Unit::Minutes),
        ("mins", Unit::Minutes),
        ("minute", Unit::Minutes),
        ("minutes", Unit::Minutes),
        ("h", Unit::Hours),
        ("hr", Unit::Hours),
        ("hrs", Unit::Hours),
        ("hour", Unit::Hours),
        ("hours", Unit::Hours),
        ("d", Unit::Days),
        ("day", Unit::Days),
        ("days", Unit::Days),
    ];
    for (name, unit) in table {
        assert_eq!(unit_named(name.as_bytes()), Some(unit), "{}", name);
        assert_eq!(
            parse_unit(name.as_bytes()),
            Ok((
                match unit_named(name.as_bytes()) {
                    Some(found) => found,
                    None => unreachable!(),
                },
                name.len()
            )),
            "{}",
            name
        );
    }
}

#[test]
fn unit_named_knows_nothing_else() {
    for name in [
        "", "x", "S", "Ms", "MS", "sEc", "w", "week", "weeks", "mo", "month", "y", "year",
        "years", "se", "seco", "mi", "minu", "mill", "micro", "nano", "da", "ho", "hou", "n",
        "u", "\u{b5}", "\u{3bc}", "s ", " s", "secss", "dayz", "hours.",
    ] {
        assert_eq!(unit_named(name.as_bytes()), None, "{:?}", name);
    }
}

#[test]
fn parse_unit_takes_the_longest_spelling() {
    assert_eq!(parse_unit(b"m"), Ok((Unit::Minutes, 1)));
    assert_eq!(parse_unit(b"ms"), Ok((Unit::Milliseconds, 2)));
    assert_eq!(parse_unit(b"min"), Ok((Unit::Minutes, 3)));
    assert_eq!(parse_unit(b"mins"), Ok((Unit::Minutes, 4)));
    assert_eq!(parse_unit(b"msec"), Ok((Unit::Milliseconds, 4)));
    assert_eq!(parse_unit(b"msecs"), Ok((Unit::Milliseconds, 5)));
    assert_eq!(parse_unit(b"minute"), Ok((Unit::Minutes, 6)));
    assert_eq!(parse_unit(b"minutes"), Ok((Unit::Minutes, 7)));
    assert_eq!(parse_unit(b"millisecond"), Ok((Unit::Milliseconds, 11)));
    assert_eq!(parse_unit(b"milliseconds"), Ok((Unit::Milliseconds, 12)));
    assert_eq!(parse_unit(b"microseconds"), Ok((Unit::Microseconds, 12)));
    assert_eq!(parse_unit(b"nanoseconds"), Ok((Unit::Nanoseconds, 11)));
    assert_eq!(parse_unit(b"s"), Ok((Unit::Seconds, 1)));
    assert_eq!(parse_unit(b"seconds"), Ok((Unit::Seconds, 7)));
    assert_eq!(parse_unit(b"hrs"), Ok((Unit::Hours, 3)));
    assert_eq!(parse_unit(b"hours"), Ok((Unit::Hours, 5)));
    assert_eq!(parse_unit(b"days"), Ok((Unit::Days, 4)));
}

#[test]
fn parse_unit_lets_more_text_follow() {
    assert_eq!(parse_unit(b"h30m"), Ok((Unit::Hours, 1)));
    assert_eq!(parse_unit(b"m 5s"), Ok((Unit::Minutes, 1)));
    assert_eq!(parse_unit(b"minutes5s"), Ok((Unit::Minutes, 7)));
    // A spelling cut short falls back on the longest that is whole.
    assert_eq!(parse_unit(b"minut"), Ok((Unit::Minutes, 3)));
    assert_eq!(parse_unit(b"secon"), Ok((Unit::Seconds, 3)));
    assert_eq!(parse_unit(b"millis"), Ok((Unit::Minutes, 1)));
    assert_eq!(parse_unit(b"dago"), Ok((Unit::Days, 1)));
    assert_eq!(parse_unit(b"hlater"), Ok((Unit::Hours, 1)));
    assert_eq!(parse_unit(b"seconds and more text"), Ok((Unit::Seconds, 7)));
}

#[test]
fn parse_unit_refuses_what_spells_no_unit() {
    assert_eq!(parse_unit(b""), Err(Error::InvalidUnit));
    assert_eq!(parse_unit(b"x"), Err(Error::InvalidUnit));
    assert_eq!(parse_unit(b" s"), Err(Error::InvalidUnit));
    assert_eq!(parse_unit(b"5s"), Err(Error::InvalidUnit));
    assert_eq!(parse_unit(b"S"), Err(Error::InvalidUnit));
    assert_eq!(parse_unit(b"Minutes"), Err(Error::InvalidUnit));
    assert_eq!(parse_unit(b"weeks"), Err(Error::InvalidUnit));
    assert_eq!(parse_unit(b"years"), Err(Error::InvalidUnit));
    assert_eq!(parse_unit(&[0xc2]), Err(Error::InvalidUnit));
    assert_eq!(parse_unit(&[0xc2, 0xb5]), Err(Error::InvalidUnit));
    assert_eq!(parse_unit(&[0xce, 0xbc, b'x']), Err(Error::InvalidUnit));
}

#[test]
fn micro_is_spelled_with_either_sign() {
    assert_eq!(parse_unit(&[0xc2, 0xb5, b's']), Ok((Unit::Microseconds, 3)));
    assert_eq!(parse_unit(&[0xce, 0xbc, b's']), Ok((Unit::Microseconds, 3)));
    assert_eq!(parse_duration("100\u{b5}s").unwrap(), Duration::from_micros(100));
    assert_eq!(parse_duration("100\u{3bc}s").unwrap(), Duration::from_micros(100));
    assert_eq!(
        parse_duration("1s 100 \u{b5}s 3ns").unwrap(),
        Duration::new(1, 100_003)
    );
}

#[test]
fn factors_of_the_units() {
    assert_eq!(Unit::Nanoseconds.factor(), 1);
    assert_eq!(Unit::Microseconds.factor(), 1_000);
    assert_eq!(Unit::Milliseconds.factor(), 1_000_000);
    assert_eq!(Unit::Seconds.factor(), 1_000_000_000);
    assert_eq!(Unit::Minutes.factor(), 60_000_000_000);
    assert_eq!(Unit::Hours.factor(), 3_600_000_000_000);
    assert_eq!(Unit::Days.factor(), 86_400_000_000_000);
}

#[test]
fn scaled_multiplies_within_range() {
    assert_eq!(scaled(Some(0), &Unit::Days), Some(0));
    assert_eq!(scaled(Some(7), &Unit::Nanoseconds), Some(7));
    assert_eq!(scaled(Some(7), &Unit::Minutes), Some(420_000_000_000));
    assert_eq!(scaled(Some(3), &Unit::Days), Some(259_200_000_000_000));
    assert_eq!(scaled(None, &Unit::Nanoseconds), None);
    assert_eq!(scaled(Some(MAX_NANOS), &Unit::Nanoseconds), Some(MAX_NANOS));
    assert_eq!(scaled(Some(MAX_NANOS), &Unit::Microseconds), None);
    // u64::MAX seconds is the most there is; one second more is not.
    assert_eq!(
        scaled(Some(18_446_744_073_709_551_615), &Unit::Seconds),
        Some(18_446_744_073_709_551_615_000_000_000)
    );
    assert_eq!(scaled(Some(18_446_744_073_709_551_616), &Unit::Seconds), None);
    assert_eq!(
        scaled(Some(307_445_734_561_825_860), &Unit::Minutes),
        Some(18_446_744_073_709_551_600_000_000_000)
    );
    assert_eq!(scaled(Some(307_445_734_561_825_861), &Unit::Minutes), None);
}

#[test]
fn plus_adds_within_range() {
    assert_eq!(plus(Some(0), Some(0)), Some(0));
    assert_eq!(plus(Some(500_000_000), Some(50_000)), Some(500_050_000));
    assert_eq!(plus(None, Some(1)), None);
    assert_eq!(plus(Some(1), None), None);
    assert_eq!(plus(None, None), None);
    assert_eq!(plus(Some(MAX_NANOS), Some(0)), Some(MAX_NANOS));
    assert_eq!(plus(Some(MAX_NANOS - 1), Some(1)), Some(MAX_NANOS));
    assert_eq!(plus(Some(MAX_NANOS), Some(1)), None);
    assert_eq!(plus(Some(1), Some(MAX_NANOS)), None);
    assert_eq!(plus(Some(u128::MAX), Some(u128::MAX)), None);
    assert_eq!(plus(Some(u128::MAX), Some(0)), None);
}

#[test]
fn same_compares_byte_for_byte() {
    assert!(same(b"", b""));
    assert!(same(b"ago", b"ago"));
    assert!(!same(b"ago", b"agO"));
    assert!(!same(b"ago", b"ag"));
    assert!(!same(b"ag", b"ago"));
    assert!(!same(b"later", b"lates"));
}

#[test]
fn remaining_is_the_rest_from_a_place() {
    assert_eq!(remaining(b"1h30m", 0), b"1h30m");
    assert_eq!(remaining(b"1h30m", 2), b"30m");
    assert_eq!(remaining(b"1h30m", 5), b"");
    assert_eq!(remaining(b"1h30m", 6), b"");
    assert_eq!(remaining(b"", usize::MAX), b"");
}

#[test]
fn parse_term_reads_one_term() {
    assert_eq!(parse_term(b"5s"), Ok((Some(5_000_000_000), 2)));
    assert_eq!(parse_term(b"  5  s"), Ok((Some(5_000_000_000), 6)));
    assert_eq!(parse_term(b"1h30m"), Ok((Some(3_600_000_000_000), 2)));
    assert_eq!(parse_term(b" 30 minutes 5s"), Ok((Some(1_800_000_000_000), 11)));
    assert_eq!(parse_term(b"5ms"), Ok((Some(5_000_000), 3)));
    assert_eq!(parse_term(b"99999999999999999999s"), Ok((None, 21)));
    assert_eq!(parse_term(b""), Err(Error::InvalidNumber));
    assert_eq!(parse_term(b"   "), Err(Error::InvalidNumber));
    assert_eq!(parse_term(b"ago"), Err(Error::InvalidNumber));
    assert_eq!(parse_term(b"5"), Err(Error::InvalidUnit));
    assert_eq!(parse_term(b"5 "), Err(Error::InvalidUnit));
    assert_eq!(parse_term(b"5 5s"), Err(Error::InvalidUnit));
    assert_eq!(parse_term(b"5x"), Err(Error::InvalidUnit));
}

#[test]
fn duration_from_nanos_splits_seconds_and_nanoseconds() {
    assert_eq!(duration_from_nanos(0), Duration::ZERO);
    assert_eq!(duration_from_nanos(1), Duration::from_nanos(1));
    assert_eq!(duration_from_nanos(999_999_999), Duration::new(0, 999_999_999));
    assert_eq!(duration_from_nanos(1_000_000_000), Duration::new(1, 0));
    assert_eq!(duration_from_nanos(1_500_000_000), Duration::new(1, 500_000_000));
    assert_eq!(duration_from_nanos(MAX_NANOS), Duration::MAX);
    assert_eq!(Duration::MAX.as_nanos(), MAX_NANOS);
}

#[test]
fn parse_works_on_bytes() {
    assert_eq!(parse(b"5s"), Ok(Duration::from_secs(5)));
    assert_eq!(parse(b"1d 12h 30m"), Ok(Duration::from_secs(131_400)));
    assert_eq!(parse(b""), Err(Error::EmptyDurationInput));
    assert_eq!(parse(b"5"), Err(Error::InvalidUnit));
    assert_eq!(parse(b"s"), Err(Error::InvalidNumber));
}

#[test]
fn every_unit_has_its_worth() {
    assert_eq!(parse_duration("1ns").unwrap(), Duration::new(0, 1));
    assert_eq!(parse_duration("1us").unwrap(), Duration::new(0, 1_000));
    assert_eq!(parse_duration("1ms").unwrap(), Duration::new(0, 1_000_000));
    assert_eq!(parse_duration("1s").unwrap(), Duration::new(1, 0));
    assert_eq!(parse_duration("1m").unwrap(), Duration::new(60, 0));
    assert_eq!(parse_duration("1h").unwrap(), Duration::new(3_600, 0));
    assert_eq!(parse_duration("1d").unwrap(), Duration::new(86_400, 0));
    assert_eq!(parse_duration("7d").unwrap(), Duration::new(604_800, 0));
}

#[test]
fn spellings_of_one_unit_agree() {
    let groups: [(&[&str], Duration); 7] = [
        (
            &["ns", "nsec", "nsecs", "nanos", "nanosecond", "nanoseconds"],
            Duration::from_nanos(1_234),
        ),
        (
            &["us", "usec", "usecs", "\u{b5}s", "\u{3bc}s", "microsecond", "microseconds"],
            Duration::from_micros(1_234),
        ),
        (
            &["ms", "msec", "msecs", "millisecond", "milliseconds"],
            Duration::from_millis(1_234),
        ),
        (&["s", "sec", "secs", "second", "seconds"], Duration::from_secs(1_234)),
        (&["m", "min", "mins", "minute", "minutes"], Duration::from_secs(1_234 * 60)),
        (&["h", "hr", "hrs", "hour", "hours"], Duration::from_secs(1_234 * 3_600)),
        (&["d", "day", "days"], Duration::from_secs(1_234 * 86_400)),
    ];
    for (names, expected) in groups {
        for name in names {
            let input = format!("1234{}", name);
            assert_eq!(parse_duration(&input).unwrap(), expected, "{}", input);
        }
    }
}

#[test]
fn concatenation_adds() {
    let whole = parse_duration("1h30m").unwrap();
    let first = parse_duration("1h").unwrap();
    let second = parse_duration("30m").unwrap();
    assert_eq!(whole, first + second);
    assert_eq!(whole, Duration::from_secs(5_400));

    let whole = parse_duration("2d 3h4m 5s6ms7us 8ns").unwrap();
    let first = parse_duration("2d 3h4m").unwrap();
    let second = parse_duration(" 5s6ms7us 8ns").unwrap();
    assert_eq!(whole, first + second);
    assert_eq!(whole, Duration::new(2 * 86_400 + 3 * 3_600 + 4 * 60 + 5, 6_007_008));

    // A unit may come more than once, and in any order.
    assert_eq!(parse_duration("5s5s").unwrap(), Duration::from_secs(10));
    assert_eq!(parse_duration("1s1h1s").unwrap(), Duration::from_secs(3_602));
}

#[test]
fn whitespace_between_the_parts_is_ignored() {
    let expected = Duration::from_secs(5);
    for input in ["5s", "5 s", "5   s", " 5s", "   5   s", "\t5\n\r\x0cs"] {
        assert_eq!(parse_duration(input).unwrap(), expected, "{:?}", input);
    }
    let expected = Duration::from_secs(5_400);
    for input in ["1h30m", "1h 30m", "1 h 30 m", "  1h   30   m", "1h\t30m"] {
        assert_eq!(parse_duration(input).unwrap(), expected, "{:?}", input);
    }
}

#[test]
fn whitespace_behind_the_last_term_is_refused() {
    assert_eq!(parse_duration("5s ").unwrap_err(), Error::InvalidNumber);
    assert_eq!(parse_duration("1h30m\n").unwrap_err(), Error::InvalidNumber);
    assert_eq!(parse_duration(" ").unwrap_err(), Error::InvalidNumber);
}

#[test]
fn whitespace_inside_a_number_or_a_unit_splits_it() {
    // `5 0s` is a `5` with no unit.
    assert_eq!(parse_duration("5 0s").unwrap_err(), Error::InvalidUnit);
    // `5m s` is five minutes and then an `s` with no number.
    assert_eq!(parse_duration("5m s").unwrap_err(), Error::InvalidNumber);
    assert_eq!(parse_duration("5ms").unwrap(), Duration::from_millis(5));
}

#[test]
fn span_errors() {
    assert_eq!(parse_duration("").unwrap_err(), Error::EmptyDurationInput);
    assert_eq!(parse_duration("abc").unwrap_err(), Error::InvalidNumber);
    assert_eq!(parse_duration("s").unwrap_err(), Error::InvalidNumber);
    assert_eq!(parse_duration("-5s").unwrap_err(), Error::InvalidNumber);
    assert_eq!(parse_duration("+5s").unwrap_err(), Error::InvalidNumber);
    assert_eq!(parse_duration("5s ago").unwrap_err(), Error::InvalidNumber);
    assert_eq!(parse_duration("5s,3ms").unwrap_err(), Error::InvalidNumber);
    assert_eq!(parse_duration("5x").unwrap_err(), Error::InvalidUnit);
    assert_eq!(parse_duration("5").unwrap_err(), Error::InvalidUnit);
    assert_eq!(parse_duration("5 ").unwrap_err(), Error::InvalidUnit);
    assert_eq!(parse_duration("1.5s").unwrap_err(), Error::InvalidUnit);
    assert_eq!(parse_duration("5S").unwrap_err(), Error::InvalidUnit);
    assert_eq!(parse_duration("5Sec").unwrap_err(), Error::InvalidUnit);
    assert_eq!(parse_duration("3w").unwrap_err(), Error::InvalidUnit);
    assert_eq!(parse_duration("3weeks").unwrap_err(), Error::InvalidUnit);
    // `3months` is three minutes and then `onths`, which is no number.
    assert_eq!(parse_duration("3months").unwrap_err(), Error::InvalidNumber);
    assert_eq!(parse_duration("3y").unwrap_err(), Error::InvalidUnit);
    assert_eq!(parse_duration("1h 5x").unwrap_err(), Error::InvalidUnit);
}

#[test]
fn the_first_error_is_the_one_reported() {
    assert_eq!(parse_duration("5x abc").unwrap_err(), Error::InvalidUnit);
    assert_eq!(parse_duration("abc 5x").unwrap_err(), Error::InvalidNumber);
    assert_eq!(parse_duration("1h x 5y").unwrap_err(), Error::InvalidNumber);
    // What is wrong with the text is reported before what is wrong with its size.
    assert_eq!(
        parse_duration("99999999999999999999s 5x").unwrap_err(),
        Error::InvalidUnit
    );
}

#[test]
fn spans_up_to_the_longest_duration() {
    assert_eq!(parse_duration("0s").unwrap(), Duration::ZERO);
    assert_eq!(parse_duration("0d0h0m0s").unwrap(), Duration::ZERO);
    assert_eq!(parse_duration("007s").unwrap(), Duration::from_secs(7));
    assert_eq!(
        parse_duration("18446744073709551615s").unwrap(),
        Duration::from_secs(u64::MAX)
    );
    assert_eq!(
        parse_duration("18446744073709551615s 999999999ns").unwrap(),
        Duration::MAX
    );
    assert_eq!(
        parse_duration("18446744073709551615999999999ns").unwrap(),
        Duration::MAX
    );
    // A count may be more than 64 bits hold, as long as the span is in range.
    assert_eq!(
        parse_duration("99999999999999999999ns").unwrap(),
        Duration::new(99_999_999_999, 999_999_999)
    );
    assert_eq!(
        parse_duration("213503982334601d").unwrap(),
        Duration::from_secs(213_503_982_334_601 * 86_400)
    );
}

#[test]
fn spans_beyond_the_longest_duration_are_refused() {
    assert_eq!(
        parse_duration("18446744073709551616s").unwrap_err(),
        Error::InvalidNumber
    );
    assert_eq!(
        parse_duration("18446744073709551615s 1000000000ns").unwrap_err(),
        Error::InvalidNumber
    );
    assert_eq!(
        parse_duration("18446744073709551615s 1s").unwrap_err(),
        Error::InvalidNumber
    );
    assert_eq!(
        parse_duration("99999999999999999999s").unwrap_err(),
        Error::InvalidNumber
    );
    assert_eq!(
        parse_duration("213503982334602d").unwrap_err(),
        Error::InvalidNumber
    );
    assert_eq!(
        parse_duration("99999999999999999999999999999999999999999999999999ns").unwrap_err(),
        Error::InvalidNumber
    );
}

#[test]
fn concrete_spans() {
    assert_eq!(
        parse_duration("500ms 50us").unwrap().as_nanos(),
        500_050_000
    );
    assert_eq!(
        parse_duration("1d 12h 30m").unwrap(),
        Duration::from_secs((24 + 12) * 3_600 + 30 * 60)
    );
    assert_eq!(parse_duration("100 us").unwrap(), Duration::from_micros(100));
}

#[test]
fn messages_of_the_errors() {
    assert_eq!(Error::InvalidUnit.message(), "invalid unit");
    assert_eq!(Error::InvalidNumber.message(), "invalid number");
    assert_eq!(Error::EmptyDurationInput.message(), "empty duration input");
    assert_eq!(Error::InvalidRelativeType.message(), "invalid relative type");
    assert_eq!(Error::EmptyRelativeInput.message(), "empty relative input");
    assert_eq!(Error::MultipleRelativeTypes.message(), "multiple relative types");
}
