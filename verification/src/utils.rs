use vstd::prelude::*;
use crate::models::Timestamp;
use crate::text::chars_of;
use crate::text::push_char;
use crate::text::push_text;

verus! {

/// The text of a field as the console rendering shows it: every line ending
/// (`\r\n`, a lone `\n`, a lone `\r`) becomes the two characters backslash
/// and `n`, and every double quote is doubled.
pub open spec fn escaped_field(s: Seq<char>) -> Seq<char>
    decreases s.len(),
{
    if s.len() == 0 {
        Seq::empty()
    } else if s[0] == '\r' && s.len() >= 2 && s[1] == '\n' {
        seq!['\\', 'n'] + escaped_field(s.skip(2))
    } else if s[0] == '\r' || s[0] == '\n' {
        seq!['\\', 'n'] + escaped_field(s.skip(1))
    } else if s[0] == '"' {
        seq!['"', '"'] + escaped_field(s.skip(1))
    } else {
        seq![s[0]] + escaped_field(s.skip(1))
    }
}

/// Escapes a field for the console rendering, which has no quoting logic of
/// its own.
pub fn escape_csv_field(field: &str) -> (out: String)
    ensures
        out@ == escaped_field(field@),
{
    let chars = chars_of(field);
    let n = chars.len();
    let mut out = String::new();
    let mut i: usize = 0;
    assert(chars@.skip(0) == chars@);
    while i < n
        invariant
            n == chars.len(),
            chars@ == field@,
            i <= n,
            out@ + escaped_field(chars@.skip(i as int)) == escaped_field(chars@),
        decreases n - i,
    {
        let c = chars[i];
        let ghost rest = chars@.skip(i as int);
        let ghost before = out@;
        assert(rest.len() == n - i);
        assert(rest[0] == c);
        if c == '\r' && i + 1 < n && chars[i + 1] == '\n' {
            assert(rest[1] == '\n');
            assert(rest.skip(2) == chars@.skip(i + 2));
            push_char(&mut out, '\\');
            push_char(&mut out, 'n');
            assert(out@ == before + seq!['\\', 'n']);
            i += 2;
        } else if c == '\r' || c == '\n' {
            assert(rest.skip(1) == chars@.skip(i + 1));
            push_char(&mut out, '\\');
            push_char(&mut out, 'n');
            assert(out@ == before + seq!['\\', 'n']);
            i += 1;
        } else if c == '"' {
            assert(rest.skip(1) == chars@.skip(i + 1));
            push_char(&mut out, '"');
            push_char(&mut out, '"');
            assert(out@ == before + seq!['"', '"']);
            i += 1;
        } else {
            assert(rest.skip(1) == chars@.skip(i + 1));
            push_char(&mut out, c);
            assert(out@ == before + seq![c]);
            i += 1;
        }
    }
    assert(chars@.skip(n as int) == Seq::<char>::empty());
    out
}

/// The whole seconds of the time span that a text denotes for
/// `humantime::parse_duration` ("1 week", "2h 37min"); `None` where it
/// rejects the text.
pub uninterp spec fn duration_seconds(text: Seq<char>) -> Option<u64>;

/// The epoch second of the instant that a text denotes for
/// `chrono::DateTime::parse_from_rfc3339`; `None` where it rejects the text.
pub uninterp spec fn rfc3339_seconds(text: Seq<char>) -> Option<i64>;

/// The epoch second of the date and time that a text denotes for
/// `chrono::NaiveDateTime::parse_from_str` under a format, read as UTC;
/// `None` where it rejects the text.
pub uninterp spec fn naive_datetime_seconds(text: Seq<char>, format: Seq<char>) -> Option<i64>;

/// The epoch second of a time of day, taken as UTC, on the date that a text
/// denotes for `chrono::NaiveDate::parse_from_str` under a format; `None`
/// where it rejects the text or where there is no such time of day.
pub uninterp spec fn naive_date_seconds(
    text: Seq<char>,
    format: Seq<char>,
    hour: u32,
    minute: u32,
    second: u32,
) -> Option<i64>;

/// The most decimal digits that a text may hold to be read as a time span.
pub const MAX_SPAN_DIGITS: usize = 11;

/// The predicate "is one of the decimal digits `0` to `9`".
pub open spec fn is_decimal_digit() -> spec_fn(char) -> bool {
    |c: char| '0' <= c && c <= '9'
}

/// How many decimal digits a text holds.
pub open spec fn digit_count(text: Seq<char>) -> nat {
    text.filter(is_decimal_digit()).len()
}

/// The whole seconds of the time span that a text is read as: what
/// `humantime::parse_duration` makes of a text of at most
/// [`MAX_SPAN_DIGITS`] decimal digits. A text with more digits is no time
/// span.
pub open spec fn span_seconds(text: Seq<char>) -> Option<u64> {
    if digit_count(text) <= MAX_SPAN_DIGITS {
        duration_seconds(text)
    } else {
        None
    }
}

/// Parses a time span with `humantime::parse_duration` and takes its whole
/// seconds (`Duration::as_secs`). The result is named [`duration_seconds`].
///
/// humantime checks every sum but one: where the parts of a span add up to
/// `u64::MAX` seconds and a whole second of nanoseconds on top, building
/// the duration panics. Every number of the text counts for at most
/// 31,557,600 seconds a unit, so a text of at most [`MAX_SPAN_DIGITS`]
/// digits stays far below that, and `requires` admits no other.
#[verifier::external_body]
fn parse_duration_seconds(text: &str) -> (r: Option<u64>)
    requires
        digit_count(text@) <= MAX_SPAN_DIGITS,
    ensures
        r == duration_seconds(text@),
{
    humantime::parse_duration(text).ok().map(|span| span.as_secs())
}

/// Parses a date and time with `chrono::DateTime::parse_from_rfc3339` and
/// takes its epoch second (`DateTime::timestamp`). The result is named
/// [`rfc3339_seconds`].
#[verifier::external_body]
fn parse_rfc3339_seconds(text: &str) -> (r: Option<i64>)
    ensures
        r == rfc3339_seconds(text@),
{
    chrono::DateTime::parse_from_rfc3339(text).ok().map(|instant| instant.timestamp())
}

/// Parses a date and time without zone with
/// `chrono::NaiveDateTime::parse_from_str`, reads it as UTC
/// (`NaiveDateTime::and_utc`) and takes its epoch second. The result is
/// named [`naive_datetime_seconds`].
#[verifier::external_body]
fn parse_naive_datetime_seconds(text: &str, format: &str) -> (r: Option<i64>)
    ensures
        r == naive_datetime_seconds(text@, format@),
{
    chrono::NaiveDateTime::parse_from_str(text, format).ok().map(|t| t.and_utc().timestamp())
}

/// Parses a date with `chrono::NaiveDate::parse_from_str`, takes the given
/// time of that day (`NaiveDate::and_hms_opt`) as UTC and its epoch second.
/// The result is named [`naive_date_seconds`].
#[verifier::external_body]
fn parse_naive_date_seconds(text: &str, format: &str, hour: u32, minute: u32, second: u32) -> (r:
    Option<i64>)
    ensures
        r == naive_date_seconds(text@, format@, hour, minute, second),
{
    chrono::NaiveDate::parse_from_str(text, format).ok().and_then(
        |day| day.and_hms_opt(hour, minute, second),
    ).map(|t| t.and_utc().timestamp())
}

#[verifier::external_type_specification]
#[verifier::external_body]
pub struct ExSystemTime(std::time::SystemTime);

/// `SystemTime::now`: the reading of the system clock. Nothing is claimed of
/// it.
#[verifier::external_body]
fn system_time_now() -> std::time::SystemTime {
    std::time::SystemTime::now()
}

/// `SystemTime::duration_since` the Unix epoch: the time that has passed
/// since, or `None` where `time` lies before the epoch.
#[verifier::external_body]
fn since_unix_epoch(time: &std::time::SystemTime) -> Option<std::time::Duration> {
    time.duration_since(std::time::UNIX_EPOCH).ok()
}

/// `Duration::as_secs`: the whole seconds of a time span.
#[verifier::external_body]
fn whole_seconds(span: &std::time::Duration) -> u64 {
    span.as_secs()
}

/// The system clock in whole seconds since the Unix epoch; `None` where it
/// stands before the epoch.
fn epoch_seconds_now() -> Option<u64> {
    let now = system_time_now();
    match since_unix_epoch(&now) {
        Some(span) => Some(whole_seconds(&span)),
        None => None,
    }
}

/// Why an age could not be turned into a timestamp.
#[derive(Debug)]
pub enum ParseError {
    /// The text is neither a time span nor a date; `input` is the text.
    Unrecognized { input: String },
    /// The text is a time span, but the system clock gave no time to count
    /// back from.
    ClockUnavailable,
}

/// The format of a date and time without zone.
pub const DATE_TIME_FORMAT: &'static str = "%Y-%m-%d %H:%M:%S";

/// The format of a plain date.
pub const DATE_FORMAT: &'static str = "%Y-%m-%d";

/// The first of the three absolute readings that is there: a timestamp with
/// zone, then a date and time without zone, then a plain date.
pub open spec fn first_reading(
    timestamped: Option<i64>,
    date_time: Option<i64>,
    date: Option<i64>,
) -> Option<Timestamp> {
    match (timestamped, date_time, date) {
        (Some(t), _, _) => Some(t as Timestamp),
        (None, Some(t), _) => Some(t as Timestamp),
        (None, None, Some(t)) => Some(t as Timestamp),
        (None, None, None) => None,
    }
}

/// The epoch second that a text denotes as an absolute date.
pub open spec fn absolute_seconds(text: Seq<char>) -> Option<Timestamp> {
    first_reading(
        rfc3339_seconds(text),
        naive_datetime_seconds(text, DATE_TIME_FORMAT@),
        naive_date_seconds(text, DATE_FORMAT@, 0, 0, 0),
    )
}

/// Whether `result` is what an age resolves to. A time span wins over a
/// date and gives the clock reading less the span; without a clock reading
/// it fails. Without a span the absolute date is the result, and without
/// either the text is unrecognized.
pub open spec fn is_resolved_age(
    result: Result<Timestamp, ParseError>,
    input: Seq<char>,
    relative: Option<u64>,
    now: Option<u64>,
    absolute: Option<Timestamp>,
) -> bool {
    match (relative, now, absolute) {
        (Some(span), Some(clock), _) => result == Ok::<Timestamp, ParseError>(
            (clock - span) as Timestamp,
        ),
        (Some(_), None, _) => result matches Err(ParseError::ClockUnavailable),
        (None, _, Some(t)) => result == Ok::<Timestamp, ParseError>(t),
        (None, _, None) => result matches Err(ParseError::Unrecognized { input: text }) && text@
            == input,
    }
}

/// Counts the decimal digits of a text.
pub fn count_digits(text: &str) -> (n: usize)
    ensures
        n == digit_count(text@),
{
    let chars = chars_of(text);
    let mut n: usize = 0;
    let mut i: usize = 0;
    proof {
        reveal(Seq::filter);
        assert(chars@.take(0) == Seq::<char>::empty());
    }
    while i < chars.len()
        invariant
            i <= chars.len(),
            n <= i,
            n == digit_count(chars@.take(i as int)),
        decreases chars.len() - i,
    {
        let c = chars[i];
        proof {
            assert(chars@.take(i + 1) == chars@.take(i as int).push(c));
            chars@.take(i as int).lemma_filter_push(c, is_decimal_digit());
        }
        if '0' <= c && c <= '9' {
            n += 1;
        }
        i += 1;
    }
    assert(chars@.take(chars.len() as int) == chars@);
    n
}

/// Reads a text as a time span and gives its whole seconds. A text with
/// more than [`MAX_SPAN_DIGITS`] decimal digits is not read as one.
pub fn parse_time_span(text: &str) -> (r: Option<u64>)
    ensures
        r == span_seconds(text@),
{
    if count_digits(text) <= MAX_SPAN_DIGITS {
        parse_duration_seconds(text)
    } else {
        None
    }
}

/// Picks the first absolute reading that is there.
pub fn first_absolute(timestamped: Option<i64>, date_time: Option<i64>, date: Option<i64>) -> (r:
    Option<Timestamp>)
    ensures
        r == first_reading(timestamped, date_time, date),
{
    match timestamped {
        Some(t) => Some(t as i128),
        None => match date_time {
            Some(t) => Some(t as i128),
            None => match date {
                Some(t) => Some(t as i128),
                None => None,
            },
        },
    }
}

/// Resolves an age from what its text was read as: the seconds of a time
/// span, the clock reading to count back from, and the epoch second of an
/// absolute date.
pub fn resolve_age(
    input: &str,
    relative: Option<u64>,
    now: Option<u64>,
    absolute: Option<Timestamp>,
) -> (r: Result<Timestamp, ParseError>)
    ensures
        is_resolved_age(r, input@, relative, now, absolute),
{
    match relative {
        Some(span) => match now {
            Some(clock) => Ok(clock as i128 - span as i128),
            None => Err(ParseError::ClockUnavailable),
        },
        None => match absolute {
            Some(t) => Ok(t),
            None => Err(ParseError::Unrecognized { input: input.to_owned() }),
        },
    }
}

/// Reads a text as an absolute date: a timestamp with zone (RFC 3339), a
/// date and time `YYYY-MM-DD HH:MM:SS` taken as UTC, or a date `YYYY-MM-DD`
/// taken at the start of the day in UTC; the first that fits wins.
pub fn parse_absolute_age(age_str: &str) -> (r: Option<Timestamp>)
    ensures
        r == absolute_seconds(age_str@),
{
    first_absolute(
        parse_rfc3339_seconds(age_str),
        parse_naive_datetime_seconds(age_str, DATE_TIME_FORMAT),
        parse_naive_date_seconds(age_str, DATE_FORMAT, 0, 0, 0),
    )
}

/// Turns an age into a timestamp, counting a time span back from `now`.
pub fn parse_age_at(age_str: &str, now: u64) -> (r: Result<Timestamp, ParseError>)
    ensures
        is_resolved_age(
            r,
            age_str@,
            span_seconds(age_str@),
            Some(now),
            absolute_seconds(age_str@),
        ),
{
    let relative = parse_time_span(age_str);
    resolve_age(age_str, relative, Some(now), parse_absolute_age(age_str))
}

/// Turns an age into the timestamp of the bound that it stands for.
///
/// The text is read, in this order, as a time span ("1 week", "2 years"),
/// which counts back from the system clock; as a timestamp with zone; as a
/// date and time without zone, taken as UTC; as a plain date, taken at the
/// start of the day in UTC. A text with more than [`MAX_SPAN_DIGITS`]
/// decimal digits is not read as a time span.
///
/// The bound is used by the age filters with the comparison that the
/// filter's name implies for ages, not for dates: under a minimum age an
/// item passes when it was created at or before the bound, under a maximum
/// age when it was created at or after it.
pub fn parse_age_to_timestamp(age_str: &str) -> (r: Result<Timestamp, ParseError>)
    ensures
        exists|now: Option<u64>|
            is_resolved_age(
                r,
                age_str@,
                span_seconds(age_str@),
                now,
                absolute_seconds(age_str@),
            ),
        span_seconds(age_str@) is None ==> is_resolved_age(
            r,
            age_str@,
            None,
            None,
            absolute_seconds(age_str@),
        ),
{
    let relative = parse_time_span(age_str);
    let now = match relative {
        Some(_) => epoch_seconds_now(),
        None => None,
    };
    let r = resolve_age(age_str, relative, now, parse_absolute_age(age_str));
    assert(is_resolved_age(
        r,
        age_str@,
        span_seconds(age_str@),
        now,
        absolute_seconds(age_str@),
    ));
    r
}

impl ParseError {
    /// What the error reads like.
    pub open spec fn message_text(self) -> Seq<char> {
        match self {
            ParseError::Unrecognized { input } => "Could not parse '"@ + input@
                + "' as either a duration (e.g., '1 week') or a date (e.g., '2024-01-15')"@,
            ParseError::ClockUnavailable => "The system clock is set before the Unix epoch"@,
        }
    }

    /// The message to show for the error.
    pub fn message(&self) -> (out: String)
        ensures
            out@ == self.message_text(),
    {
        let mut out = String::new();
        match self {
            ParseError::Unrecognized { input } => {
                push_text(&mut out, "Could not parse '");
                push_text(&mut out, input.as_str());
                push_text(
                    &mut out,
                    "' as either a duration (e.g., '1 week') or a date (e.g., '2024-01-15')",
                );
            },
            ParseError::ClockUnavailable => {
                push_text(&mut out, "The system clock is set before the Unix epoch");
            },
        }
        out
    }
}

} // verus!
