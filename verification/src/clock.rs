//! Instants as text, by way of the `chrono` crate.
//!
//! An instant is a number of nanoseconds since the epoch.
use vstd::prelude::*;
use vstd::string::*;

use crate::text;
use crate::text::concat2;

verus! {

/// The pattern of a record: RFC 3339 in UTC with nine fractional digits.
pub const RECORD_PATTERN: &'static str = "%Y-%m-%dT%H:%M:%S%.9fZ";

/// The pattern of a time of day with milliseconds.
pub const TIME_OF_DAY_PATTERN: &'static str = "%H:%M:%S%.3f";

/// The pattern of an instant in a file name.
pub const FILE_NAME_PATTERN: &'static str = "%Y%m%d_%H%M%S";

/// Whether a pattern is one of those in use, all of which `chrono` accepts.
pub open spec fn known_pattern(p: Seq<char>) -> bool {
    p == RECORD_PATTERN@ || p == TIME_OF_DAY_PATTERN@ || p == FILE_NAME_PATTERN@
}

/// An instant in UTC after a pattern, as `chrono` writes it.
pub uninterp spec fn utc_text(ns: i64, pattern: Seq<char>) -> Seq<char>;

/// The last two decimal digits of a number.
pub open spec fn two_digits(n: int) -> Seq<char> {
    seq![text::digit_char((n / 10 % 10) as nat), text::digit_char((n % 10) as nat)]
}

/// The time of day of an instant, with the milliseconds cut off behind three
/// digits: `00:00:00.000` at the epoch.
pub open spec fn day_time(ns: int) -> Seq<char> {
    let ms = ns / 1_000_000;
    two_digits(ms / 3_600_000 % 24).push(':') + two_digits(ms / 60_000 % 60).push(':') + two_digits(
        ms / 1_000 % 60,
    ).push('.') + seq![text::digit_char((ms / 100 % 10) as nat)] + two_digits(ms % 100)
}

/// Whether a zone can be so many seconds ahead of UTC.
pub open spec fn is_offset(secs: int) -> bool {
    -86_400 < secs < 86_400
}

/// Whether a text is the time of day of an instant in some zone.
pub open spec fn shows(ns: i64, s: Seq<char>) -> bool {
    exists|secs: int| #[trigger] is_offset(secs) && s == day_time(ns + secs * 1_000_000_000)
}

/// Whether a text has the shape of a record: a date, a time of day with nine
/// fractional digits, and the mark of UTC.
pub open spec fn is_record(s: Seq<char>) -> bool {
    &&& s.len() == 30
    &&& s[4] == '-'
    &&& s[7] == '-'
    &&& s[10] == 'T'
    &&& s[13] == ':'
    &&& s[16] == ':'
    &&& s[19] == '.'
    &&& s[29] == 'Z'
    &&& forall|i: int|
        0 <= i < 29 && i != 4 && i != 7 && i != 10 && i != 13 && i != 16 && i != 19
            ==> text::is_digit(#[trigger] s[i])
}

/// Whether a text has the shape of a record, with the time of day of an instant
/// in UTC in it.
pub open spec fn is_record_of(ns: i64, s: Seq<char>) -> bool {
    is_record(s) && s.subrange(11, 23) == day_time(ns as int)
}

/// `DateTime::from_timestamp_nanos` and `DateTime::format`: an instant in UTC
/// after a pattern. Every instant of this type is in the range of `chrono`, in
/// years of four digits. A pattern that `chrono` does not know would panic. A
/// record has a fixed width, so that the record of an earlier instant stands
/// before that of a later one, and its time of day is that of the instant.
#[verifier::external_body]
pub(crate) fn format_utc(ns: i64, pattern: &str) -> (r: String)
    requires
        known_pattern(pattern@),
    ensures
        r@ == utc_text(ns, pattern@),
        (match r@ {
            s => pattern@ == RECORD_PATTERN@ ==> is_record_of(ns, s) && (forall|m: i64|
                0 < m <= ns ==> text::at_or_before(#[trigger] utc_text(m, RECORD_PATTERN@), s) && (
                m < ns ==> utc_text(m, RECORD_PATTERN@) != s)),
        }),
{
    chrono::DateTime::from_timestamp_nanos(ns).format(pattern).to_string()
}

/// Whether a text has the shape of a time of day with milliseconds.
pub open spec fn is_time_of_day(s: Seq<char>) -> bool {
    &&& s.len() == 12
    &&& s[2] == ':'
    &&& s[5] == ':'
    &&& s[8] == '.'
    &&& forall|i: int|
        0 <= i < 12 && i != 2 && i != 5 && i != 8 ==> text::is_digit(#[trigger] s[i])
}

/// A time of day has its shape.
pub proof fn day_time_has_its_shape(ns: int)
    ensures
        is_time_of_day(day_time(ns)),
{
    let s = day_time(ns);
    assert(s.len() == 12);
    assert forall|i: int| 0 <= i < 12 && i != 2 && i != 5 && i != 8 implies text::is_digit(
        #[trigger] s[i],
    ) by {
    }
}

proof fn lemma_milliseconds(ns: int)
    ensures
        day_time(ns).subrange(9, 12) == seq![
            text::digit_char((ns / 1_000_000 / 100 % 10) as nat),
        ] + two_digits(ns / 1_000_000 % 100),
{
    let ms = ns / 1_000_000;
    let tail = seq![text::digit_char((ms / 100 % 10) as nat)] + two_digits(ms % 100);
    let head = two_digits(ms / 3_600_000 % 24).push(':') + two_digits(ms / 60_000 % 60).push(':')
        + two_digits(ms / 1_000 % 60).push('.');
    assert(day_time(ns) =~= head + tail);
    assert((head + tail).subrange(9, 12) =~= tail);
}

proof fn lemma_whole_seconds(ns: int, secs: int)
    ensures
        (ns + secs * 1_000_000_000) / 1_000_000 / 100 % 10 == ns / 1_000_000 / 100 % 10,
        (ns + secs * 1_000_000_000) / 1_000_000 % 100 == ns / 1_000_000 % 100,
{
    let ms = ns / 1_000_000;
    vstd::arithmetic::div_mod::lemma_hoist_over_denominator(ns, secs * 1_000, 1_000_000);
    vstd::arithmetic::div_mod::lemma_hoist_over_denominator(ms, secs * 10, 100);
    vstd::arithmetic::div_mod::lemma_mod_multiples_vanish(secs, ms / 100, 10);
    vstd::arithmetic::div_mod::lemma_mod_multiples_vanish(secs * 10, ms, 100);
}

/// A zone changes nothing about the milliseconds of an instant.
pub proof fn zones_share_the_milliseconds(ns: int, secs: int)
    ensures
        day_time(ns + secs * 1_000_000_000).subrange(9, 12) == day_time(ns).subrange(9, 12),
{
    lemma_milliseconds(ns);
    lemma_milliseconds(ns + secs * 1_000_000_000);
    lemma_whole_seconds(ns, secs);
}

/// `DateTime::with_timezone` with `Local`, and `DateTime::format`: an instant in
/// the zone of the machine after a pattern. Which zone that is rests on the
/// machine; whichever it is, it lies a whole number of seconds, less than a day,
/// from UTC, and a time of day is that of the instant in it.
#[verifier::external_body]
pub(crate) fn format_local(ns: i64, pattern: &str) -> (r: String)
    requires
        known_pattern(pattern@),
    ensures
        pattern@ == TIME_OF_DAY_PATTERN@ ==> shows(ns, r@),
{
    chrono::DateTime::from_timestamp_nanos(ns).with_timezone(&chrono::Local).format(pattern).to_string()
}

/// Whether a text is the time of day of a timestamp as a screen shows it: in some
/// zone, or nothing where there is no time.
pub open spec fn is_screen_time(timestamp_ns: i64, s: Seq<char>) -> bool {
    if timestamp_ns <= 0 {
        s.len() == 0
    } else {
        is_time_of_day(s) && shows(timestamp_ns, s)
    }
}

/// Whether a text ends as an instant in a file name does: eight digits of a date,
/// an underscore and six digits of a time. A year beyond the four digits of the
/// date has more characters in front.
pub open spec fn is_file_stamp(s: Seq<char>) -> bool {
    &&& s.len() >= 15
    &&& s[s.len() - 7] == '_'
    &&& forall|i: int|
        s.len() - 15 <= i < s.len() && i != s.len() - 7 ==> text::is_digit(#[trigger] s[i])
}

/// `Local::now` and `DateTime::format`: the present instant in the zone of the
/// machine after a pattern. It rests on the clock, so only the shapes of a time
/// of day and of an instant in a file name are claimed.
#[verifier::external_body]
pub(crate) fn format_now(pattern: &str) -> (r: String)
    requires
        known_pattern(pattern@),
    ensures
        pattern@ == TIME_OF_DAY_PATTERN@ ==> is_time_of_day(r@),
        pattern@ == FILE_NAME_PATTERN@ ==> is_file_stamp(r@),
{
    chrono::Local::now().format(pattern).to_string()
}

/// `Utc::now` and `DateTime::timestamp_nanos_opt`: the present instant, or zero
/// where it is out of range. It rests on the clock, so nothing is claimed of it.
#[verifier::external_body]
pub(crate) fn now_ns() -> i64 {
    chrono::Utc::now().timestamp_nanos_opt().unwrap_or(0)
}

/// What `chrono` makes of a text as an RFC 3339 instant: the instant, nothing
/// where it lies outside the range of this type, or the reason for which the
/// text is none.
pub uninterp spec fn rfc3339_of(s: Seq<char>) -> Result<Option<i64>, Seq<char>>;

/// Whether an instant is the one that a text was written for, where the text is
/// a record.
pub open spec fn reads_back(s: Seq<char>, v: Option<i64>) -> bool {
    forall|ns: i64| 0 < ns && s == #[trigger] utc_text(ns, RECORD_PATTERN@) ==> v == Some(ns)
}

/// `DateTime::parse_from_rfc3339` and `DateTime::timestamp_nanos_opt`: the
/// instant that a text denotes. A record that was written for an instant
/// denotes that instant.
#[verifier::external_body]
pub(crate) fn parse_rfc3339(s: &str) -> (r: Result<Option<i64>, String>)
    ensures
        (match r {
            Ok(v) => rfc3339_of(s@) is Ok && rfc3339_of(s@)->Ok_0 == v,
            Err(e) => rfc3339_of(s@) is Err && rfc3339_of(s@)->Err_0 == e@,
        }),
        (match r {
            Ok(v) => reads_back(s@, v),
            Err(_) => reads_back(s@, None),
        }),
{
    chrono::DateTime::parse_from_rfc3339(s)
        .map(|dt| dt.timestamp_nanos_opt())
        .map_err(|e| e.to_string())
}

/// The instant that a parsed text stands for; zero where it is out of range.
pub open spec fn instant_or_zero(v: Option<i64>) -> i64 {
    match v {
        Some(ns) => ns,
        None => 0,
    }
}

/// The answer to a text that should be an RFC 3339 instant, given what the text
/// was found to be: the instant, or the refusal, which begins with `what`.
pub fn instant_from(
    what: &str,
    s: &str,
    parsed: Result<Option<i64>, String>,
) -> (r: Result<i64, String>)
    ensures
        match (parsed, r) {
            (Ok(v), Ok(ns)) => ns == instant_or_zero(v),
            (Err(e), Err(m)) => m@ == what@ + " '"@ + s@ + "': "@ + e@,
            _ => false,
        },
{
    match parsed {
        Ok(Some(ns)) => Ok(ns),
        Ok(None) => Ok(0),
        Err(e) => {
            let mut m = concat2(what, " '");
            m.append(s);
            m.append("': ");
            m.append(e.as_str());
            Err(m)
        },
    }
}

/// Read an optional RFC 3339 instant.
///
/// Every transport takes the same input; `what` is how it names the value when
/// it refuses it.
pub fn parse_time(what: &str, value: Option<&str>) -> (r: Result<Option<i64>, String>)
    ensures
        match value {
            None => r == Ok::<Option<i64>, String>(None),
            Some(s) => match (rfc3339_of(s@), r) {
                (Ok(v), Ok(Some(ns))) => ns == instant_or_zero(v),
                (Err(e), Err(m)) => m@ == what@ + " '"@ + s@ + "': "@ + e,
                _ => false,
            },
        },
        value matches Some(s) ==> (match r {
            Ok(v) => reads_back(s@, v),
            Err(_) => reads_back(s@, None),
        }),
{
    match value {
        None => Ok(None),
        Some(s) => match instant_from(what, s, parse_rfc3339(s)) {
            Ok(ns) => Ok(Some(ns)),
            Err(m) => Err(m),
        },
    }
}

} // verus!
