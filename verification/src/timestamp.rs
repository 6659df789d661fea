//! Deadlines: the three textual shapes in which one is typed, how a typed text
//! becomes a point in time, and how the time that is left is worded.

use vstd::prelude::*;
use crate::text::{push_char, push_decimal, push_text, signed_decimal};

verus! {

/// Seconds in a minute, an hour, a day and a week.
pub const MINUTE: u128 = 60;

pub const HOUR: u128 = 3600;

pub const DAY: u128 = 86400;

pub const WEEK: u128 = 604800;

/// The pattern of a date alone, `YYYY-MM-DD`.
pub const DATE_PATTERN: &'static str = "^\\d{4}-\\d{2}-\\d{2}$";

/// The pattern of a time alone, `HH:MM:SS`.
pub const TIME_PATTERN: &'static str = "^\\d{2}:\\d{2}:\\d{2}$";

/// The pattern of a date and a time, `YYYY-MM-DD HH:MM:SS`.
pub const DATE_TIME_PATTERN: &'static str = "^\\d{4}-\\d{2}-\\d{2} \\d{2}:\\d{2}:\\d{2}$";

/// The layout in which a normalised deadline is read.
pub const DATE_TIME_LAYOUT: &'static str = "%Y-%m-%d %H:%M:%S";

/// The time of day that a date alone stands for.
pub const MIDNIGHT: &'static str = " 00:00:00";

/// Whether the regular expression `pattern` matches somewhere in `text`;
/// `None` where `pattern` is no regular expression.
pub uninterp spec fn pattern_match(pattern: Seq<char>, text: Seq<char>) -> Option<bool>;

/// Tests a text against a regular expression. Trusted: `regex::Regex::new`
/// followed by `Regex::is_match`. Both depend on the pattern and the text
/// alone, so the contract only gives the outcome its name; a pattern that
/// does not compile gives `None` where compiling it reports an error.
#[verifier::external_body]
pub(crate) fn match_pattern(pattern: &str, text: &str) -> (found: Option<bool>)
    ensures
        found == pattern_match(pattern@, text@),
{
    match regex::Regex::new(pattern) {
        Ok(expression) => Some(expression.is_match(text)),
        Err(_) => None,
    }
}

/// The date and time of day that `text` names where it is written
/// `YYYY-MM-DD HH:MM:SS`, in seconds since the Unix epoch as if the time
/// were UTC; `None` where it names none.
pub uninterp spec fn parsed_datetime(text: Seq<char>) -> Option<i64>;

/// Reads a date and time written as `YYYY-MM-DD HH:MM:SS`. Trusted:
/// `chrono::NaiveDateTime::parse_from_str` with that layout, whose value is
/// handed on as seconds since the Unix epoch by `NaiveDateTime::and_utc` and
/// `DateTime::timestamp`; `None` where it reports an error. The outcome
/// depends on the text alone, so the contract only gives it its name.
#[verifier::external_body]
pub(crate) fn parse_naive(text: &str) -> (parsed: Option<i64>)
    ensures
        parsed == parsed_datetime(text@),
{
    match chrono::NaiveDateTime::parse_from_str(text, DATE_TIME_LAYOUT) {
        Ok(naive) => Some(naive.and_utc().timestamp()),
        Err(_) => None,
    }
}

/// Whether `moment` can be the point in time that the date and time `naive`
/// denote in a time zone: the two are less than a day apart, as every time
/// zone is less than a day from UTC.
pub open spec fn zone_fits(naive: i64, moment: i64) -> bool {
    -(DAY as int) < moment - naive < DAY as int
}

/// The point in time, in seconds since the Unix epoch, that a date and time
/// of day denote in the time zone of this machine; the date and time are
/// given in seconds as if they were UTC. Trusted: `chrono::DateTime::from_timestamp`
/// and `DateTime::naive_utc` to hand the date and time over, then
/// `chrono::TimeZone::from_local_datetime` of `chrono::Local` and
/// `DateTime::timestamp`; `None` where the local time does not exist or
/// exists twice. Which moment comes out depends on the machine's time zone.
/// Claimed of every outcome: the moment is the date and time less the
/// zone's offset, and chrono makes no offset of a day or more. Not proved:
/// chrono stops the program where the zone data of the machine gives it no
/// offset for the moment asked about.
#[verifier::external_body]
pub(crate) fn resolve_local(naive: i64) -> (seconds: Option<i64>)
    ensures
        match seconds {
            Some(moment) => zone_fits(naive, moment),
            None => true,
        },
{
    match chrono::DateTime::from_timestamp(naive, 0) {
        Some(utc) => match chrono::TimeZone::from_local_datetime(&chrono::Local, &utc.naive_utc()) {
            chrono::LocalResult::Single(moment) => Some(moment.timestamp()),
            chrono::LocalResult::Ambiguous(_, _) => None,
            chrono::LocalResult::None => None,
        },
        None => None,
    }
}

/// The present moment in seconds since the Unix epoch. Trusted:
/// `chrono::Utc::now`, then `DateTime::timestamp`. Nothing is claimed of it.
/// Not proved: chrono stops the program where the clock of the machine is
/// set before the epoch.
#[verifier::external_body]
pub(crate) fn now_timestamp() -> (seconds: i64)
{
    chrono::Utc::now().timestamp()
}

/// Today's date in the time zone of this machine, written `YYYY-MM-DD`.
/// Trusted: `chrono::Local::now`, `DateTime::date_naive` and the `Display`
/// of `NaiveDate`. Nothing is claimed of it. Not proved: chrono stops the
/// program where the clock is set before the epoch or the zone data of the
/// machine gives it no offset for the present moment.
#[verifier::external_body]
pub(crate) fn today_text() -> (date: String)
{
    chrono::Local::now().date_naive().to_string()
}

/// The shape of a typed deadline.
#[derive(Debug, Clone, Copy, PartialEq, Eq, Structural)]
pub enum TimestampShape {
    /// `YYYY-MM-DD`: midnight of that day.
    DateOnly,
    /// `HH:MM:SS`: that time today.
    TimeOnly,
    /// `YYYY-MM-DD HH:MM:SS`.
    DateAndTime,
    /// Anything else: no deadline.
    Unrecognized,
}

/// The shape that the outcomes of the three pattern tests stand for. The date
/// is asked first, then the time, then both; a test that did not match, or
/// that could not be made, passes the question on.
pub open spec fn shape_from(date: Option<bool>, time: Option<bool>, both: Option<bool>)
    -> TimestampShape {
    if date == Some(true) {
        TimestampShape::DateOnly
    } else if time == Some(true) {
        TimestampShape::TimeOnly
    } else if both == Some(true) {
        TimestampShape::DateAndTime
    } else {
        TimestampShape::Unrecognized
    }
}

/// The shape of `text`.
pub open spec fn shape_of(text: Seq<char>) -> TimestampShape {
    shape_from(
        pattern_match(DATE_PATTERN@, text),
        pattern_match(TIME_PATTERN@, text),
        pattern_match(DATE_TIME_PATTERN@, text),
    )
}

/// The text `YYYY-MM-DD HH:MM:SS` that a typed deadline of a given shape
/// stands for, where `today` is today's date; `None` for a text of no shape.
pub open spec fn normal_form(shape: TimestampShape, text: Seq<char>, today: Seq<char>) -> Option<
    Seq<char>,
> {
    match shape {
        TimestampShape::DateOnly => Some(text + MIDNIGHT@),
        TimestampShape::TimeOnly => Some(today + " "@ + text),
        TimestampShape::DateAndTime => Some(text),
        TimestampShape::Unrecognized => None,
    }
}

impl TimestampShape {
    /// The shape that the outcomes of the three pattern tests stand for.
    pub fn from_matches(date: Option<bool>, time: Option<bool>, both: Option<bool>) -> (shape:
        TimestampShape)
        ensures
            shape == shape_from(date, time, both),
    {
        if is_match(date) {
            TimestampShape::DateOnly
        } else if is_match(time) {
            TimestampShape::TimeOnly
        } else if is_match(both) {
            TimestampShape::DateAndTime
        } else {
            TimestampShape::Unrecognized
        }
    }

    /// The shape of `text`: the first of the three patterns that matches it.
    pub fn classify(text: &str) -> (shape: TimestampShape)
        ensures
            shape == shape_of(text@),
    {
        let date = match_pattern(DATE_PATTERN, text);
        let time = match_pattern(TIME_PATTERN, text);
        let both = match_pattern(DATE_TIME_PATTERN, text);
        TimestampShape::from_matches(date, time, both)
    }

    /// Writes a typed deadline of this shape out in full.
    pub fn normalize(self, text: &str, today: &str) -> (full: Option<String>)
        ensures
            full is Some <==> !(self is Unrecognized),
            match full {
                Some(s) => Some(s@) == normal_form(self, text@, today@),
                None => normal_form(self, text@, today@) is None,
            },
    {
        match self {
            TimestampShape::DateOnly => {
                let mut full = String::new();
                push_text(&mut full, text);
                push_text(&mut full, MIDNIGHT);
                assert(full@ == text@ + MIDNIGHT@);
                Some(full)
            },
            TimestampShape::TimeOnly => {
                let mut full = String::new();
                push_text(&mut full, today);
                push_text(&mut full, " ");
                push_text(&mut full, text);
                assert(full@ == today@ + " "@ + text@);
                Some(full)
            },
            TimestampShape::DateAndTime => {
                let mut full = String::new();
                push_text(&mut full, text);
                assert(full@ == text@);
                Some(full)
            },
            TimestampShape::Unrecognized => None,
        }
    }
}

fn is_match(found: Option<bool>) -> (yes: bool)
    ensures
        yes == (found == Some(true)),
{
    match found {
        Some(b) => b,
        None => false,
    }
}

/// Whether `expiry` can be the deadline that the typed `text` sets on a day
/// whose date is `today`. No deadline always can. A moment can only where
/// the text has one of the three shapes and, written out in full, names a
/// date and time of day; and then the moment lies less than a day from that
/// date and time read as UTC.
pub open spec fn deadline_fits(text: Seq<char>, today: Seq<char>, expiry: Option<i64>) -> bool {
    match expiry {
        None => true,
        Some(moment) => match normal_form(shape_of(text), text, today) {
            Some(full) => match parsed_datetime(full) {
                Some(naive) => zone_fits(naive, moment),
                None => false,
            },
            None => false,
        },
    }
}

/// The deadline that a typed text sets, in seconds since the Unix epoch, in
/// the time zone of this machine. The text is written out in full, a time
/// alone with today's date before it and a date alone with midnight after
/// it; what that names is read as a date and time of day, and the moment is
/// the one that they denote in the time zone of this machine. A text of none
/// of the three shapes sets no deadline, and neither does one that names no
/// moment (the thirtieth of February, an hour that a change of clocks skips
/// or repeats). Whether a date and time that the text does name is a moment
/// here is for the time zone to say, so no deadline is promised.
pub fn expiry_of(text: &str) -> (expiry: Option<i64>)
    ensures
        shape_of(text@) is Unrecognized ==> expiry is None,
        shape_of(text@) is TimeOnly ==> exists|today: Seq<char>| #[trigger]
            deadline_fits(text@, today, expiry),
        !(shape_of(text@) is TimeOnly) ==> deadline_fits(text@, Seq::empty(), expiry),
{
    let shape = TimestampShape::classify(text);
    let today = match shape {
        TimestampShape::TimeOnly => today_text(),
        _ => String::new(),
    };
    let expiry = match shape.normalize(text, today.as_str()) {
        Some(full) => match parse_naive(full.as_str()) {
            Some(naive) => resolve_local(naive),
            None => None,
        },
        None => None,
    };
    assert(deadline_fits(text@, today@, expiry));
    expiry
}

/// Whether a deadline has passed at the moment `now`.
pub open spec fn is_past(expiry: Option<i64>, now: i64) -> bool {
    match expiry {
        Some(moment) => moment < now,
        None => false,
    }
}

/// Whether a deadline has passed at the moment `now`; with no deadline,
/// nothing is ever late.
pub fn past(expiry: Option<i64>, now: i64) -> (late: bool)
    ensures
        late == is_past(expiry, now),
{
    match expiry {
        Some(moment) => moment < now,
        None => false,
    }
}

/// The size of a number without its sign.
pub open spec fn magnitude(n: int) -> nat {
    if n < 0 {
        (-n) as nat
    } else {
        n as nat
    }
}

/// One part of a worded span of time: the amount, with a minus sign where the
/// span is negative and the amount is not zero, and then the unit.
pub open spec fn component(negative: bool, amount: nat, unit: Seq<char>) -> Seq<char> {
    signed_decimal(
        if negative {
            -(amount as int)
        } else {
            amount as int
        },
    ) + unit
}

/// The part of a span of time for one unit, which is worded only where the
/// whole span is at least one such unit long.
pub open spec fn part(total: nat, negative: bool, rest: nat, unit: nat, name: Seq<char>) -> Seq<
    char,
> {
    if total >= unit {
        component(negative, rest / unit, name)
    } else {
        Seq::empty()
    }
}

/// What is left of a span of time after the part for one unit is taken out.
pub open spec fn rest_after(total: nat, rest: nat, unit: nat) -> nat {
    if total >= unit {
        rest % unit
    } else {
        rest
    }
}

/// A span of `seconds` in words: weeks, days, hours and minutes, each only
/// where the span is at least that long, and then the seconds. Each amount is
/// what the larger units leave over; in a negative span every amount but zero
/// is negative.
pub open spec fn offset_text(seconds: int) -> Seq<char> {
    let total = magnitude(seconds);
    let negative = seconds < 0;
    let after_weeks = rest_after(total, total, WEEK as nat);
    let after_days = rest_after(total, after_weeks, DAY as nat);
    let after_hours = rest_after(total, after_days, HOUR as nat);
    let after_minutes = rest_after(total, after_hours, MINUTE as nat);
    part(total, negative, total, WEEK as nat, " week, "@) + part(
        total,
        negative,
        after_weeks,
        DAY as nat,
        " day, "@,
    ) + part(total, negative, after_days, HOUR as nat, " hour, "@) + part(
        total,
        negative,
        after_hours,
        MINUTE as nat,
        " minute, "@,
    ) + component(negative, after_minutes, " second "@)
}

fn push_component(out: &mut String, negative: bool, amount: u128, unit: &str)
    ensures
        final(out)@ == old(out)@ + component(negative, amount as nat, unit@),
{
    if negative && amount != 0 {
        push_char(out, '-');
        assert(old(out)@.push('-') == old(out)@ + seq!['-']);
    }
    push_decimal(out, amount);
    push_text(out, unit);
    assert(out@ == old(out)@ + component(negative, amount as nat, unit@));
}

fn push_part(out: &mut String, total: u128, negative: bool, rest: u128, unit: u128, name: &str) -> (left:
    u128)
    requires
        unit > 0,
    ensures
        final(out)@ == old(out)@ + part(total as nat, negative, rest as nat, unit as nat, name@),
        left == rest_after(total as nat, rest as nat, unit as nat),
{
    if total >= unit {
        push_component(out, negative, rest / unit, name);
        rest % unit
    } else {
        assert(out@ == out@ + Seq::<char>::empty());
        rest
    }
}

/// Words the time from `now` to `expiry`, both in seconds since the Unix epoch.
pub fn time_offset_text(expiry: i64, now: i64) -> (words: String)
    ensures
        words@ == offset_text(expiry - now),
{
    let span: i128 = expiry as i128 - now as i128;
    let negative = span < 0;
    let total: u128 = if negative {
        (-span) as u128
    } else {
        span as u128
    };
    let mut words = String::new();
    let after_weeks = push_part(&mut words, total, negative, total, WEEK, " week, ");
    let after_days = push_part(&mut words, total, negative, after_weeks, DAY, " day, ");
    let after_hours = push_part(&mut words, total, negative, after_days, HOUR, " hour, ");
    let after_minutes = push_part(&mut words, total, negative, after_hours, MINUTE, " minute, ");
    push_component(&mut words, negative, after_minutes, " second ");
    assert(words@ == offset_text(expiry - now));
    words
}

} // verus!
