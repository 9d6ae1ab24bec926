//! The timestamps of the service, which are not in ISO 8601: a date, a space, a
//! time and the letter `Z`, as in `2011-10-10 13:19:12Z`.
//!
//! The text is parsed by `chrono`. A timestamp carries no time zone.

use vstd::prelude::*;
use chrono::{Datelike, Timelike};
use crate::error::{DecodeError, DecodeErrorView};
use crate::json::{Json, JsonValue};

verus! {

/// The format of a timestamp, in the notation of `chrono`.
pub const TIMESTAMP_FORMAT: &'static str = "%Y-%m-%d %H:%M:%SZ";

/// A date and a time of day, without a time zone.
#[derive(Debug, Clone, Copy, PartialEq, Eq, Structural)]
pub struct Timestamp {
    /// The year of the calendar date.
    pub year: i32,
    /// The month, from 1.
    pub month: u32,
    /// The day of the month, from 1.
    pub day: u32,
    /// The hour, from 0.
    pub hour: u32,
    /// The minute, from 0.
    pub minute: u32,
    /// The second, from 0.
    pub second: u32,
    /// The nanoseconds since the whole second. A leap second adds 1,000,000,000.
    pub nanosecond: u32,
}

impl View for Timestamp {
    type V = Timestamp;

    open spec fn view(&self) -> Timestamp {
        *self
    }
}

impl Timestamp {
    /// Each field is in the range that `chrono` documents for it.
    pub open spec fn in_range(self) -> bool {
        &&& 1 <= self.month <= 12
        &&& 1 <= self.day <= 31
        &&& self.hour <= 23
        &&& self.minute <= 59
        &&& self.second <= 59
        &&& self.nanosecond <= 1_999_999_999
    }

    pub fn year(&self) -> (r: i32)
        ensures
            r == self.year,
    {
        self.year
    }

    pub fn month(&self) -> (r: u32)
        ensures
            r == self.month,
    {
        self.month
    }

    pub fn day(&self) -> (r: u32)
        ensures
            r == self.day,
    {
        self.day
    }

    pub fn hour(&self) -> (r: u32)
        ensures
            r == self.hour,
    {
        self.hour
    }

    pub fn minute(&self) -> (r: u32)
        ensures
            r == self.minute,
    {
        self.minute
    }

    pub fn second(&self) -> (r: u32)
        ensures
            r == self.second,
    {
        self.second
    }
}

/// What `chrono::NaiveDateTime::parse_from_str` makes of a text under a format:
/// the date and time, or the message of the error that it reports.
pub uninterp spec fn parsed_date_time(text: Seq<char>, format: Seq<char>) -> Result<
    Timestamp,
    Seq<char>,
>;

/// `chrono::NaiveDateTime::parse_from_str`: the result is what [`parsed_date_time`]
/// names. The fields of a date and time are those that `Datelike` and `Timelike`
/// give, each in the range that `chrono` documents for it; the message is the
/// error's `to_string()`.
#[verifier::external_body]
fn parse_from_str(text: &str, format: &str) -> (r: Result<Timestamp, String>)
    ensures
        match r {
            Ok(t) => parsed_date_time(text@, format@) == Ok::<Timestamp, Seq<char>>(t)
                && t.in_range(),
            Err(message) => parsed_date_time(text@, format@) == Err::<Timestamp, Seq<char>>(
                message@,
            ),
        },
{
    match chrono::NaiveDateTime::parse_from_str(text, format) {
        Ok(t) => Ok(
            Timestamp {
                year: t.year(),
                month: t.month(),
                day: t.day(),
                hour: t.hour(),
                minute: t.minute(),
                second: t.second(),
                nanosecond: t.nanosecond(),
            },
        ),
        Err(e) => Err(e.to_string()),
    }
}

/// What becomes of a text once the parser has answered: the date and time, or
/// an error that holds the parser's message and the text.
pub open spec fn outcome_of(parsed: Result<Timestamp, Seq<char>>, text: Seq<char>) -> Result<
    Timestamp,
    DecodeErrorView,
> {
    match parsed {
        Ok(t) => Ok(t),
        Err(message) => Err(DecodeErrorView::Timestamp(message, text)),
    }
}

/// The timestamp that a text stands for.
pub open spec fn timestamp_of_text(text: Seq<char>) -> Result<Timestamp, DecodeErrorView> {
    outcome_of(parsed_date_time(text, TIMESTAMP_FORMAT@), text)
}

/// The timestamp that a member of a reply stands for: the member must be a
/// string in the service's format.
pub open spec fn timestamp_of(value: JsonValue, name: Seq<char>) -> Result<
    Timestamp,
    DecodeErrorView,
> {
    match value.as_str() {
        Some(text) => timestamp_of_text(text),
        None => Err(DecodeErrorView::Invalid(name)),
    }
}

/// Tells what becomes of a text once the parser has answered.
pub fn outcome(parsed: Result<Timestamp, String>, text: String) -> (r: Result<
    Timestamp,
    DecodeError,
>)
    ensures
        match r {
            Ok(t) => outcome_of(
                match parsed {
                    Ok(t) => Ok(t),
                    Err(message) => Err(message@),
                },
                text@,
            ) == Ok::<Timestamp, DecodeErrorView>(t),
            Err(e) => outcome_of(
                match parsed {
                    Ok(t) => Ok(t),
                    Err(message) => Err(message@),
                },
                text@,
            ) == Err::<Timestamp, DecodeErrorView>(e@),
        },
{
    match parsed {
        Ok(t) => Ok(t),
        Err(message) => Err(DecodeError::Timestamp(message, text)),
    }
}

/// Parses a timestamp in the service's format. The text is tried once.
pub fn parse(text: String) -> (r: Result<Timestamp, DecodeError>)
    ensures
        match r {
            Ok(t) => timestamp_of_text(text@) == Ok::<Timestamp, DecodeErrorView>(t)
                && t.in_range(),
            Err(e) => timestamp_of_text(text@) == Err::<Timestamp, DecodeErrorView>(e@),
        },
{
    let parsed = parse_from_str(text.as_str(), TIMESTAMP_FORMAT);
    outcome(parsed, text)
}

/// Reads the timestamp that the member `name` of a reply holds, `value` being
/// what the member holds.
pub fn deserialize(value: &Json, name: &str) -> (r: Result<Timestamp, DecodeError>)
    ensures
        match r {
            Ok(t) => timestamp_of(value@, name@) == Ok::<Timestamp, DecodeErrorView>(t)
                && t.in_range(),
            Err(e) => timestamp_of(value@, name@) == Err::<Timestamp, DecodeErrorView>(e@),
        },
{
    match value.as_str() {
        Some(text) => parse(text),
        None => Err(DecodeError::Invalid(name.to_owned())),
    }
}

/// What a parser would return that tries a text a second time where the first
/// attempt failed.
pub open spec fn tried_twice(text: Seq<char>) -> Result<Timestamp, DecodeErrorView> {
    match timestamp_of_text(text) {
        Ok(t) => Ok(t),
        Err(_) => timestamp_of_text(text),
    }
}

/// A text parses to the same result however often it is tried: a second attempt
/// on a text that failed changes nothing, so [`parse`] makes one.
pub proof fn lemma_second_attempt_changes_nothing(text: Seq<char>)
    ensures
        tried_twice(text) == timestamp_of_text(text),
{
}

} // verus!
