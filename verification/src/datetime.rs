//! Points in time as the service writes them: in full, with time and zone,
//! or as a day alone, which is taken as the start of that day in UTC.
use vstd::prelude::*;
use vstd::string::*;
use crate::error::Error;
use crate::util::to_signed_decimal;

verus! {

/// A point in time, in UTC: the seconds since the start of 1970, and the
/// nanoseconds into that second.
#[derive(PartialEq, Eq, Structural, Debug, Copy, Clone)]
pub struct DateTime {
    /// whole seconds since 1970-01-01T00:00:00Z; negative before it
    pub secs: i64,
    /// nanoseconds since the start of the second
    pub nanos: u32,
}

/// The seconds of a day.
pub const SECONDS_PER_DAY: i64 = 86400;

/// The day that a text writes as year, month and day with hyphens between
/// them, counted in days from 1 January 1970; none where it writes no day.
pub uninterp spec fn day_of(s: Seq<char>) -> Option<i64>;

/// The point in time that a text writes in full, with time and zone; none
/// where it writes none.
pub uninterp spec fn instant_of(s: Seq<char>) -> Option<(i64, u32)>;

/// The text that shows a point in time; none where the calendar does not
/// reach it.
pub uninterp spec fn instant_text(secs: i64, nanos: u32) -> Option<Seq<char>>;

/// `NaiveDate::parse_from_str` with the format `%Y-%m-%d`, and the whole
/// days from `NaiveDate::default()`, which is 1 January 1970, to the day read,
/// by `signed_duration_since` and `num_days`: a function of the text alone.
#[verifier::external_body]
fn parse_day(s: &str) -> (r: Option<i64>)
    ensures
        r == day_of(s@),
{
    chrono::NaiveDate::parse_from_str(s, "%Y-%m-%d").ok().map(
        |d| d.signed_duration_since(chrono::NaiveDate::default()).num_days(),
    )
}

/// `str::parse` to a `chrono::DateTime<FixedOffset>`, and of the point in
/// time read its `timestamp` and `timestamp_subsec_nanos`, which count from
/// 1970 in UTC whatever the zone of the text: a function of the text alone.
#[verifier::external_body]
fn parse_instant(s: &str) -> (r: Option<(i64, u32)>)
    ensures
        r == instant_of(s@),
{
    s.parse::<chrono::DateTime<chrono::FixedOffset>>().ok().map(
        |dt| (dt.timestamp(), dt.timestamp_subsec_nanos()),
    )
}

/// `chrono::DateTime::from_timestamp`, and of the point in time that it
/// makes the text by `to_string`; nothing where it makes none.
#[verifier::external_body]
fn show_instant(secs: i64, nanos: u32) -> (r: Option<String>)
    ensures
        match r {
            Some(text) => instant_text(secs, nanos) == Some(text@),
            None => instant_text(secs, nanos).is_none(),
        },
{
    chrono::DateTime::from_timestamp(secs, nanos).map(|dt| dt.to_string())
}

/// The start of a day in UTC, where its seconds fit in 64 bits.
pub open spec fn start_of_day(day: i64) -> Option<DateTime> {
    if i64::MIN <= day * SECONDS_PER_DAY <= i64::MAX {
        Some(DateTime { secs: (day * SECONDS_PER_DAY) as i64, nanos: 0 })
    } else {
        None
    }
}

/// The point in time that a text of `len` bytes writes: a text of ten bytes
/// is read as a day, and stands for the start of that day in UTC; any other
/// text is read in full.
pub open spec fn date_of(s: Seq<char>, len: nat) -> Option<DateTime> {
    if len == 10 {
        match day_of(s) {
            Some(day) => start_of_day(day),
            None => None,
        }
    } else {
        match instant_of(s) {
            Some((secs, nanos)) => Some(DateTime { secs, nanos }),
            None => None,
        }
    }
}

/// The message of the error for a text that writes no point in time.
pub open spec fn invalid_date_message(s: Seq<char>) -> Seq<char> {
    "Invalid date: '"@ + s + "'"@
}

/// The error for a text that writes no point in time.
fn invalid_date(s: &str) -> (e: Error)
    ensures
        e matches Error::ParseError(m) && m@ == invalid_date_message(s@),
{
    let mut msg = String::from_str("Invalid date: '");
    msg.append(s);
    msg.append("'");
    Error::ParseError(msg)
}

impl DateTime {
    /// The text that shows the point in time: day, time and `UTC`; the
    /// seconds alone for a point in time that the calendar does not reach.
    pub open spec fn text_of(&self) -> Seq<char> {
        match instant_text(self.secs, self.nanos) {
            Some(text) => text,
            None => crate::util::signed_text(self.secs as int),
        }
    }

    /// Parse date into DateTime, using either a full datetime format, or just
    /// the date (YYYY-MM-DD). If the date has a timezone, it will be converted
    /// to the equivalent time in UTC.
    pub fn parse_date(s: &str) -> (r: Option<DateTime>)
        ensures
            r == date_of(s@, s.spec_bytes().len()),
    {
        if s.as_bytes().len() == 10 {
            match parse_day(s) {
                Some(day) => match day.checked_mul(SECONDS_PER_DAY) {
                    Some(secs) => Some(DateTime { secs, nanos: 0 }),
                    None => None,
                },
                None => None,
            }
        } else {
            match parse_instant(s) {
                Some((secs, nanos)) => Some(DateTime { secs, nanos }),
                None => None,
            }
        }
    }

    /// Reads a point in time from a text in either form; a text that writes
    /// none is a parse error.
    pub fn parse(s: &str) -> (r: Result<DateTime, Error>)
        ensures
            match r {
                Ok(dt) => date_of(s@, s.spec_bytes().len()) == Some(dt),
                Err(e) => date_of(s@, s.spec_bytes().len()).is_none() && (e matches Error::ParseError(m)
                    && m@ == invalid_date_message(s@)),
            },
    {
        match DateTime::parse_date(s) {
            Some(dt) => Ok(dt),
            None => Err(invalid_date(s)),
        }
    }

    /// Shows the point in time: day, time and `UTC`.
    pub fn to_string(&self) -> (r: String)
        ensures
            r@ == self.text_of(),
    {
        match show_instant(self.secs, self.nanos) {
            Some(text) => text,
            None => to_signed_decimal(self.secs),
        }
    }
}

impl std::str::FromStr for DateTime {
    type Err = Error;

    /// Parse date into DateTime, using either a full datetime format, or just
    /// the date (YYYY-MM-DD).
    fn from_str(s: &str) -> (r: Result<Self, Self::Err>)
        ensures
            match r {
                Ok(dt) => date_of(s@, s.spec_bytes().len()) == Some(dt),
                Err(e) => date_of(s@, s.spec_bytes().len()).is_none() && (e matches Error::ParseError(m)
                    && m@ == invalid_date_message(s@)),
            },
    {
        DateTime::parse(s)
    }
}

} // verus!
