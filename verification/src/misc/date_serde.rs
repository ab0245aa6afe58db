//! Instants in UTC and their RFC 3339 text.

use vstd::prelude::*;

verus! {

/// An instant in UTC, as milliseconds since 1970-01-01T00:00:00Z.
#[derive(Debug, Clone, Copy, PartialEq, Eq, Structural)]
pub struct Timestamp {
    pub millis: i64,
}

/// Why a text is not an RFC 3339 date and time.
#[derive(Debug, PartialEq, Eq)]
pub struct DateError {
    pub message: String,
}

/// The RFC 3339 text, with milliseconds and a trailing `Z`, of the instant
/// `millis` milliseconds after the epoch; `None` where the calendar in use
/// cannot represent that instant.
pub uninterp spec fn rfc3339_text(millis: i64) -> Option<Seq<char>>;

/// What reading `text` as an RFC 3339 date and time gives: the instant in
/// milliseconds since the epoch, or the reader's complaint.
pub uninterp spec fn rfc3339_read(text: Seq<char>) -> Result<i64, Seq<char>>;

/// Reads the system clock through `chrono::Utc::now` and
/// `DateTime::timestamp_millis`. Nothing is claimed of the value: it is
/// whatever the clock says. `Utc::now` panics if the clock is set before 1970.
#[verifier::external_body]
fn utc_now_millis() -> i64 {
    chrono::Utc::now().timestamp_millis()
}

/// Formats through `chrono::DateTime::from_timestamp_millis` and
/// `DateTime::to_rfc3339_opts(SecondsFormat::Millis, true)`. The contract only
/// gives the result its name.
#[verifier::external_body]
fn format_rfc3339(millis: i64) -> (text: Option<String>)
    ensures
        text.deep_view() == rfc3339_text(millis),
{
    match chrono::DateTime::from_timestamp_millis(millis) {
        Some(date) => Some(date.to_rfc3339_opts(chrono::SecondsFormat::Millis, true)),
        None => None,
    }
}

/// Parses through `chrono::DateTime::parse_from_rfc3339` and reads the instant
/// with `DateTime::timestamp_millis`; the error is the text that chrono's
/// `ParseError` displays. The contract only gives the result its name.
#[verifier::external_body]
fn parse_rfc3339(text: &str) -> (parsed: Result<i64, String>)
    ensures
        match parsed {
            Ok(millis) => rfc3339_read(text@) == Ok::<i64, Seq<char>>(millis),
            Err(message) => rfc3339_read(text@) == Err::<i64, Seq<char>>(message@),
        },
{
    match chrono::DateTime::parse_from_rfc3339(text) {
        Ok(date) => Ok(date.timestamp_millis()),
        Err(error) => Err(error.to_string()),
    }
}

impl Timestamp {
    /// The current instant, whatever the system clock reads.
    pub fn now() -> Timestamp {
        Timestamp { millis: utc_now_millis() }
    }
}

/// The text that stands for `date` on the wire.
pub fn serialize(date: &Timestamp) -> (text: Option<String>)
    ensures
        text.deep_view() == rfc3339_text(date.millis),
{
    format_rfc3339(date.millis)
}

/// The instant that `text` stands for, or why it stands for none.
pub fn deserialize(text: &str) -> (date: Result<Timestamp, DateError>)
    ensures
        match rfc3339_read(text@) {
            Ok(millis) => date == Ok::<Timestamp, DateError>(Timestamp { millis }),
            Err(message) => date is Err && date->Err_0.message@ == message,
        },
{
    match parse_rfc3339(text) {
        Ok(millis) => Ok(Timestamp { millis }),
        Err(message) => Err(DateError { message }),
    }
}

} // verus!
