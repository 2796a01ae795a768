//! Points in time.

use vstd::prelude::*;
use vstd::string::*;

use crate::error::{Error, ErrorView};

verus! {

/// The seconds from the start of 1970 (UTC) to the instant that an RFC 3339
/// date and time names, or `None` for a string that is none.
pub uninterp spec fn rfc3339_unix_seconds(text: Seq<char>) -> Option<i64>;

/// Reads an RFC 3339 date and time.
///
/// Trusted: stands for `chrono::DateTime::parse_from_rfc3339` and
/// `DateTime::timestamp`: the string is parsed, and the instant is given in
/// seconds since the start of 1970, leap seconds not counted. `None` where the
/// string does not parse. The result depends on the string alone.
#[verifier::external_body]
fn unix_seconds(text: &str) -> (seconds: Option<i64>)
    ensures
        seconds == rfc3339_unix_seconds(text@),
{
    match chrono::DateTime::parse_from_rfc3339(text) {
        Ok(instant) => Some(instant.timestamp()),
        Err(_) => None,
    }
}

/// What is said of a string that is no RFC 3339 date and time.
pub open spec fn invalid_timestamp_message(text: Seq<char>) -> Seq<char> {
    "Failed to parse RFC 3339 timestamp: '"@ + text + "'"@
}

/// What `parse_rfc3339_timestamp` makes of a string.
pub open spec fn unix_seconds_of(text: Seq<char>) -> Result<i64, ErrorView> {
    match rfc3339_unix_seconds(text) {
        Some(seconds) => Ok(seconds),
        None => Err(ErrorView::Fatal { error: invalid_timestamp_message(text) }),
    }
}

/// What `parse_rfc3339_timestamp` returns for what the parser found.
pub fn unix_seconds_or_error(text: &str, parsed: Option<i64>) -> (r: Result<i64, Error>)
    ensures
        match parsed {
            Some(seconds) => r == Ok::<i64, Error>(seconds),
            None => r matches Err(e) && e@ == (ErrorView::Fatal {
                error: invalid_timestamp_message(text@),
            }),
        },
{
    match parsed {
        Some(seconds) => Ok(seconds),
        None => {
            let mut message = String::from_str("Failed to parse RFC 3339 timestamp: '");
            message.append(text);
            message.append("'");
            Err(Error::Fatal { error: message })
        },
    }
}

/// The unix time of an RFC 3339 date and time. A string that is none is a
/// fatal error: it was stored by this library, so it is corrupt for good.
pub fn parse_rfc3339_timestamp(text: &str) -> (r: Result<i64, Error>)
    ensures
        match unix_seconds_of(text@) {
            Ok(seconds) => r == Ok::<i64, Error>(seconds),
            Err(e) => r matches Err(failure) && failure@ == e,
        },
{
    unix_seconds_or_error(text, unix_seconds(text))
}

} // verus!
