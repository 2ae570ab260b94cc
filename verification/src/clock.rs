//! The current time, as the records carry it.

use vstd::prelude::*;

verus! {

/// The current time in UTC as `chrono` writes it in RFC 3339:
/// `chrono::Utc::now().to_rfc3339()`. Nothing is claimed of the text.
#[verifier::external_body]
pub(crate) fn now_rfc3339() -> String {
    chrono::Utc::now().to_rfc3339()
}

/// The time `hours` hours from now in UTC, written in RFC 3339: the sum
/// that `DateTime::checked_add_signed` gives for `chrono::Utc::now()` and
/// `TimeDelta::try_hours(hours)`. There is none where `chrono` cannot
/// represent the sum. Nothing is claimed of the text.
#[verifier::external_body]
pub(crate) fn rfc3339_after_hours(hours: u32) -> Option<String> {
    let span = chrono::TimeDelta::try_hours(hours as i64)?;
    let later = chrono::Utc::now().checked_add_signed(span)?;
    Some(later.to_rfc3339())
}

/// The current time in whole seconds since the start of 1970 in UTC:
/// `chrono::Utc::now().timestamp()`. Nothing is claimed of the number.
#[verifier::external_body]
pub(crate) fn now_timestamp() -> i64 {
    chrono::Utc::now().timestamp()
}

} // verus!
