//! Dates and timestamps from the system clock, through chrono.

use vstd::prelude::*;
use crate::text::{has_suffix, is_digit};

verus! {

/// Text in the shape of chrono's `%Y-%m-%d`: a year of at least four
/// characters, then a two-digit month and a two-digit day, each after a dash.
pub open spec fn is_date_text(s: Seq<char>) -> bool {
    &&& s.len() >= 10
    &&& s[s.len() - 6] == '-'
    &&& s[s.len() - 3] == '-'
    &&& is_digit(s[s.len() - 5]) && is_digit(s[s.len() - 4])
    &&& is_digit(s[s.len() - 2]) && is_digit(s[s.len() - 1])
}

/// chrono's `Local::now().format("%Y-%m-%d").to_string()`. chrono writes the
/// year with at least four characters and month and day as two zero-padded
/// digits; which day it is depends on the clock and the time zone, and is
/// left unsaid.
#[verifier::external_body]
fn local_date_text() -> (r: String)
    ensures
        is_date_text(r@),
{
    chrono::Local::now().format("%Y-%m-%d").to_string()
}

/// chrono's `Utc::now().to_rfc3339()`. For UTC chrono ends the text with the
/// offset `+00:00`; the instant itself depends on the clock and is left unsaid.
#[verifier::external_body]
pub(crate) fn utc_timestamp_text() -> (r: String)
    ensures
        has_suffix(r@, "+00:00"@),
{
    chrono::Utc::now().to_rfc3339()
}

/// Today's date in the local time zone, as `YYYY-MM-DD`.
pub fn today() -> (r: String)
    ensures
        is_date_text(r@),
{
    local_date_text()
}

} // verus!
