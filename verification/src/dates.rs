//! Instants in time, and the two date formats that CVMFS servers write. The
//! reading of dates is chrono's; this module names what chrono returns, or says
//! it where a few lines can, and carries the result as plain numbers.

use vstd::prelude::*;

verus! {

/// An instant: seconds since the Unix epoch, in UTC, and the nanoseconds within
/// that second. During a leap second `nanos` is a thousand million or more.
#[derive(Debug, Clone, Copy, PartialEq, Eq, Structural)]
pub struct UtcDateTime {
    pub secs: i64,
    pub nanos: u32,
}

/// What chrono's `NaiveDateTime::parse_from_str` makes of `text` under `format`,
/// read as a time in UTC: seconds since the epoch and nanoseconds, or nothing where
/// it reports an error.
pub uninterp spec fn naive_datetime_from_str(text: Seq<char>, format: Seq<char>) -> Option<
    (i64, u32),
>;

/// What chrono's `DateTime::parse_from_rfc2822` makes of `text`: the instant, as
/// seconds since the epoch and nanoseconds, or the text of the error it reports.
pub uninterp spec fn datetime_from_rfc2822(text: Seq<char>) -> Result<(i64, u32), Seq<char>>;

/// The first second for which chrono has a date and time: the start of the year
/// -262143, the year of its `NaiveDate::MIN`.
pub open spec fn first_timestamp() -> int {
    -8_334_601_228_800
}

/// The last second for which chrono has a date and time: the end of the year
/// 262142, the year of its `NaiveDate::MAX`.
pub open spec fn last_timestamp() -> int {
    8_210_266_876_799
}

/// What chrono's `DateTime::from_timestamp` makes of this number of seconds since
/// the epoch, with no nanoseconds: the instant at that second, or nothing where the
/// second lies outside the years for which chrono has dates.
pub open spec fn datetime_from_timestamp(secs: i64) -> Option<(i64, u32)> {
    if first_timestamp() <= secs <= last_timestamp() {
        Some((secs, 0u32))
    } else {
        None
    }
}

/// Calls chrono's `NaiveDateTime::parse_from_str`, takes the result as a time in
/// UTC and returns its `timestamp` and `timestamp_subsec_nanos`. The contract only
/// names the result.
#[verifier::external_body]
pub(crate) fn parse_naive_datetime(text: &str, format: &str) -> (r: Option<(i64, u32)>)
    ensures
        r == naive_datetime_from_str(text@, format@),
{
    match chrono::NaiveDateTime::parse_from_str(text, format) {
        Ok(naive) => {
            let at = chrono::DateTime::<chrono::Utc>::from_naive_utc_and_offset(naive, chrono::Utc);
            Some((at.timestamp(), at.timestamp_subsec_nanos()))
        },
        Err(_) => None,
    }
}

/// Calls chrono's `DateTime::parse_from_rfc2822` and returns the `timestamp` and
/// `timestamp_subsec_nanos` of what it gives, or the error rendered as text. The
/// contract only names the result.
#[verifier::external_body]
pub(crate) fn parse_rfc2822(text: &str) -> (r: Result<(i64, u32), String>)
    ensures
        match datetime_from_rfc2822(text@) {
            Ok(at) => r == Ok::<(i64, u32), String>(at),
            Err(reason) => r is Err && r->Err_0@ == reason,
        },
{
    match chrono::DateTime::parse_from_rfc2822(text) {
        Ok(at) => Ok((at.timestamp(), at.timestamp_subsec_nanos())),
        Err(error) => Err(error.to_string()),
    }
}

/// Calls chrono's `DateTime::from_timestamp` with no nanoseconds and returns the
/// `timestamp` and `timestamp_subsec_nanos` of what it gives. The contract says
/// what chrono's source shows: it takes the second to a day and a time of day,
/// gives nothing where the day lies outside the years from `MIN_YEAR` to
/// `MAX_YEAR`, that is -262143 to 262142, and otherwise gives the instant that was
/// asked for.
#[verifier::external_body]
pub(crate) fn timestamp_to_datetime(secs: i64) -> (r: Option<(i64, u32)>)
    ensures
        r == datetime_from_timestamp(secs),
{
    match chrono::DateTime::from_timestamp(secs, 0) {
        Some(at) => Some((at.timestamp(), at.timestamp_subsec_nanos())),
        None => None,
    }
}

impl UtcDateTime {
    /// The instant `secs` seconds after the epoch, where chrono has a date and time
    /// for it.
    pub fn from_timestamp(secs: i64) -> (r: Option<UtcDateTime>)
        ensures
            r == if first_timestamp() <= secs <= last_timestamp() {
                Some(UtcDateTime { secs, nanos: 0 })
            } else {
                None::<UtcDateTime>
            },
    {
        match timestamp_to_datetime(secs) {
            Some(at) => Some(UtcDateTime { secs: at.0, nanos: at.1 }),
            None => None,
        }
    }
}

} // verus!
