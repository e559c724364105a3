//! Time as the service sees it: whole seconds since the Unix epoch.

use vstd::prelude::*;

verus! {

/// The last second of the year 9999, the latest instant the service handles.
pub const MAX_TIMESTAMP: i64 = 253_402_300_799;

/// An instant between the Unix epoch and the end of the year 9999.
pub open spec fn valid_timestamp(t: int) -> bool {
    0 <= t <= MAX_TIMESTAMP
}

/// The RFC 3339 text of the UTC instant `secs` seconds after the Unix epoch,
/// as `chrono` writes it.
pub uninterp spec fn rfc3339_utc(secs: int) -> Seq<char>;

/// Reads the system clock through `chrono::Utc::now` and gives the whole
/// seconds since the Unix epoch. Nothing is claimed of the value.
#[verifier::external_body]
fn unix_now() -> i64 {
    chrono::Utc::now().timestamp()
}

/// Formats an instant with `chrono::DateTime::to_rfc3339`. The instant is
/// built by `DateTime::from_timestamp`, which accepts every second of the
/// years 1970 to 9999; in UTC the text depends on the instant alone.
#[verifier::external_body]
pub(crate) fn format_rfc3339(secs: i64) -> (text: String)
    requires
        valid_timestamp(secs as int),
    ensures
        text@ == rfc3339_utc(secs as int),
{
    chrono::DateTime::from_timestamp(secs, 0).unwrap().to_rfc3339()
}

/// A reading of the clock as an instant of the service: the reading
/// itself where it lies between the Unix epoch and the end of the year 9999,
/// and nothing otherwise.
pub fn checked_time(reading: i64) -> (now: Option<i64>)
    ensures
        now == (if valid_timestamp(reading as int) {
            Some(reading)
        } else {
            None
        }),
{
    if 0 <= reading && reading <= MAX_TIMESTAMP {
        Some(reading)
    } else {
        None
    }
}

/// The current time, or `None` when the system clock lies outside the
/// instants the service handles. Which reading the clock gives is not for
/// this function to say; `checked_time` says what becomes of each.
pub fn current_time() -> (now: Option<i64>)
    ensures
        now matches Some(t) ==> valid_timestamp(t as int),
{
    checked_time(unix_now())
}

} // verus!
