//! The Gemini time origin.
//!
//! The Tritech Gemini format counts seconds from 1980-01-01 00:00:00 UK local
//! time. The UK was on GMT = UTC at that instant, so the origin equals
//! 1980-01-01T00:00:00Z.

use chrono::TimeZone;
use vstd::prelude::*;

verus! {

/// Milliseconds between the Unix epoch and the Gemini epoch: the Unix
/// timestamp of 1980-01-01T00:00:00Z.
pub const GEMINI_EPOCH_UNIX_MILLIS: i64 = 315_532_800_000;

/// Return the epoch of the Tritech Gemini, as milliseconds since the Unix
/// epoch; record timestamps count seconds from this instant.
///
/// Relies on chrono_tz's `GB` zone with chrono's `TimeZone::with_ymd_and_hms`,
/// `with_timezone` and `timestamp_millis`: Europe/London was on GMT (offset
/// zero, summer time inactive) on 1980-01-01, so the UK-local construction
/// yields exactly 1980-01-01T00:00:00Z.
#[verifier::external_body]
pub fn epoch_gem() -> (r: i64)
    ensures
        r == GEMINI_EPOCH_UNIX_MILLIS,
{
    let start = chrono_tz::GB.with_ymd_and_hms(1980, 1, 1, 0, 0, 0).unwrap();
    start.with_timezone(&chrono::Utc).timestamp_millis()
}

} // verus!
