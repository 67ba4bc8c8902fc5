//! Instants as whole seconds since the Unix epoch, and the wall clock.

use vstd::prelude::*;

verus! {

/// The earliest instant that chrono can represent (January 1st of the year
/// -262143, midnight UTC).
pub const EARLIEST_INSTANT: i64 = -8334601315200i64;

/// The latest instant that chrono can represent (December 31st of the year
/// 262142, one second before midnight UTC).
pub const LATEST_INSTANT: i64 = 8210266876799i64;

/// Whether `t` (seconds since the Unix epoch) is an instant that a chrono
/// `DateTime` can hold.
pub open spec fn representable_instant(t: int) -> bool {
    EARLIEST_INSTANT <= t <= LATEST_INSTANT
}

/// The current time in whole seconds since the Unix epoch
/// (`chrono::Utc::now().timestamp()`).
///
/// The value depends on the wall clock, so nothing is said of it beyond the
/// fact that a chrono `DateTime` produced it and so it is representable.
#[verifier::external_body]
pub(crate) fn now_unix_seconds() -> (t: i64)
    ensures
        representable_instant(t as int),
{
    chrono::Utc::now().timestamp()
}

} // verus!
