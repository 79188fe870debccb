//! Moments in time.

use chrono::Utc;
use vstd::prelude::*;

verus! {

/// A moment in UTC: whole seconds since the start of 1970, and the nanoseconds after them.
///
/// The nanoseconds of a moment inside a leap second are one thousand million or more.
#[derive(Clone, Copy, Debug, PartialEq, Eq, Structural)]
pub struct Timestamp {
    pub seconds: i64,
    pub nanoseconds: u32,
}

/// `chrono::Utc::now`: the moment at which it is called, read from the system's clock. Nothing is
/// said of which moment that is, except that it lies inside no leap second. Where the system's clock
/// stands before 1970, or further off than chrono can count, `chrono::Utc::now` panics.
#[verifier::external_body]
pub(crate) fn utc_now() -> (now: Timestamp)
    ensures
        now.nanoseconds < 1_000_000_000,
{
    let now = Utc::now();
    Timestamp { seconds: now.timestamp(), nanoseconds: now.timestamp_subsec_nanos() }
}

} // verus!
