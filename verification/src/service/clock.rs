//! The wall clock, read through chrono.
use vstd::prelude::*;

verus! {

/// The latest Unix timestamp that chrono's `DateTime<Utc>` can hold
/// (262142-12-31T23:59:59Z).
pub const MAX_TIMESTAMP: i64 = 8210266876799;

/// Reads `chrono::Utc::now()` and returns its `timestamp()`.
///
/// Claimed: the value lies between 0 and `MAX_TIMESTAMP`. chrono's `Utc::now`
/// takes the system time since the Unix epoch (it panics before the epoch) and
/// builds a `DateTime<Utc>` with `from_timestamp(..).unwrap()`, which only
/// succeeds inside chrono's range. Which instant is read is not stated.
#[verifier::external_body]
pub fn now_timestamp() -> (ts: i64)
    ensures
        0 <= ts <= MAX_TIMESTAMP,
{
    chrono::Utc::now().timestamp()
}

} // verus!
