//! The wall clock.
use vstd::prelude::*;

verus! {

/// Seconds since the Unix epoch from `chrono::Utc::now().timestamp()`.
///
/// Trusted: `Utc::now` returns only a time that `DateTime::from_timestamp`
/// accepts, that is one within chrono's date range (year -262143 to 262142),
/// and `timestamp` gives back those seconds; so the result lies between the
/// first second of that range and the last. Which time it is depends on the
/// moment of the call and is not stated.
#[verifier::external_body]
pub(crate) fn now_timestamp() -> (r: i64)
    ensures
        -8_334_601_315_200 <= r <= 8_210_266_876_799,
{
    chrono::Utc::now().timestamp()
}

} // verus!
