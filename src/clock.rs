//! The wall clock, for the timestamps the daemon records.
use vstd::prelude::*;

verus! {

/// Relies on chrono's `Utc::now` and `DateTime::to_rfc3339`: the current UTC
/// time as an RFC 3339 string. The value depends on when it is called, so
/// only that it is not empty is stated; callers that need an exact contract
/// take the timestamp as an argument instead.
#[verifier::external_body]
pub(crate) fn now_rfc3339() -> (r: String)
    ensures
        r@.len() > 0,
{
    chrono::Utc::now().to_rfc3339()
}

} // verus!
