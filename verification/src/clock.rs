//! The one clock read the client makes: the current time as an RFC 3339
//! timestamp, used in every outbound frame.
use vstd::prelude::*;

verus! {

/// Relies on chrono's `Utc::now()` and `DateTime::to_rfc3339`: the result
/// is an RFC 3339 date-and-time string (such as `1996-12-19T16:39:57+00:00`),
/// which consists of printable ASCII and never contains a quote or a
/// backslash. What time it names depends on the clock, so nothing more is
/// stated.
#[verifier::external_body]
pub fn now_rfc3339() -> (r: String)
    ensures
        forall|i: int|
            0 <= i < r@.len() ==> r@[i] != '"' && r@[i] != '\\' && 32 <= (r@[i] as u32) < 127,
{
    chrono::Utc::now().to_rfc3339()
}

} // verus!
