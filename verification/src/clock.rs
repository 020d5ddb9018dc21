//! The wall clock, read once per detected opportunity.

use vstd::prelude::*;

verus! {

/// Relies on chrono's `Utc::now().to_rfc3339()`: an RFC 3339 timestamp of the
/// current time, e.g. `1996-12-19T16:39:57+00:00`. The value depends on the
/// clock, so nothing is stated beyond the string being nonempty.
#[verifier::external_body]
pub(crate) fn now_rfc3339() -> (r: String)
    ensures
        r@.len() > 0,
{
    chrono::Utc::now().to_rfc3339()
}

} // verus!
