//! The one clock access of the library: the construction timestamp that
//! outbound responses carry.

use vstd::prelude::*;

verus! {

/// Relies on `chrono::Utc::now` and `chrono::DateTime::to_rfc3339` for
/// the moment a response is constructed.  The result depends on the
/// clock, so nothing is promised of it.
#[verifier::external_body]
pub(crate) fn now_rfc3339() -> String {
    chrono::Utc::now().to_rfc3339()
}

} // verus!
