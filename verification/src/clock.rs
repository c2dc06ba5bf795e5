use vstd::prelude::*;

verus! {

/// Relies on chrono::Utc::now: the current wall-clock time in milliseconds
/// since the Unix epoch. Nothing is assumed about the value read.
#[verifier::external_body]
pub(crate) fn now_millis() -> i64 {
    chrono::Utc::now().timestamp_millis()
}

} // verus!
