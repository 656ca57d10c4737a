use vstd::prelude::*;

verus! {

/// `chrono::Utc::now().timestamp_millis()` as an unsigned number: the wall-clock time in
/// milliseconds since the Unix epoch. Nothing is claimed of the value, which depends on the
/// machine's clock (chrono panics when the clock reads before the epoch).
#[verifier::external_body]
pub(crate) fn now_millis() -> u64 {
    chrono::Utc::now().timestamp_millis() as u64
}

} // verus!
