use vstd::prelude::*;

verus! {

/// Relies on chrono's `Utc::now` for the current wall-clock time;
/// `DateTime::timestamp_millis` converts it to milliseconds since the
/// Unix epoch. Nothing is assumed of the value: the clock may say
/// anything.
#[verifier::external_body]
pub fn now_epoch_millis() -> i64 {
    chrono::Utc::now().timestamp_millis()
}

} // verus!
