use vstd::prelude::*;

verus! {

/// Relies on uuid::Uuid::new_v4: a fresh random identifier, handed out as
/// its 128-bit value. Nothing is promised of the value.
#[verifier::external_body]
pub fn new_id() -> (r: u128) {
    uuid::Uuid::new_v4().as_u128()
}

/// Relies on chrono::Utc::now: the current time in whole seconds since the
/// Unix epoch. Nothing is promised of the value.
#[verifier::external_body]
pub fn now_seconds() -> (r: i64) {
    chrono::Utc::now().timestamp()
}

} // verus!
