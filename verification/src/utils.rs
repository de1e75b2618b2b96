//! Wrappers over the outside world: the clock, random identifiers and
//! generated names. Each is trusted; its doc comment names what it relies
//! on. Nothing is promised of a clock reading or a random value beyond
//! what holds of every outcome.

use vstd::prelude::*;

use petname::Generator;

verus! {

/// Relies on chrono::Utc::now and DateTime::timestamp_millis: the current
/// time as Unix milliseconds. The reading depends on the system clock, so
/// nothing is promised of it.
#[verifier::external_body]
pub fn now_millis() -> (r: i64) {
    chrono::Utc::now().timestamp_millis()
}

/// Relies on uuid::Uuid::new_v4 and Uuid::as_u128: a fresh random
/// version-4 identifier. The value is random, so nothing is promised of
/// it.
#[verifier::external_body]
pub fn generate_uuid() -> (r: u128) {
    uuid::Uuid::new_v4().as_u128()
}

/// Relies on petname::Petnames::generate_one: a random two-word name, or
/// `None` when the word lists are empty. The value is random, so nothing
/// is promised of it.
#[verifier::external_body]
pub fn generate_petname() -> (r: Option<String>) {
    petname::Petnames::default().generate_one(2, "-")
}

} // verus!
