//! Wall-clock access: the only place the library reads the time.
use vstd::prelude::*;

verus! {

/// Declares `jiff::Timestamp` so it can be carried through verified code.
#[verifier::external_type_specification]
#[verifier::external_body]
pub struct ExTimestamp(jiff::Timestamp);

/// `jiff::Timestamp` derives `Clone` and `Copy`: a clone is the same value.
pub assume_specification[ <jiff::Timestamp as core::clone::Clone>::clone ](t: &jiff::Timestamp) -> (r: jiff::Timestamp)
    ensures
        r == *t,
;

/// Calls `jiff::Timestamp::now`. The result depends on the clock, so
/// nothing is stated of it. (jiff panics only when the system clock lies
/// outside the range a `Timestamp` can represent.)
#[verifier::external_body]
pub(crate) fn timestamp_now() -> jiff::Timestamp {
    jiff::Timestamp::now()
}

/// Declares `std::time::Instant` so it can be carried through verified code.
#[verifier::external_type_specification]
#[verifier::external_body]
pub struct ExInstant(std::time::Instant);

/// Calls `std::time::Instant::now`. The result depends on the clock, so
/// nothing is stated of it.
#[verifier::external_body]
pub(crate) fn instant_now() -> std::time::Instant {
    std::time::Instant::now()
}

/// Calls `std::time::Instant::elapsed` and converts the duration to whole
/// milliseconds. The result depends on the clock, so nothing is stated of it.
#[verifier::external_body]
pub(crate) fn elapsed_millis(i: &std::time::Instant) -> u128 {
    i.elapsed().as_millis()
}

} // verus!
