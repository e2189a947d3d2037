//! The monotonic clock, as far as the library reads it.

use vstd::prelude::*;
use std::time::Duration;
use std::time::Instant;

verus! {

/// A monotonic clock reading, carried through opaquely.
#[verifier::external_type_specification]
#[verifier::external_body]
pub struct ExInstant(Instant);

/// `Instant::clone`: a clock reading is a plain value, and its copy is the
/// same reading.
pub assume_specification[ <Instant as Clone>::clone ](instant: &Instant) -> (res: Instant)
    ensures
        res == *instant,
;

/// `Instant::now`: the current reading of the monotonic clock. Nothing is
/// claimed of the reading.
#[verifier::external_body]
pub(crate) fn clock_now() -> (now: Instant) {
    Instant::now()
}

/// `Instant::elapsed`: the time that has passed since `since` was read. Nothing
/// is claimed of the amount.
#[verifier::external_body]
pub(crate) fn clock_elapsed(since: &Instant) -> (elapsed: Duration) {
    since.elapsed()
}

/// `Duration::as_millis`: the whole milliseconds in `d`. Nothing is claimed of
/// the number.
#[verifier::external_body]
pub(crate) fn duration_millis(d: &Duration) -> (millis: u128) {
    d.as_millis()
}

/// `Duration::as_secs`: the whole seconds in `d`. Nothing is claimed of the
/// number.
#[verifier::external_body]
pub(crate) fn duration_secs(d: &Duration) -> (secs: u64) {
    d.as_secs()
}

} // verus!
