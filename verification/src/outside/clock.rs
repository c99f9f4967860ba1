//! Clocks and spans of time.
use std::time::Duration;
use vstd::prelude::*;

verus! {

/// `std::time::Instant`: a point in time.
#[verifier::external_type_specification]
#[verifier::external_body]
pub struct ExStdInstant(std::time::Instant);

/// `quanta::Instant`: a point in time.
#[verifier::external_type_specification]
#[verifier::external_body]
pub struct ExQuantaInstant(quanta::Instant);

/// The length of a span of time in nanoseconds.
pub uninterp spec fn duration_nanos(d: Duration) -> nat;

/// `Duration::from_secs`: a span of whole seconds.
pub assume_specification[ Duration::from_secs ](secs: u64) -> (d: Duration)
    ensures
        duration_nanos(d) == secs * 1_000_000_000,
;

/// `Duration::as_nanos`: the length in nanoseconds.
pub assume_specification[ Duration::as_nanos ](d: &Duration) -> (n: u128)
    ensures
        n == duration_nanos(*d),
;

/// `std::time::Instant::now`: reads the clock, so nothing is said of the
/// result.
pub assume_specification[ std::time::Instant::now ]() -> std::time::Instant
;

/// `std::time::Instant::elapsed`: reads the clock, so nothing is said of the
/// result.
pub assume_specification[ std::time::Instant::elapsed ](start: &std::time::Instant) -> Duration
;

/// `quanta::Instant::now`: reads the clock, so nothing is said of the result.
pub assume_specification[ quanta::Instant::now ]() -> quanta::Instant
;

/// `quanta::Instant::elapsed`: reads the clock, so nothing is said of the
/// result.
pub assume_specification[ quanta::Instant::elapsed ](start: &quanta::Instant) -> Duration
;

} // verus!
