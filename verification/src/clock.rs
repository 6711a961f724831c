//! Trusted declarations for the std clock types that time buckets carry.
//!
//! The rotation logic never looks inside a timestamp: it only asks how many
//! whole seconds have elapsed since a monotonic timestamp was taken, and that
//! answer depends on the machine's clock, so nothing is promised about it.

use vstd::prelude::*;

verus! {

/// Relies on std::time::Instant being an opaque monotonic timestamp.
#[verifier::external_type_specification]
#[verifier::external_body]
pub struct ExInstant(std::time::Instant);

/// Relies on std::time::SystemTime being an opaque wall-clock timestamp.
#[verifier::external_type_specification]
#[verifier::external_body]
pub struct ExSystemTime(std::time::SystemTime);

/// Relies on std::time::Instant::now: the value depends on the clock, so
/// nothing is promised about it.
pub assume_specification[ std::time::Instant::now ]() -> std::time::Instant;

/// Relies on std::time::SystemTime::now: the value depends on the clock, so
/// nothing is promised about it.
pub assume_specification[ std::time::SystemTime::now ]() -> std::time::SystemTime;

/// Relies on std::time::Instant::elapsed: the time since `self` was taken,
/// which depends on the clock, so nothing is promised about it.
pub assume_specification[ std::time::Instant::elapsed ](
    start: &std::time::Instant,
) -> core::time::Duration;

/// Relies on core::time::Duration::as_secs: the whole seconds of a duration.
/// The duration is opaque here, so nothing is promised about the value.
pub assume_specification[ core::time::Duration::as_secs ](
    d: &core::time::Duration,
) -> u64;

} // verus!
