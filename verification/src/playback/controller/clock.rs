//! Points in time for scheduling output stream recovery.
use vstd::prelude::*;
pub use std::time::{Duration, Instant};

verus! {

/// A monotonic point in time of the standard library.
#[verifier::external_type_specification]
#[verifier::external_body]
pub struct ExInstant(std::time::Instant);

/// The present moment, from `Instant::now`; nothing is promised of it.
#[verifier::external_body]
pub(crate) fn now() -> (r: Instant) {
    Instant::now()
}

/// A span of `ms` milliseconds, from `Duration::from_millis`; nothing is promised of it.
#[verifier::external_body]
pub(crate) fn millis(ms: u64) -> (r: Duration) {
    Duration::from_millis(ms)
}

/// The moment `delay` after `base`, from `Instant::checked_add`; none where that moment cannot
/// be represented. Nothing else is promised of it.
#[verifier::external_body]
pub(crate) fn after(base: Instant, delay: Duration) -> (r: Option<Instant>) {
    base.checked_add(delay)
}

/// Whether `now` has reached `deadline`, from `Instant`'s `>=`; nothing is promised of it.
#[verifier::external_body]
pub(crate) fn reached(now: &Instant, deadline: &Instant) -> (r: bool) {
    *now >= *deadline
}

} // verus!
