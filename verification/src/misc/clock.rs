//! A clock for measuring how long ago something happened.

use std::time::Instant;
use vstd::prelude::*;

verus! {

/// `std::time::Instant`, which is carried around and never looked into.
#[verifier::external_type_specification]
#[verifier::external_body]
pub struct ExInstant(Instant);

/// A clock that counts milliseconds from the moment it was started.
#[derive(Debug, Clone, Copy)]
pub struct Clock {
    origin: Instant,
}

/// Calls `std::time::Instant::now`. Nothing is claimed of the result.
#[verifier::external_body]
fn instant_now() -> Instant {
    Instant::now()
}

/// Calls `std::time::Instant::elapsed` and gives the whole milliseconds of
/// the duration, or `u64::MAX` where they do not fit. Nothing is claimed of
/// the result: it is whatever time has passed.
#[verifier::external_body]
fn millis_since(origin: &Instant) -> u64 {
    u64::try_from(origin.elapsed().as_millis()).unwrap_or(u64::MAX)
}

impl Clock {
    /// A clock that starts now.
    pub fn start() -> Clock {
        Clock { origin: instant_now() }
    }

    /// The milliseconds since the clock was started, whatever they are.
    pub fn now(&self) -> u64 {
        millis_since(&self.origin)
    }
}

} // verus!
