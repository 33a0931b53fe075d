//! Source of "now", so scheduling decisions are deterministic under test.

use vstd::prelude::*;

use crate::time::{utc_now, UtcTime};

verus! {

/// Source of the current instant. The system clock reads the real time;
/// tests supply a controllable one.
pub trait Clock {
    /// The current instant, always within the representable range.
    fn now(&self) -> (t: UtcTime)
        ensures
            t.valid(),
    ;
}

/// The real system clock.
#[derive(Debug, Default, Clone, Copy)]
pub struct SystemClock;

impl Clock for SystemClock {
    fn now(&self) -> (t: UtcTime) {
        utc_now()
    }
}

} // verus!
