//! Time, in nanoseconds.
use vstd::prelude::*;

verus! {

/// `std::time::Instant`, of which nothing is known.
#[verifier::external_type_specification]
#[verifier::external_body]
pub struct ExInstant(std::time::Instant);

/// A length of time in nanoseconds, or a moment as the time since the clock
/// was started.
pub type Nanos = u128;

/// One millisecond.
pub const MILLISECOND: Nanos = 1_000_000;

/// One second.
pub const SECOND: Nanos = 1_000_000_000;

/// The longest time that a player can be asked to seek to: a `u64` of seconds
/// and all but one nanosecond of another.
pub const LONGEST: Nanos = 18_446_744_073_709_551_615_999_999_999;

/// A clock that never goes backwards.
pub struct Clock {
    origin: std::time::Instant,
}

/// `Instant::now` gives the present moment. Nothing is said of it.
pub assume_specification[ std::time::Instant::now ]() -> std::time::Instant
;

/// `Instant::elapsed` gives the time that has passed since `origin`. It depends
/// on when it is called, so nothing is said of it.
#[verifier::external_body]
fn elapsed(origin: &std::time::Instant) -> Nanos {
    origin.elapsed().as_nanos()
}

impl Clock {
    /// A clock that starts now. Which moment that is depends on when it is called,
    /// and is left unsaid.
    pub fn new() -> Clock {
        Clock { origin: std::time::Instant::now() }
    }

    /// The time since the clock was started. It depends on when it is called, and
    /// is left unsaid; what is done with it holds for every value.
    pub fn now(&self) -> Nanos {
        elapsed(&self.origin)
    }
}

/// The time from `earlier` to `later`, none if `later` comes first.
pub open spec fn time_between(earlier: Nanos, later: Nanos) -> int {
    if later >= earlier {
        later - earlier
    } else {
        0
    }
}

/// The time from `earlier` to `later`, none if `later` comes first.
pub fn time_since(earlier: Nanos, later: Nanos) -> (d: Nanos)
    ensures
        d == time_between(earlier, later),
{
    if later >= earlier {
        later - earlier
    } else {
        0
    }
}

} // verus!
