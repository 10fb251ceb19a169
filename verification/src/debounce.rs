//! Waiting until typing pauses.
use crate::clock;
use crate::clock::Clock;
use crate::clock::Nanos;
use vstd::prelude::*;

verus! {

/// Holds work back until some time has passed without another trigger.
#[derive(Clone, Copy, Debug)]
pub struct Debounce {
    pub last_trigger: Option<Nanos>,
    pub delay: Nanos,
}

impl Debounce {
    /// More than the delay has passed since the last trigger.
    pub open spec fn ready_when(self, now: Nanos) -> bool {
        match self.last_trigger {
            Some(at) => clock::time_between(at, now) > self.delay,
            None => false,
        }
    }

    /// The delay starts anew.
    pub open spec fn triggered_when(self, now: Nanos) -> Debounce {
        Debounce { last_trigger: Some(now), ..self }
    }

    /// Starts the delay anew, at the present moment.
    pub fn trigger(&mut self, clock: &Clock)
        ensures
            exists|now: Nanos| *final(self) == #[trigger] old(self).triggered_when(now),
    {
        let now: Nanos = clock.now();
        self.trigger_at(now);
        proof {
            assert(*self == old(self).triggered_when(now));
        }
    }

    /// Starts the delay anew.
    pub fn trigger_at(&mut self, now: Nanos)
        ensures
            *final(self) == old(self).triggered_when(now),
    {
        self.last_trigger = Some(now);
    }

    /// Whether the delay has passed by the present moment. Without a trigger it
    /// never has.
    pub fn ready(&self, clock: &Clock) -> (r: bool)
        ensures
            exists|now: Nanos| r == self.ready_when(now),
    {
        let now: Nanos = clock.now();
        self.ready_at(now)
    }

    /// Whether the delay has passed.
    pub fn ready_at(&self, now: Nanos) -> (r: bool)
        ensures
            r == self.ready_when(now),
    {
        match self.last_trigger {
            Some(at) => clock::time_since(at, now) > self.delay,
            None => false,
        }
    }
}

impl Default for Debounce {
    /// Nothing was triggered, and the delay is a tenth of a second.
    fn default() -> (r: Self)
        ensures
            r == (Debounce { last_trigger: None, delay: (100 * clock::MILLISECOND) as Nanos }),
    {
        Debounce { last_trigger: None, delay: 100 * clock::MILLISECOND }
    }
}

/// A trigger holds the work back for the whole delay.
pub proof fn trigger_delays(d: Debounce, at: Nanos, now: Nanos)
    requires
        now <= at + d.delay,
    ensures
        !d.triggered_when(at).ready_when(now),
{
}

/// What is ready stays ready as long as nothing triggers.
pub proof fn ready_stays_ready(d: Debounce, now: Nanos, later: Nanos)
    requires
        d.ready_when(now),
        now <= later,
    ensures
        d.ready_when(later),
{
}

} // verus!
