//! A set of election timeouts designed for different network topologies.
use vstd::prelude::*;
use std::time::Duration;
use rand::Rng;

verus! {

/// The duration of `milliseconds` milliseconds.
pub uninterp spec fn millis_duration(milliseconds: u64) -> Duration;

/// Calls `std::time::Duration::from_millis`; the duration it returns is
/// named `millis_duration(milliseconds)`.
#[verifier::external_body]
pub(crate) fn duration_from_millis(milliseconds: u64) -> (duration: Duration)
    ensures
        duration == millis_duration(milliseconds),
{
    Duration::from_millis(milliseconds)
}

/// Calls `rand::Rng::gen_range(low, high)` on `rand::thread_rng()`, which
/// draws a number from `[low, high)` and panics unless `low < high`. The
/// number is random: only the bounds are promised.
#[verifier::external_body]
pub(crate) fn random_in_range(low: u64, high: u64) -> (drawn: u64)
    requires
        low < high,
    ensures
        low <= drawn < high,
{
    rand::thread_rng().gen_range(low, high)
}

pub struct ElectionTimeoutRange {
    minimum_milliseconds: u64,
    maximum_milliseconds: u64,
    heartbeat_interval_milliseconds: u64,
}

/// The bounds of a range, in milliseconds: the shortest and the longest
/// election timeout, and the interval between a leader's heartbeats.
pub struct TimeoutBounds {
    pub minimum: u64,
    pub maximum: u64,
    pub heartbeat_interval: u64,
}

impl View for ElectionTimeoutRange {
    type V = TimeoutBounds;

    closed spec fn view(&self) -> TimeoutBounds {
        TimeoutBounds {
            minimum: self.minimum_milliseconds,
            maximum: self.maximum_milliseconds,
            heartbeat_interval: self.heartbeat_interval_milliseconds,
        }
    }
}

impl ElectionTimeoutRange {
    #[verifier::type_invariant]
    spec fn well_formed(self) -> bool {
        self.minimum_milliseconds <= self.maximum_milliseconds < u64::MAX
    }

    /// A random election timeout, from the minimum to the maximum
    /// inclusive.
    pub fn new_timeout(&self) -> (timeout: Duration)
        ensures
            exists|milliseconds: u64|
                self@.minimum <= milliseconds <= self@.maximum
                && timeout == #[trigger] millis_duration(milliseconds),
    {
        proof {
            use_type_invariant(self);
        }
        let milliseconds = random_in_range(self.minimum_milliseconds, self.maximum_milliseconds + 1);
        let timeout = duration_from_millis(milliseconds);
        assert(timeout == millis_duration(milliseconds));
        timeout
    }

    /// The interval between a leader's heartbeats.
    pub fn leader_heartbeat(&self) -> (interval: Duration)
        ensures
            interval == millis_duration(self@.heartbeat_interval),
    {
        duration_from_millis(self.heartbeat_interval_milliseconds)
    }

    pub fn minimum_milliseconds(&self) -> (milliseconds: u64)
        ensures
            milliseconds == self@.minimum,
    {
        self.minimum_milliseconds
    }

    pub fn maximum_milliseconds(&self) -> (milliseconds: u64)
        ensures
            milliseconds == self@.maximum,
    {
        self.maximum_milliseconds
    }

    pub fn heartbeat_interval_milliseconds(&self) -> (milliseconds: u64)
        ensures
            milliseconds == self@.heartbeat_interval,
    {
        self.heartbeat_interval_milliseconds
    }

    /// Used in unit testing
    pub fn testing() -> (range: ElectionTimeoutRange)
        ensures
            range@ == (TimeoutBounds { minimum: 1, maximum: 1, heartbeat_interval: 1 }),
    {
        ElectionTimeoutRange {
            minimum_milliseconds: 1,
            maximum_milliseconds: 1,
            heartbeat_interval_milliseconds: 1,
        }
    }

    /// Standard LAN timing
    pub fn lan() -> (range: ElectionTimeoutRange)
        ensures
            range@ == (TimeoutBounds { minimum: 150, maximum: 300, heartbeat_interval: 50 }),
    {
        ElectionTimeoutRange {
            minimum_milliseconds: 150,
            maximum_milliseconds: 300,
            heartbeat_interval_milliseconds: 50,
        }
    }

    /// Geographical close WAN timing
    pub fn close_wan() -> (range: ElectionTimeoutRange)
        ensures
            range@ == (TimeoutBounds { minimum: 250, maximum: 500, heartbeat_interval: 50 }),
    {
        ElectionTimeoutRange {
            minimum_milliseconds: 250,
            maximum_milliseconds: 500,
            heartbeat_interval_milliseconds: 50,
        }
    }

    /// Globalally disperse WAN timing
    pub fn global_wan() -> (range: ElectionTimeoutRange)
        ensures
            range@ == (TimeoutBounds { minimum: 500, maximum: 2500, heartbeat_interval: 50 }),
    {
        ElectionTimeoutRange {
            minimum_milliseconds: 500,
            maximum_milliseconds: 2500,
            heartbeat_interval_milliseconds: 50,
        }
    }
}

} // verus!
