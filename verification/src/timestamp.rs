use vstd::prelude::*;

verus! {

/// A point in time, in whole seconds since the Unix epoch.
///
/// All timing policy in this library (re-prompt intervals, eviction
/// timeouts) is decided against such second counts.
#[derive(Debug, Clone, Copy, PartialEq, Eq, Structural)]
pub struct Timestamp {
    pub secs: u64,
}

/// Seconds elapsed from `from` to `now`, clamped at zero when the clock
/// reads earlier than the recorded moment.
pub open spec fn elapsed_secs(from: int, now: int) -> int {
    if now >= from {
        now - from
    } else {
        0
    }
}

/// Relies on `std::time::SystemTime::now` and `duration_since`: the wall
/// clock, of whose reading nothing is promised.
#[verifier::external_body]
pub(crate) fn unix_now_secs() -> u64 {
    match std::time::SystemTime::now().duration_since(std::time::SystemTime::UNIX_EPOCH) {
        Ok(d) => d.as_secs(),
        Err(_) => 0,
    }
}

impl Timestamp {
    /// The current wall-clock time.
    pub fn now() -> Timestamp {
        Timestamp { secs: unix_now_secs() }
    }

    /// A timestamp for a known second count, mainly for replaying
    /// recorded moments.
    pub fn from_secs(secs: u64) -> (t: Timestamp)
        ensures
            t.secs == secs,
    {
        Timestamp { secs }
    }

    /// Seconds elapsed between this timestamp and the given clock reading.
    pub fn elapsed_at(&self, now_secs: u64) -> (r: u64)
        ensures
            r == elapsed_secs(self.secs as int, now_secs as int),
    {
        if now_secs >= self.secs {
            now_secs - self.secs
        } else {
            0
        }
    }

    /// Seconds elapsed between this timestamp and the wall clock now.
    pub fn elapsed(&self) -> u64 {
        self.elapsed_at(unix_now_secs())
    }
}

} // verus!
