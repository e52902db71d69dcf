use vstd::prelude::*;

verus! {

/// Milliseconds a request may stay outstanding before the interface
/// re-enables its controls.
pub const TIMEOUT_MS: u64 = 5000;

/// Guard for the single outstanding request.
///
/// Time enters as plain millisecond readings of a monotonic clock, taken by
/// the caller. The guard remembers the instant its wait budget runs out;
/// `None` means the budget is already spent, so the guard reads as passed
/// at every instant.
pub struct Timeout {
    /// Length of the wait budget in milliseconds.
    pub duration: u64,
    /// Instant the running budget expires, or `None` when no wait runs.
    pub deadline: Option<u64>,
}

impl Timeout {
    /// The wait budget has run out at instant `now_ms`.
    pub open spec fn spec_passed(self, now_ms: u64) -> bool {
        match self.deadline {
            None => true,
            Some(d) => now_ms > d,
        }
    }

    /// Begin the wait: the budget runs out `duration` milliseconds from now.
    pub fn start(&mut self, now_ms: u64)
        requires
            now_ms + old(self).duration <= u64::MAX,
        ensures
            final(self).duration == old(self).duration,
            final(self).deadline == Some((now_ms + old(self).duration) as u64),
            !final(self).spec_passed(now_ms),
    {
        self.deadline = Some(now_ms + self.duration);
    }

    /// Spend the budget at once, so the guard reads as passed immediately.
    pub fn reset(&mut self)
        ensures
            final(self).duration == old(self).duration,
            final(self).deadline == None::<u64>,
            forall|now_ms: u64| final(self).spec_passed(now_ms),
    {
        self.deadline = None;
    }

    /// Whether the wait budget has run out at instant `now_ms`.
    pub fn passed(&self, now_ms: u64) -> (r: bool)
        ensures
            r == self.spec_passed(now_ms),
    {
        match self.deadline {
            None => true,
            Some(d) => now_ms > d,
        }
    }

    /// Milliseconds left of the wait budget at instant `now_ms`; meaningful
    /// only while the guard has not passed, which the caller must ensure.
    pub fn remaining(&self, now_ms: u64) -> (r: u64)
        requires
            !self.spec_passed(now_ms),
        ensures
            r == self.deadline->Some_0 - now_ms,
    {
        match self.deadline {
            None => 0,
            Some(d) => d - now_ms,
        }
    }
}

impl Default for Timeout {
    /// A fresh guard waits five seconds and starts with its budget spent,
    /// so the interface begins enabled.
    fn default() -> (r: Self)
        ensures
            r.duration == TIMEOUT_MS,
            r.deadline == None::<u64>,
    {
        Timeout { duration: TIMEOUT_MS, deadline: None }
    }
}

/// Once a wait has begun, the guard reads as passed exactly at the instants
/// past the end of the budget: before or at the deadline the controls stay
/// disabled, after it they re-enable.
pub proof fn lemma_passed_after_duration(t: Timeout, start_ms: u64, later_ms: u64)
    requires
        start_ms + t.duration <= u64::MAX,
        t.deadline == Some((start_ms + t.duration) as u64),
    ensures
        t.spec_passed(later_ms) <==> later_ms > start_ms + t.duration,
{
}

} // verus!
