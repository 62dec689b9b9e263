//! Bounded polling of hardware status flags.
//!
//! The DSI regulator, DSI PLL, DSI command FIFO and USB core reset are each
//! polled a fixed number of times before giving up. [`RetryBudget`] holds the
//! decision: after each read of the flag it says whether the flag is set, the
//! caller should wait and read again, or the wait has timed out.

use vstd::prelude::*;

verus! {

/// What to do after reading a polled status flag.
#[derive(Clone, Copy, Debug, PartialEq, Eq, Structural)]
pub enum PollStep {
    /// The flag is set: stop polling, successfully.
    Ready,
    /// The flag is not set yet: wait, then read it again.
    Retry,
    /// The flag is still not set and no retries are left.
    TimedOut,
}

/// Number of retries left while waiting for a status flag.
pub struct RetryBudget {
    remaining: u32,
}

impl RetryBudget {
    /// Retries still allowed.
    pub closed spec fn spec_remaining(&self) -> u32 {
        self.remaining
    }

    /// A budget allowing `retries` waits before timing out.
    pub fn new(retries: u32) -> (b: Self)
        ensures
            b.spec_remaining() == retries,
    {
        RetryBudget { remaining: retries }
    }

    /// Decides what follows a read of the flag whose value was `ready`; a retry
    /// uses up one unit of the budget.
    pub fn step(&mut self, ready: bool) -> (s: PollStep)
        ensures
            ready ==> s == PollStep::Ready,
            ready ==> final(self).spec_remaining() == old(self).spec_remaining(),
            !ready && old(self).spec_remaining() > 0 ==> s == PollStep::Retry,
            !ready && old(self).spec_remaining() > 0 ==> final(self).spec_remaining()
                == old(self).spec_remaining() - 1,
            !ready && old(self).spec_remaining() == 0 ==> s == PollStep::TimedOut,
            !ready && old(self).spec_remaining() == 0 ==> final(self).spec_remaining() == 0,
    {
        if ready {
            PollStep::Ready
        } else if self.remaining > 0 {
            self.remaining = self.remaining - 1;
            PollStep::Retry
        } else {
            PollStep::TimedOut
        }
    }
}

} // verus!
