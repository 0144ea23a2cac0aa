//! The monotonic counter of valid ping requests, exposed for scraping. Each
//! recorded ping raises the count by exactly one, so no update is ever lost:
//! a run of `k` recorded pings raises the count by exactly `k`, whatever else
//! happens between them.

use vstd::prelude::*;

verus! {

/// Counts valid calls to the ping endpoint.
pub struct PingCounter {
    count: u64,
}

/// The count after `pings` further recorded pings, starting from `start`.
pub open spec fn count_after(start: int, pings: nat) -> int
    decreases pings,
{
    if pings == 0 {
        start
    } else {
        count_after(start, (pings - 1) as nat) + 1
    }
}

/// No update is lost: however the recorded pings are interleaved with reads,
/// `pings` of them raise the count by exactly `pings`.
pub proof fn lemma_no_lost_updates(start: int, pings: nat)
    ensures
        count_after(start, pings) == start + pings,
    decreases pings,
{
    if pings > 0 {
        lemma_no_lost_updates(start, (pings - 1) as nat);
    }
}

impl PingCounter {
    /// A fresh counter reads zero.
    pub fn new() -> (c: PingCounter)
        ensures
            c.count() == 0,
    {
        PingCounter { count: 0 }
    }

    /// The current count.
    pub closed spec fn count(&self) -> u64 {
        self.count
    }

    /// Records one valid ping: the count rises by exactly one.
    pub fn record_ping(&mut self)
        requires
            old(self).count() < u64::MAX,
        ensures
            final(self).count() == old(self).count() + 1,
    {
        self.count = self.count + 1;
    }

    /// Reads the count for the metrics exporter.
    pub fn value(&self) -> (v: u64)
        ensures
            v == self.count(),
    {
        self.count
    }
}

} // verus!
