use vstd::prelude::*;

verus! {

/// The run's shared outcome store: how many logical requests succeeded,
/// how many exhausted their retries, and the end-to-end duration of each,
/// in nanoseconds of its final attempt. Concurrent writers each own the
/// store while they update it; this type carries the accounting rules.
pub struct RequestMetrics {
    /// Logical requests that received a response, whatever its status.
    pub successful_requests: u32,
    /// Logical requests whose every attempt failed at the transport level.
    pub failed_requests: u32,
    /// One final-attempt duration per completed logical request, in
    /// nanoseconds, in completion order.
    pub request_times: Vec<u64>,
}

impl RequestMetrics {
    /// Every completed logical request added exactly one duration and
    /// bumped exactly one counter, so the counters always account for
    /// the recorded durations.
    pub open spec fn consistent(self) -> bool {
        self.successful_requests + self.failed_requests == self.request_times@.len()
    }

    /// An empty store: nothing succeeded, nothing failed, no durations.
    pub fn new() -> (m: RequestMetrics)
        ensures
            m.successful_requests == 0,
            m.failed_requests == 0,
            m.request_times@ == Seq::<u64>::empty(),
            m.consistent(),
    {
        RequestMetrics { successful_requests: 0, failed_requests: 0, request_times: Vec::new() }
    }

    /// Records one logical request that received a response: its duration
    /// is appended and the success counter is bumped, once each.
    pub fn record_success(&mut self, nanos: u64)
        requires
            old(self).consistent(),
            old(self).successful_requests < u32::MAX,
        ensures
            final(self).successful_requests == old(self).successful_requests + 1,
            final(self).failed_requests == old(self).failed_requests,
            final(self).request_times@ == old(self).request_times@.push(nanos),
            final(self).consistent(),
    {
        self.request_times.push(nanos);
        self.successful_requests = self.successful_requests + 1;
    }

    /// Records one logical request that exhausted its retries: the last
    /// attempt's duration is appended and the failure counter is bumped,
    /// once each.
    pub fn record_failure(&mut self, nanos: u64)
        requires
            old(self).consistent(),
            old(self).failed_requests < u32::MAX,
        ensures
            final(self).successful_requests == old(self).successful_requests,
            final(self).failed_requests == old(self).failed_requests + 1,
            final(self).request_times@ == old(self).request_times@.push(nanos),
            final(self).consistent(),
    {
        self.request_times.push(nanos);
        self.failed_requests = self.failed_requests + 1;
    }
}

/// After any run, the two counters account exactly for the recorded
/// durations: successes plus failures equal the number of entries. The
/// store starts that way and both recording operations keep it so.
pub proof fn lemma_counters_account_for_times(m: RequestMetrics)
    requires
        m.consistent(),
    ensures
        m.successful_requests + m.failed_requests == m.request_times@.len(),
{
}

} // verus!
