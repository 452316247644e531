use vstd::prelude::*;
use crate::metrics::RequestMetrics;

verus! {

/// How long to sleep between a failed attempt and the next one, in
/// milliseconds.
pub const BACKOFF_MILLIS: u64 = 200;

/// What one physical attempt produced: either an HTTP response (any
/// status code counts — success means a response was received) or a
/// transport-level failure (timeout, connection or DNS error). `nanos`
/// is the attempt's elapsed wall time in nanoseconds.
pub enum AttemptOutcome {
    Response { status: u16, nanos: u64 },
    TransportFailure { error: String, nanos: u64 },
}

/// The verdict on one whole logical request: the response that ended it,
/// or the last transport error once every attempt failed. `nanos` is the
/// final attempt's duration.
pub enum RequestOutcome {
    Success { status: u16, nanos: u64 },
    Failure { error: String, nanos: u64 },
}

/// What the driver must do after reporting an attempt: sleep and try
/// again, or stop — the logical request is complete.
pub enum RetryAction {
    Backoff { millis: u64 },
    Finished(RequestOutcome),
}

/// Whether the attempt received a response.
pub open spec fn is_response(o: AttemptOutcome) -> bool {
    o is Response
}

/// The attempt's elapsed time in nanoseconds.
pub open spec fn outcome_nanos(o: AttemptOutcome) -> u64 {
    match o {
        AttemptOutcome::Response { nanos, .. } => nanos,
        AttemptOutcome::TransportFailure { nanos, .. } => nanos,
    }
}

/// The response's status code; meaningful only when a response came.
pub open spec fn outcome_status(o: AttemptOutcome) -> u16 {
    match o {
        AttemptOutcome::Response { status, .. } => status,
        AttemptOutcome::TransportFailure { .. } => 0,
    }
}

/// The transport error's description; empty when a response came.
pub open spec fn outcome_error(o: AttemptOutcome) -> Seq<char> {
    match o {
        AttemptOutcome::Response { .. } => Seq::empty(),
        AttemptOutcome::TransportFailure { error, .. } => error@,
    }
}

/// No attempt before index `k` received a response.
pub open spec fn no_response_before(outcomes: Seq<AttemptOutcome>, k: int) -> bool {
    forall|i: int| 0 <= i < k ==> !is_response(#[trigger] outcomes[i])
}

/// Every attempt in the table failed at the transport level.
pub open spec fn all_transport_failures(outcomes: Seq<AttemptOutcome>) -> bool {
    forall|i: int| 0 <= i < outcomes.len() ==> !is_response(#[trigger] outcomes[i])
}

/// The retry state of one logical request: how many attempts have been
/// made, out of `max_retries + 1` allowed, and whether a verdict fell.
/// Stateless across logical requests — each gets a fresh executor.
pub struct RetryExecutor {
    pub max_retries: u32,
    pub attempts_made: u32,
    pub finished: bool,
}

impl RetryExecutor {
    /// An unfinished request has attempts left; a finished one took
    /// between one and `max_retries + 1` attempts.
    pub open spec fn wf(self) -> bool {
        &&& self.max_retries < u32::MAX
        &&& (!self.finished ==> self.attempts_made <= self.max_retries)
        &&& (self.finished ==> 1 <= self.attempts_made <= self.max_retries + 1)
    }

    /// A fresh logical request: no attempt made yet.
    pub fn new(max_retries: u32) -> (e: RetryExecutor)
        requires
            max_retries < u32::MAX,
        ensures
            e.max_retries == max_retries,
            e.attempts_made == 0,
            !e.finished,
            e.wf(),
    {
        RetryExecutor { max_retries, attempts_made: 0, finished: false }
    }

    /// Takes one attempt's outcome and decides what happens next.
    /// A response of any status ends the request at once as a success,
    /// recorded with that attempt's duration. A transport failure asks
    /// for a backoff while retries remain; the final failure ends the
    /// request, recorded with the last attempt's duration. Exactly one
    /// counter and one duration entry are touched per logical request,
    /// on the attempt that finishes it.
    pub fn on_attempt(&mut self, outcome: AttemptOutcome, metrics: &mut RequestMetrics) -> (a:
        RetryAction)
        requires
            old(self).wf(),
            !old(self).finished,
            old(metrics).consistent(),
            old(metrics).successful_requests < u32::MAX,
            old(metrics).failed_requests < u32::MAX,
        ensures
            final(self).wf(),
            final(metrics).consistent(),
            final(self).max_retries == old(self).max_retries,
            final(self).attempts_made == old(self).attempts_made + 1,
            (outcome matches AttemptOutcome::Response { status, nanos } ==> {
                &&& final(self).finished
                &&& final(metrics).successful_requests == old(metrics).successful_requests + 1
                &&& final(metrics).failed_requests == old(metrics).failed_requests
                &&& final(metrics).request_times@ == old(metrics).request_times@.push(nanos)
                &&& a == RetryAction::Finished(RequestOutcome::Success { status, nanos })
            }),
            (outcome matches AttemptOutcome::TransportFailure { error, nanos } ==> {
                if old(self).attempts_made < old(self).max_retries {
                    &&& !final(self).finished
                    &&& *final(metrics) == *old(metrics)
                    &&& a == RetryAction::Backoff { millis: BACKOFF_MILLIS }
                } else {
                    &&& final(self).finished
                    &&& final(metrics).successful_requests == old(metrics).successful_requests
                    &&& final(metrics).failed_requests == old(metrics).failed_requests + 1
                    &&& final(metrics).request_times@ == old(metrics).request_times@.push(nanos)
                    &&& a == RetryAction::Finished(RequestOutcome::Failure { error, nanos })
                }
            }),
    {
        match outcome {
            AttemptOutcome::Response { status, nanos } => {
                metrics.record_success(nanos);
                self.finished = true;
                self.attempts_made = self.attempts_made + 1;
                RetryAction::Finished(RequestOutcome::Success { status, nanos })
            },
            AttemptOutcome::TransportFailure { error, nanos } => {
                self.attempts_made = self.attempts_made + 1;
                if self.attempts_made <= self.max_retries {
                    RetryAction::Backoff { millis: BACKOFF_MILLIS }
                } else {
                    metrics.record_failure(nanos);
                    self.finished = true;
                    RetryAction::Finished(RequestOutcome::Failure { error, nanos })
                }
            },
        }
    }
}

/// Every finished logical request took at least one attempt and at most
/// `max_retries + 1`.
pub proof fn lemma_attempt_bound(e: RetryExecutor)
    requires
        e.wf(),
        e.finished,
    ensures
        1 <= e.attempts_made <= e.max_retries + 1,
{
}

proof fn lemma_first_response_below(outcomes: Seq<AttemptOutcome>, i: int)
    requires
        0 <= i < outcomes.len(),
        is_response(outcomes[i]),
    ensures
        exists|k: int|
            0 <= k < outcomes.len() && is_response(#[trigger] outcomes[k]) && no_response_before(
                outcomes,
                k,
            ),
    decreases i,
{
    if no_response_before(outcomes, i) {
        assert(is_response(outcomes[i]) && no_response_before(outcomes, i));
    } else {
        let j = choose|j: int| 0 <= j < i && is_response(#[trigger] outcomes[j]);
        lemma_first_response_below(outcomes, j);
    }
}

/// Every attempt table either fails throughout or has a first attempt
/// that receives a response: the two cases that the replay's contract
/// describes cover every possible table.
pub proof fn lemma_attempt_tables_are_covered(outcomes: Seq<AttemptOutcome>)
    ensures
        all_transport_failures(outcomes) || exists|k: int|
            0 <= k < outcomes.len() && is_response(#[trigger] outcomes[k]) && no_response_before(
                outcomes,
                k,
            ),
{
    if !all_transport_failures(outcomes) {
        let i = choose|i: int| 0 <= i < outcomes.len() && is_response(#[trigger] outcomes[i]);
        lemma_first_response_below(outcomes, i);
    }
}

/// Replays one logical request against a table of attempt outcomes:
/// `outcomes[i]` is what the `i`-th attempt would produce. Returns the
/// verdict and how many attempts were spent. The first attempt that
/// receives a response ends the request as a success with that attempt's
/// duration recorded; if every attempt fails, the request is recorded as
/// one failure with the last attempt's duration.
pub fn execute_attempts(max_retries: u32, outcomes: &Vec<AttemptOutcome>, metrics: &mut
    RequestMetrics) -> (r: (RequestOutcome, u32))
    requires
        max_retries < u32::MAX,
        outcomes@.len() == max_retries + 1,
        old(metrics).consistent(),
        old(metrics).successful_requests < u32::MAX,
        old(metrics).failed_requests < u32::MAX,
    ensures
        final(metrics).consistent(),
        1 <= r.1 <= max_retries + 1,
        forall|k: int|
            0 <= k < outcomes@.len() && is_response(#[trigger] outcomes@[k]) && no_response_before(
                outcomes@,
                k,
            ) ==> {
                &&& r.1 == k + 1
                &&& r.0 == RequestOutcome::Success {
                    status: outcome_status(outcomes@[k]),
                    nanos: outcome_nanos(outcomes@[k]),
                }
                &&& final(metrics).successful_requests == old(metrics).successful_requests + 1
                &&& final(metrics).failed_requests == old(metrics).failed_requests
                &&& final(metrics).request_times@ == old(metrics).request_times@.push(
                    outcome_nanos(outcomes@[k]),
                )
            },
        all_transport_failures(outcomes@) ==> {
            &&& r.1 == max_retries + 1
            &&& (r.0 matches RequestOutcome::Failure { error, nanos } && error@ == outcome_error(
                outcomes@.last(),
            ) && nanos == outcome_nanos(outcomes@.last()))
            &&& final(metrics).successful_requests == old(metrics).successful_requests
            &&& final(metrics).failed_requests == old(metrics).failed_requests + 1
            &&& final(metrics).request_times@ == old(metrics).request_times@.push(
                outcome_nanos(outcomes@.last()),
            )
        },
{
    let mut exec = RetryExecutor::new(max_retries);
    loop
        invariant
            exec.wf(),
            !exec.finished,
            exec.max_retries == max_retries,
            max_retries < u32::MAX,
            outcomes@.len() == max_retries + 1,
            exec.attempts_made <= max_retries,
            no_response_before(outcomes@, exec.attempts_made as int),
            *metrics == *old(metrics),
            metrics.consistent(),
            metrics.successful_requests < u32::MAX,
            metrics.failed_requests < u32::MAX,
        decreases max_retries - exec.attempts_made,
    {
        let ghost idx = exec.attempts_made as int;
        let i = exec.attempts_made as usize;
        let o = match &outcomes[i] {
            AttemptOutcome::Response { status, nanos } => AttemptOutcome::Response {
                status: *status,
                nanos: *nanos,
            },
            AttemptOutcome::TransportFailure { error, nanos } => AttemptOutcome::TransportFailure {
                error: error.clone(),
                nanos: *nanos,
            },
        };
        assert(o == outcomes@[idx]);
        let a = exec.on_attempt(o, metrics);
        match a {
            RetryAction::Finished(verdict) => {
                let attempts = exec.attempts_made;
                proof {
                    if is_response(outcomes@[idx]) {
                        assert(!all_transport_failures(outcomes@)) by {
                            assert(is_response(outcomes@[idx]));
                        }
                        assert forall|k: int|
                            0 <= k < outcomes@.len() && is_response(#[trigger] outcomes@[k])
                                && no_response_before(outcomes@, k) implies k == idx by {
                            if k < idx {
                                assert(!is_response(outcomes@[k]));
                            }
                            if k > idx {
                                assert(!is_response(outcomes@[idx]));
                            }
                        }
                    } else {
                        assert(idx == max_retries);
                        assert(outcomes@.last() == outcomes@[idx]);
                        assert forall|k: int|
                            0 <= k < outcomes@.len() implies !is_response(
                            #[trigger] outcomes@[k],
                        ) by {
                            if k < idx {
                                assert(!is_response(outcomes@[k]));
                            }
                        }
                    }
                }
                return (verdict, attempts);
            },
            RetryAction::Backoff { .. } => {
                proof {
                    assert forall|j: int| 0 <= j < idx + 1 implies !is_response(
                        #[trigger] outcomes@[j],
                    ) by {}
                }
            },
        }
    }
}

} // verus!
