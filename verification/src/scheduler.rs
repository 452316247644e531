use vstd::prelude::*;

verus! {

/// The cadence of the batch loop: one tick per second.
pub const TICK_SECS: u64 = 1;

/// What the batch loop must do at the top of a tick.
pub enum TickDecision {
    /// The run is still inside its duration: launch `batch_size`
    /// concurrent logical requests, with `remaining_secs` left to run.
    Dispatch { remaining_secs: u64, batch_size: u32 },
    /// The duration has elapsed: stop the run.
    Stop,
}

/// The batch scheduler's own accounting, separate from the request
/// metrics: how many logical requests were handed out, independent of
/// their outcomes.
pub struct RunState {
    /// Incremented once per spawned logical request, at dispatch.
    pub total_requests_issued: u32,
}

impl RunState {
    /// A run that has issued nothing yet.
    pub fn new() -> (s: RunState)
        ensures
            s.total_requests_issued == 0,
    {
        RunState { total_requests_issued: 0 }
    }

    /// Accounts for one spawned logical request, whatever becomes of it.
    pub fn record_issued(&mut self)
        requires
            old(self).total_requests_issued < u32::MAX,
        ensures
            final(self).total_requests_issued == old(self).total_requests_issued + 1,
    {
        self.total_requests_issued = self.total_requests_issued + 1;
    }
}

/// The tick-loop scheduler: while the run is inside its configured
/// duration it dispatches one batch of `concurrency` requests per tick;
/// once the duration has elapsed — or an interrupt stopped the run — it
/// is stopped for good.
pub struct BatchScheduler {
    pub duration_secs: u64,
    pub concurrency: u32,
    pub stopped: bool,
}

impl BatchScheduler {
    /// A running scheduler for a validated configuration.
    pub fn new(duration_secs: u64, concurrency: u32) -> (s: BatchScheduler)
        requires
            duration_secs > 0,
            concurrency > 0,
        ensures
            s.duration_secs == duration_secs,
            s.concurrency == concurrency,
            !s.stopped,
    {
        BatchScheduler { duration_secs, concurrency, stopped: false }
    }

    /// The decision at the top of a tick, given the elapsed wall time:
    /// dispatch a full batch while `elapsed_secs < duration_secs`, and
    /// stop — permanently — the first time the duration is reached.
    pub fn poll_tick(&mut self, elapsed_secs: u64) -> (d: TickDecision)
        requires
            !old(self).stopped,
        ensures
            final(self).duration_secs == old(self).duration_secs,
            final(self).concurrency == old(self).concurrency,
            elapsed_secs < old(self).duration_secs ==> (d == TickDecision::Dispatch {
                remaining_secs: (old(self).duration_secs - elapsed_secs) as u64,
                batch_size: old(self).concurrency,
            } && !final(self).stopped),
            elapsed_secs >= old(self).duration_secs ==> (d == TickDecision::Stop
                && final(self).stopped),
    {
        if elapsed_secs < self.duration_secs {
            TickDecision::Dispatch {
                remaining_secs: self.duration_secs - elapsed_secs,
                batch_size: self.concurrency,
            }
        } else {
            self.stopped = true;
            TickDecision::Stop
        }
    }
}

/// On the ideal cadence — the `n`-th tick observes an elapsed time of
/// `n * TICK_SECS` seconds — a run of `duration_secs` dispatches exactly
/// `duration_secs` batches before it stops: ticks `0, 1, ...` dispatch
/// while their elapsed time is below the duration, and the tick at
/// `duration_secs` stops.
pub proof fn lemma_ticks_dispatched_on_ideal_cadence(duration_secs: u64, tick: nat)
    ensures
        tick * TICK_SECS < duration_secs <==> tick < duration_secs,
{
    assert(TICK_SECS == 1);
    assert(tick * 1 == tick) by (nonlinear_arith);
}

} // verus!
