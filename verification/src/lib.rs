//! A concurrent HTTP load-generation engine: a tick-driven scheduler
//! dispatches batches of requests, a retry executor gives each logical
//! request a bounded number of attempts, a metrics accumulator records
//! every outcome, and a report builder summarizes the latencies.

pub mod banner;
pub mod config;
pub mod metrics;
pub mod report;
pub mod retry;
pub mod scheduler;
