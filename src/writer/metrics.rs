//! Metric updates of the file sink's writes.
use vstd::prelude::*;
use crate::metrics::{MetricName, MetricUpdate};

verus! {

/// One write took `nanos` nanoseconds.
pub fn record_latency(nanos: u64) -> (r: MetricUpdate)
    ensures
        r == MetricUpdate::Histogram(MetricName::FileWriteLatency, nanos),
{
    MetricUpdate::Histogram(MetricName::FileWriteLatency, nanos)
}

/// Measures one write: started at a monotonic reading, finished at a later one.
#[derive(Debug, Clone, Copy)]
pub struct WriteTimer {
    start: u64,
}

impl WriteTimer {
    /// The monotonic reading, in nanoseconds, at which the write started.
    pub closed spec fn started_at(self) -> u64 {
        self.start
    }

    /// Starts timing at the monotonic reading `now_nanos`.
    pub fn start(now_nanos: u64) -> (r: WriteTimer)
        ensures
            r.started_at() == now_nanos,
    {
        WriteTimer { start: now_nanos }
    }

    /// Stops timing at `now_nanos` and yields the latency observation; a
    /// reading earlier than the start counts as no time.
    pub fn finish(self, now_nanos: u64) -> (r: MetricUpdate)
        ensures
            r == MetricUpdate::Histogram(
                MetricName::FileWriteLatency,
                if now_nanos >= self.started_at() {
                    (now_nanos - self.started_at()) as u64
                } else {
                    0
                },
            ),
    {
        let elapsed = if now_nanos >= self.start {
            now_nanos - self.start
        } else {
            0
        };
        record_latency(elapsed)
    }
}

} // verus!
