//! Message counters shared by the listeners, the channel and the sink.
use vstd::prelude::*;
use crate::metrics::{MetricName, MetricUpdate};

verus! {

/// One message arrived from a client.
pub fn received() -> (r: MetricUpdate)
    ensures
        r == MetricUpdate::Counter(MetricName::MessagesReceived, 1),
{
    MetricUpdate::Counter(MetricName::MessagesReceived, 1)
}

/// One record reached the live file.
pub fn written() -> (r: MetricUpdate)
    ensures
        r == MetricUpdate::Counter(MetricName::MessagesWritten, 1),
{
    MetricUpdate::Counter(MetricName::MessagesWritten, 1)
}

/// One command was dropped because the channel was full.
pub fn dropped() -> (r: MetricUpdate)
    ensures
        r == MetricUpdate::Counter(MetricName::MessagesDropped, 1),
{
    MetricUpdate::Counter(MetricName::MessagesDropped, 1)
}

} // verus!
