//! Metric updates of the network listeners.
use vstd::prelude::*;
use crate::metrics::{MetricName, MetricUpdate};

verus! {

/// A TCP connection was admitted.
pub fn connection_accepted() -> (r: MetricUpdate)
    ensures
        r == MetricUpdate::Counter(MetricName::TcpConnections, 1),
{
    MetricUpdate::Counter(MetricName::TcpConnections, 1)
}

/// The number of open TCP connections is now `count`.
pub fn connection_active(count: usize) -> (r: MetricUpdate)
    ensures
        r == MetricUpdate::Gauge(MetricName::TcpConnectionsActive, count as u64),
{
    MetricUpdate::Gauge(MetricName::TcpConnectionsActive, count as u64)
}

/// A TCP connection was refused because the cap was reached.
pub fn connection_rejected() -> (r: MetricUpdate)
    ensures
        r == MetricUpdate::Counter(MetricName::TcpConnectionsRejected, 1),
{
    MetricUpdate::Counter(MetricName::TcpConnectionsRejected, 1)
}

/// A UDP datagram was received.
pub fn datagram_received() -> (r: MetricUpdate)
    ensures
        r == MetricUpdate::Counter(MetricName::UdpDatagramsReceived, 1),
{
    MetricUpdate::Counter(MetricName::UdpDatagramsReceived, 1)
}

} // verus!
