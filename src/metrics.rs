//! The metric updates that components emit. The library decides which metric
//! moves and by how much; the exporter that records them lives outside it.
use vstd::prelude::*;
use vstd::string::*;
use crate::text::starts_with;

pub mod messages;

verus! {

/// The stable names of every metric the daemon emits.
#[derive(Debug, Clone, Copy, PartialEq, Eq, Structural)]
pub enum MetricName {
    MessagesReceived,
    MessagesWritten,
    MessagesDropped,
    TcpConnections,
    TcpConnectionsRejected,
    TcpConnectionsActive,
    UdpDatagramsReceived,
    BackpressureEvents,
    FileWriteLatency,
    FileRotationEvents,
    FileRotationErrors,
}

/// One update of one metric.
#[derive(Debug, Clone, Copy, PartialEq, Eq, Structural)]
pub enum MetricUpdate {
    /// Add the amount to a counter.
    Counter(MetricName, u64),
    /// Set a gauge to the value.
    Gauge(MetricName, u64),
    /// Observe a duration, in nanoseconds, in a histogram.
    Histogram(MetricName, u64),
}

impl MetricName {
    /// The exported name of the metric.
    pub fn as_str(&self) -> (r: &'static str)
        ensures
            r@ == match *self {
                MetricName::MessagesReceived => "messages_received_total"@,
                MetricName::MessagesWritten => "messages_written_total"@,
                MetricName::MessagesDropped => "messages_dropped_total"@,
                MetricName::TcpConnections => "tcp_connections_total"@,
                MetricName::TcpConnectionsRejected => "tcp_connections_rejected_total"@,
                MetricName::TcpConnectionsActive => "tcp_connections_active"@,
                MetricName::UdpDatagramsReceived => "udp_datagrams_received_total"@,
                MetricName::BackpressureEvents => "backpressure_events_total"@,
                MetricName::FileWriteLatency => "file_write_latency_seconds"@,
                MetricName::FileRotationEvents => "file_rotation_events_total"@,
                MetricName::FileRotationErrors => "file_rotation_errors_total"@,
            },
    {
        match self {
            MetricName::MessagesReceived => "messages_received_total",
            MetricName::MessagesWritten => "messages_written_total",
            MetricName::MessagesDropped => "messages_dropped_total",
            MetricName::TcpConnections => "tcp_connections_total",
            MetricName::TcpConnectionsRejected => "tcp_connections_rejected_total",
            MetricName::TcpConnectionsActive => "tcp_connections_active",
            MetricName::UdpDatagramsReceived => "udp_datagrams_received_total",
            MetricName::BackpressureEvents => "backpressure_events_total",
            MetricName::FileWriteLatency => "file_write_latency_seconds",
            MetricName::FileRotationEvents => "file_rotation_events_total",
            MetricName::FileRotationErrors => "file_rotation_errors_total",
        }
    }
}

/// The scrape endpoint's reply to a request whose text is `request`, given the
/// rendered exposition if the exporter is installed.
pub open spec fn scrape_response_text(request: Seq<char>, rendered: Option<Seq<char>>) -> Seq<
    char,
> {
    let prefix = "GET /metrics"@;
    if prefix.len() <= request.len() && request.subrange(0, prefix.len() as int) == prefix {
        let body = match rendered {
            Some(t) => t,
            None => "# Metrics not available\n"@,
        };
        "HTTP/1.1 200 OK\r\nContent-Type: text/plain; version=0.0.4\r\n\r\n"@ + body + "\r\n"@
    } else {
        "HTTP/1.1 404 Not Found\r\n\r\n"@
    }
}

/// Answers one scrape request: the metrics for `GET /metrics`, 404 otherwise.
pub fn scrape_response(request: &str, rendered: Option<String>) -> (r: String)
    ensures
        r@ == scrape_response_text(
            request@,
            match rendered {
                Some(t) => Some(t@),
                None => None,
            },
        ),
{
    if starts_with(request, "GET /metrics") {
        let mut r = String::from_str("HTTP/1.1 200 OK\r\nContent-Type: text/plain; version=0.0.4\r\n\r\n");
        match rendered {
            Some(t) => r.append(t.as_str()),
            None => r.append("# Metrics not available\n"),
        }
        r.append("\r\n");
        r
    } else {
        String::from_str("HTTP/1.1 404 Not Found\r\n\r\n")
    }
}

} // verus!
