//! Decisions of the UDP and TCP listeners.
pub mod metrics;
pub mod tcp_server;
pub mod udp_server;
