//! The command channel's policy, the file sink, and rotation.
pub mod metrics;
pub mod rotation_policy;
pub mod file_rotation;
pub mod file_writer;
pub mod backpressure;
