//! A network log ingestion daemon's core: the decisions that turn datagrams and
//! stream lines into file commands, the bounded channel's overflow policy, the
//! file sink's write and rotation plans, and the rotation schedule.
pub mod error;
pub mod listener;
pub mod metrics;
pub mod settings;
pub mod shutdown;
pub mod text;
pub mod writer;
