//! The immutable configuration that every component reads.
use vstd::prelude::*;
use crate::text::text_eq;

verus! {

/// Transport the daemon listens on.
#[derive(Debug, Clone, Copy, PartialEq, Eq, Structural)]
pub enum ProtocolType {
    TCP,
    UDP,
}

/// How the live file is rotated.
#[derive(Debug, Clone, Copy, PartialEq, Eq, Structural)]
pub enum RotationPolicyType {
    ByDuration,
    ByDay,
}

/// What a producer does when the command channel is full.
#[derive(Debug, Clone, Copy, PartialEq, Eq, Structural)]
pub enum BackpressurePolicy {
    /// Wait until the sink frees a slot.
    Block,
    /// Drop the command, count it, and carry on.
    Discard,
}

/// The protocol that a configuration value names, if it names one.
pub open spec fn protocol_named(t: Seq<char>) -> Option<ProtocolType> {
    if t == "TCP"@ {
        Some(ProtocolType::TCP)
    } else if t == "UDP"@ {
        Some(ProtocolType::UDP)
    } else {
        None
    }
}

/// The rotation policy that a configuration value names, if it names one.
pub open spec fn rotation_policy_named(t: Seq<char>) -> Option<RotationPolicyType> {
    if t == "ByDuration"@ {
        Some(RotationPolicyType::ByDuration)
    } else if t == "ByDay"@ {
        Some(RotationPolicyType::ByDay)
    } else {
        None
    }
}

/// The backpressure policy that a configuration value names, if it names one.
pub open spec fn backpressure_policy_named(t: Seq<char>) -> Option<BackpressurePolicy> {
    if t == "Block"@ {
        Some(BackpressurePolicy::Block)
    } else if t == "Discard"@ {
        Some(BackpressurePolicy::Discard)
    } else {
        None
    }
}

impl ProtocolType {
    /// Reads a protocol name exactly as written in the configuration.
    pub fn parse(s: &str) -> (r: Option<ProtocolType>)
        ensures
            r == protocol_named(s@),
    {
        if text_eq(s, "TCP") {
            Some(ProtocolType::TCP)
        } else if text_eq(s, "UDP") {
            Some(ProtocolType::UDP)
        } else {
            None
        }
    }
}

impl RotationPolicyType {
    /// Reads a rotation policy name exactly as written in the configuration.
    pub fn parse(s: &str) -> (r: Option<RotationPolicyType>)
        ensures
            r == rotation_policy_named(s@),
    {
        if text_eq(s, "ByDuration") {
            Some(RotationPolicyType::ByDuration)
        } else if text_eq(s, "ByDay") {
            Some(RotationPolicyType::ByDay)
        } else {
            None
        }
    }
}

impl BackpressurePolicy {
    /// Reads a backpressure policy name exactly as written in the configuration.
    pub fn parse(s: &str) -> (r: Option<BackpressurePolicy>)
        ensures
            r == backpressure_policy_named(s@),
    {
        if text_eq(s, "Block") {
            Some(BackpressurePolicy::Block)
        } else if text_eq(s, "Discard") {
            Some(BackpressurePolicy::Discard)
        } else {
            None
        }
    }
}

} // verus!

verus! {

/// Where and how the daemon listens.
#[derive(Debug, Clone)]
pub struct ServerConfig {
    pub protocol: ProtocolType,
    pub host: String,
    pub port: i32,
    pub max_connections: usize,
}

/// Connection cap used when the configuration names none.
pub fn default_max_connections() -> (r: usize)
    ensures
        r == 1000,
{
    1000
}

/// How many rotated files are kept and when rotation happens.
#[derive(Debug, Clone)]
pub struct RotationPolicyConfig {
    pub count: i32,
    pub policy: RotationPolicyType,
    /// Period in seconds; required for `ByDuration`.
    pub duration: Option<u64>,
}

/// Banner lines written at the start and end of each file.
#[derive(Debug, Clone, Copy)]
pub struct FormattingConfig {
    pub startingmsg: bool,
    pub endingmsg: bool,
}

/// Everything the file sink and the rotation scheduler read.
#[derive(Debug, Clone)]
pub struct FileWriterConfig {
    pub filedir: String,
    pub filename: String,
    pub rotation: RotationPolicyConfig,
    pub formatting: FormattingConfig,
    pub backpressure_policy: BackpressurePolicy,
}

/// Overflow policy used when the configuration names none.
pub fn default_backpressure_policy() -> (r: BackpressurePolicy)
    ensures
        r == BackpressurePolicy::Discard,
{
    BackpressurePolicy::Discard
}

/// The whole configuration.
#[derive(Debug, Clone)]
pub struct Settings {
    pub debug: bool,
    pub threads: i32,
    pub buffer_bound: usize,
    pub server: ServerConfig,
    pub filewriter: FileWriterConfig,
    pub metrics_port: u16,
}

/// Metrics endpoint port used when the configuration names none.
pub fn default_metrics_port() -> (r: u16)
    ensures
        r == 9090,
{
    9090
}

/// A setting that is present but out of its allowed range, or missing.
#[derive(Debug, Clone, Copy, PartialEq, Eq, Structural)]
pub enum SettingsError {
    NonPositiveThreads,
    NonPositiveBufferBound,
    NonPositiveMaxConnections,
    NonPositiveRotationCount,
    MissingRotationDuration,
    NonPositiveRotationDuration,
    NonPositiveMetricsPort,
}

/// The first problem found in `s`, checking the settings in declaration order.
pub open spec fn first_settings_problem(s: Settings) -> Option<SettingsError> {
    if s.threads <= 0 {
        Some(SettingsError::NonPositiveThreads)
    } else if s.buffer_bound == 0 {
        Some(SettingsError::NonPositiveBufferBound)
    } else if s.server.max_connections == 0 {
        Some(SettingsError::NonPositiveMaxConnections)
    } else if s.filewriter.rotation.count <= 0 {
        Some(SettingsError::NonPositiveRotationCount)
    } else if s.filewriter.rotation.policy == RotationPolicyType::ByDuration
        && s.filewriter.rotation.duration is None {
        Some(SettingsError::MissingRotationDuration)
    } else if s.filewriter.rotation.policy == RotationPolicyType::ByDuration
        && s.filewriter.rotation.duration == Some(0u64) {
        Some(SettingsError::NonPositiveRotationDuration)
    } else if s.metrics_port == 0 {
        Some(SettingsError::NonPositiveMetricsPort)
    } else {
        None
    }
}

impl Settings {
    /// Checks the ranges that the daemon needs before it binds anything:
    /// positive thread count, channel capacity, connection cap, retained count
    /// and metrics port, and a positive period when rotating by duration.
    pub fn validate(&self) -> (r: Result<(), SettingsError>)
        ensures
            r is Ok <==> first_settings_problem(*self) is None,
            r matches Err(e) ==> first_settings_problem(*self) == Some(e),
    {
        if self.threads <= 0 {
            Err(SettingsError::NonPositiveThreads)
        } else if self.buffer_bound == 0 {
            Err(SettingsError::NonPositiveBufferBound)
        } else if self.server.max_connections == 0 {
            Err(SettingsError::NonPositiveMaxConnections)
        } else if self.filewriter.rotation.count <= 0 {
            Err(SettingsError::NonPositiveRotationCount)
        } else {
            match self.filewriter.rotation.policy {
                RotationPolicyType::ByDuration => match self.filewriter.rotation.duration {
                    None => {
                        return Err(SettingsError::MissingRotationDuration);
                    },
                    Some(d) => {
                        if d == 0 {
                            return Err(SettingsError::NonPositiveRotationDuration);
                        }
                    },
                },
                RotationPolicyType::ByDay => {},
            }
            if self.metrics_port == 0 {
                Err(SettingsError::NonPositiveMetricsPort)
            } else {
                Ok(())
            }
        }
    }
}

} // verus!
