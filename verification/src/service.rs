//! Settings of the single-process conversion service: worker and lease
//! intervals, output sizing, and the log level.

use vstd::prelude::*;
use crate::location::DatasetLocation;
use crate::text::str_eq;

verus! {

/// Default number of conversion workers.
pub const DEFAULT_WORKER_COUNT: usize = 256;
/// Default queue polling interval in milliseconds.
pub const DEFAULT_POLL_INTERVAL_MS: u64 = 1000;
/// Default lease duration in seconds.
pub const DEFAULT_LEASE_DURATION_SECS: u64 = 900;
/// Default lease renewal interval in seconds.
pub const DEFAULT_LEASE_RENEW_INTERVAL_SECS: u64 = 300;
/// Default durable progress checkpoint interval in seconds.
pub const DEFAULT_PROGRESS_INTERVAL_SECS: u64 = 30;
/// Default soft target size of generated Lance data files in MiB.
pub const DEFAULT_TARGET_LANCE_FILE_SIZE_MIB: u64 = 512;
/// Default Blob V2 inline payload threshold in MiB.
pub const DEFAULT_BLOB_INLINE_THRESHOLD_MIB: u64 = 2;

/// How much the service logs.
#[derive(Debug, Clone, Copy, PartialEq, Eq, Structural)]
pub enum LogLevel {
    Error,
    Warn,
    Info,
    Debug,
    Trace,
}

/// The command-line name of a log level.
pub open spec fn log_level_name(level: LogLevel) -> Seq<char> {
    match level {
        LogLevel::Error => "error"@,
        LogLevel::Warn => "warn"@,
        LogLevel::Info => "info"@,
        LogLevel::Debug => "debug"@,
        LogLevel::Trace => "trace"@,
    }
}

/// The log level with command-line name `name`.
pub open spec fn log_level_from_name(name: Seq<char>) -> Option<LogLevel> {
    if name == "error"@ {
        Some(LogLevel::Error)
    } else if name == "warn"@ {
        Some(LogLevel::Warn)
    } else if name == "info"@ {
        Some(LogLevel::Info)
    } else if name == "debug"@ {
        Some(LogLevel::Debug)
    } else if name == "trace"@ {
        Some(LogLevel::Trace)
    } else {
        None
    }
}

impl LogLevel {
    /// The command-line name of this level.
    pub fn as_str(&self) -> (r: &'static str)
        ensures
            r@ == log_level_name(*self),
    {
        match self {
            LogLevel::Error => "error",
            LogLevel::Warn => "warn",
            LogLevel::Info => "info",
            LogLevel::Debug => "debug",
            LogLevel::Trace => "trace",
        }
    }

    /// The level named `name` on the command line.
    pub fn from_name(name: &str) -> (r: Option<LogLevel>)
        ensures
            r == log_level_from_name(name@),
    {
        if str_eq(name, "error") {
            Some(LogLevel::Error)
        } else if str_eq(name, "warn") {
            Some(LogLevel::Warn)
        } else if str_eq(name, "info") {
            Some(LogLevel::Info)
        } else if str_eq(name, "debug") {
            Some(LogLevel::Debug)
        } else if str_eq(name, "trace") {
            Some(LogLevel::Trace)
        } else {
            None
        }
    }
}

/// Reading a level's name gives the level back.
pub proof fn lemma_log_level_name_round_trip(level: LogLevel)
    ensures
        log_level_from_name(log_level_name(level)) == Some(level),
{
    reveal_strlit("error");
    reveal_strlit("warn");
    reveal_strlit("info");
    reveal_strlit("debug");
    reveal_strlit("trace");
    assert("warn"@.len() != "error"@.len());
    assert("info"@.len() != "error"@.len());
    assert("debug"@ != "error"@) by {
        assert("debug"@[0] != "error"@[0]);
    }
    assert("trace"@ != "error"@) by {
        assert("trace"@[0] != "error"@[0]);
    }
    assert("info"@ != "warn"@) by {
        assert("info"@[0] != "warn"@[0]);
    }
    assert("debug"@.len() != "warn"@.len());
    assert("trace"@.len() != "warn"@.len());
    assert("debug"@.len() != "info"@.len());
    assert("trace"@.len() != "info"@.len());
    assert("trace"@ != "debug"@) by {
        assert("trace"@[0] != "debug"@[0]);
    }
}

/// Service settings. Every count and interval is positive.
#[derive(Debug, Clone, Copy, PartialEq, Eq, Structural)]
pub struct Config {
    pub worker_count: usize,
    pub poll_interval_ms: u64,
    pub lease_duration_secs: u64,
    pub lease_renew_interval_secs: u64,
    pub progress_interval_secs: u64,
    pub target_lance_file_size_mib: u64,
    pub blob_inline_threshold_mib: u64,
    pub log_level: LogLevel,
}

/// Invalid service settings.
#[derive(Debug, Clone, Copy, PartialEq, Eq, Structural)]
pub enum ConfigError {
    LeaseRenewalNotShorter,
    ProgressSlowerThanLeaseRenewal,
    BlobThresholdExceedsFileSize,
}

/// The text of a settings error.
pub open spec fn config_error_message(error: ConfigError) -> Seq<char> {
    match error {
        ConfigError::LeaseRenewalNotShorter => "lease renewal interval must be shorter than lease duration"@,
        ConfigError::ProgressSlowerThanLeaseRenewal => "progress interval must not be longer than lease renewal interval"@,
        ConfigError::BlobThresholdExceedsFileSize => "blob inline threshold must not exceed the target Lance file size"@,
    }
}

impl ConfigError {
    /// The text of this error.
    pub fn message(&self) -> (r: &'static str)
        ensures
            r@ == config_error_message(*self),
    {
        match self {
            ConfigError::LeaseRenewalNotShorter => "lease renewal interval must be shorter than lease duration",
            ConfigError::ProgressSlowerThanLeaseRenewal => "progress interval must not be longer than lease renewal interval",
            ConfigError::BlobThresholdExceedsFileSize => "blob inline threshold must not exceed the target Lance file size",
        }
    }
}

/// Why a service configuration is refused, if it is.
pub open spec fn service_refusal(config: Config) -> Option<ConfigError> {
    if config.lease_renew_interval_secs >= config.lease_duration_secs {
        Some(ConfigError::LeaseRenewalNotShorter)
    } else if config.progress_interval_secs > config.lease_renew_interval_secs {
        Some(ConfigError::ProgressSlowerThanLeaseRenewal)
    } else if config.blob_inline_threshold_mib > config.target_lance_file_size_mib {
        Some(ConfigError::BlobThresholdExceedsFileSize)
    } else {
        None
    }
}

impl Config {
    /// Checks that a lease is renewed before it expires, checkpoints are at
    /// least as frequent as renewals, and inline blobs fit in a data file.
    pub fn validate(&self) -> (r: Result<(), ConfigError>)
        ensures
            match service_refusal(*self) {
                Some(e) => r == Err::<(), ConfigError>(e),
                None => r is Ok,
            },
    {
        if self.lease_renew_interval_secs >= self.lease_duration_secs {
            return Err(ConfigError::LeaseRenewalNotShorter);
        }
        if self.progress_interval_secs > self.lease_renew_interval_secs {
            return Err(ConfigError::ProgressSlowerThanLeaseRenewal);
        }
        if self.blob_inline_threshold_mib > self.target_lance_file_size_mib {
            return Err(ConfigError::BlobThresholdExceedsFileSize);
        }
        Ok(())
    }
}

impl Default for Config {
    fn default() -> (r: Config)
        ensures
            r == (Config {
                worker_count: DEFAULT_WORKER_COUNT,
                poll_interval_ms: DEFAULT_POLL_INTERVAL_MS,
                lease_duration_secs: DEFAULT_LEASE_DURATION_SECS,
                lease_renew_interval_secs: DEFAULT_LEASE_RENEW_INTERVAL_SECS,
                progress_interval_secs: DEFAULT_PROGRESS_INTERVAL_SECS,
                target_lance_file_size_mib: DEFAULT_TARGET_LANCE_FILE_SIZE_MIB,
                blob_inline_threshold_mib: DEFAULT_BLOB_INLINE_THRESHOLD_MIB,
                log_level: LogLevel::Info,
            }),
    {
        Config {
            worker_count: DEFAULT_WORKER_COUNT,
            poll_interval_ms: DEFAULT_POLL_INTERVAL_MS,
            lease_duration_secs: DEFAULT_LEASE_DURATION_SECS,
            lease_renew_interval_secs: DEFAULT_LEASE_RENEW_INTERVAL_SECS,
            progress_interval_secs: DEFAULT_PROGRESS_INTERVAL_SECS,
            target_lance_file_size_mib: DEFAULT_TARGET_LANCE_FILE_SIZE_MIB,
            blob_inline_threshold_mib: DEFAULT_BLOB_INLINE_THRESHOLD_MIB,
            log_level: LogLevel::Info,
        }
    }
}

/// A source to inspect, and when the request arrived.
#[derive(Debug)]
pub struct NewInspection {
    pub source: DatasetLocation,
    pub created_at_ms: i64,
}

} // verus!
