//! The reconciler: its settings, how many jobs it claims, and the decisions a
//! worker makes while one claimed attempt converts.

use vstd::prelude::*;
use vstd::string::*;
use crate::converter::{ConversionError, ConverterConfig, conversion_error_message};
use crate::job::{CompletionUpdate, FailureUpdate, JobProgress, LeaseUpdate, ProgressUpdate};
use crate::lifecycle::StoreError;

verus! {

/// Default job-store database URL.
pub const DEFAULT_DATABASE_URL: &'static str = "postgres://127.0.0.1:5432/lance_jobs";
/// Default PostgreSQL connection pool size.
pub const DEFAULT_DATABASE_MAX_CONNECTIONS: u32 = 8;
/// Default number of conversion workers.
pub const DEFAULT_WORKER_COUNT: usize = 256;
/// Default queue polling interval in milliseconds.
pub const DEFAULT_POLL_INTERVAL_MS: u64 = 1000;
/// Default lease duration in seconds.
pub const DEFAULT_LEASE_DURATION_SECS: u64 = 900;
/// Default lease renewal interval in seconds.
pub const DEFAULT_LEASE_RENEW_INTERVAL_SECS: u64 = 180;
/// Default durable progress checkpoint interval in seconds.
pub const DEFAULT_PROGRESS_INTERVAL_SECS: u64 = 30;
/// Default soft target size of generated Lance data files in MiB.
pub const DEFAULT_TARGET_LANCE_FILE_SIZE_MIB: u64 = 512;
/// Default Blob V2 inline payload threshold in MiB.
pub const DEFAULT_BLOB_INLINE_THRESHOLD_MIB: u64 = 2;
/// Default Blob V2 dedicated-file payload threshold in MiB.
pub const DEFAULT_BLOB_DEDICATED_THRESHOLD_MIB: u64 = 32;

/// Reconciler settings. Every count and interval is positive.
#[derive(Debug, PartialEq, Eq)]
pub struct Config {
    pub database_url: String,
    pub database_max_connections: u32,
    pub worker_count: usize,
    pub poll_interval_ms: u64,
    pub lease_duration_secs: u64,
    pub lease_renew_interval_secs: u64,
    pub progress_interval_secs: u64,
    pub target_lance_file_size_mib: u64,
    pub blob_inline_threshold_mib: u64,
    pub blob_dedicated_threshold_mib: u64,
}

/// Invalid reconciler settings.
#[derive(Debug, PartialEq, Eq)]
pub enum ConfigError {
    InvalidInput(&'static str),
}

/// Message for a lease shorter than five renewal intervals.
pub open spec fn lease_ratio_message() -> Seq<char> {
    "lease duration must be at least five times the lease renewal interval"@
}

/// Message for checkpoints less frequent than lease renewals.
pub open spec fn progress_interval_message() -> Seq<char> {
    "progress interval must not be longer than lease renewal interval"@
}

/// Message for a lease whose length does not fit in milliseconds.
pub open spec fn lease_millis_message() -> Seq<char> {
    "lease duration does not fit milliseconds"@
}

/// The lease length in milliseconds, when it fits an `i64`.
pub open spec fn lease_millis(secs: u64) -> Option<i64> {
    if secs * 1000 <= i64::MAX {
        Some((secs * 1000) as i64)
    } else {
        None
    }
}

/// Why a configuration is refused, if it is.
pub open spec fn config_refusal(config: Config) -> Option<Seq<char>> {
    if config.lease_duration_secs / config.lease_renew_interval_secs < 5 {
        Some(lease_ratio_message())
    } else if config.progress_interval_secs > config.lease_renew_interval_secs {
        Some(progress_interval_message())
    } else if lease_millis(config.lease_duration_secs) is None {
        Some(lease_millis_message())
    } else {
        None
    }
}

impl Config {
    /// Checks the relations between the intervals: the lease spans at least
    /// five renewals, checkpoints are at least as frequent as renewals, and
    /// the lease fits in milliseconds.
    pub fn validate(&self) -> (r: Result<(), ConfigError>)
        requires
            self.lease_renew_interval_secs > 0,
        ensures
            match config_refusal(*self) {
                Some(m) => r matches Err(ConfigError::InvalidInput(s)) && s@ == m,
                None => r is Ok,
            },
    {
        if self.lease_duration_secs / self.lease_renew_interval_secs < 5 {
            return Err(
                ConfigError::InvalidInput(
                    "lease duration must be at least five times the lease renewal interval",
                ),
            );
        }
        if self.progress_interval_secs > self.lease_renew_interval_secs {
            return Err(
                ConfigError::InvalidInput(
                    "progress interval must not be longer than lease renewal interval",
                ),
            );
        }
        self.convert_lease_duration_ms()?;
        Ok(())
    }

    /// The converter settings of this configuration.
    pub fn converter_config(&self) -> (r: ConverterConfig)
        ensures
            r == (ConverterConfig {
                target_lance_file_size_mib: self.target_lance_file_size_mib,
                blob_inline_threshold_mib: self.blob_inline_threshold_mib,
                blob_dedicated_threshold_mib: self.blob_dedicated_threshold_mib,
            }),
    {
        ConverterConfig {
            target_lance_file_size_mib: self.target_lance_file_size_mib,
            blob_inline_threshold_mib: self.blob_inline_threshold_mib,
            blob_dedicated_threshold_mib: self.blob_dedicated_threshold_mib,
        }
    }

    /// The lease length in milliseconds.
    pub fn convert_lease_duration_ms(&self) -> (r: Result<i64, ConfigError>)
        ensures
            match lease_millis(self.lease_duration_secs) {
                Some(ms) => r == Ok::<i64, ConfigError>(ms),
                None => r matches Err(ConfigError::InvalidInput(s)) && s@ == lease_millis_message(),
            },
    {
        if self.lease_duration_secs > i64::MAX as u64 {
            return Err(ConfigError::InvalidInput("lease duration does not fit milliseconds"));
        }
        let seconds = self.lease_duration_secs as i64;
        match seconds.checked_mul(1000) {
            Some(ms) => Ok(ms),
            None => Err(ConfigError::InvalidInput("lease duration does not fit milliseconds")),
        }
    }
}

impl Default for Config {
    fn default() -> (r: Config)
        ensures
            r.database_url@ == DEFAULT_DATABASE_URL@,
            r.database_max_connections == DEFAULT_DATABASE_MAX_CONNECTIONS,
            r.worker_count == DEFAULT_WORKER_COUNT,
            r.poll_interval_ms == DEFAULT_POLL_INTERVAL_MS,
            r.lease_duration_secs == DEFAULT_LEASE_DURATION_SECS,
            r.lease_renew_interval_secs == DEFAULT_LEASE_RENEW_INTERVAL_SECS,
            r.progress_interval_secs == DEFAULT_PROGRESS_INTERVAL_SECS,
            r.target_lance_file_size_mib == DEFAULT_TARGET_LANCE_FILE_SIZE_MIB,
            r.blob_inline_threshold_mib == DEFAULT_BLOB_INLINE_THRESHOLD_MIB,
            r.blob_dedicated_threshold_mib == DEFAULT_BLOB_DEDICATED_THRESHOLD_MIB,
    {
        Config {
            database_url: String::from_str(DEFAULT_DATABASE_URL),
            database_max_connections: DEFAULT_DATABASE_MAX_CONNECTIONS,
            worker_count: DEFAULT_WORKER_COUNT,
            poll_interval_ms: DEFAULT_POLL_INTERVAL_MS,
            lease_duration_secs: DEFAULT_LEASE_DURATION_SECS,
            lease_renew_interval_secs: DEFAULT_LEASE_RENEW_INTERVAL_SECS,
            progress_interval_secs: DEFAULT_PROGRESS_INTERVAL_SECS,
            target_lance_file_size_mib: DEFAULT_TARGET_LANCE_FILE_SIZE_MIB,
            blob_inline_threshold_mib: DEFAULT_BLOB_INLINE_THRESHOLD_MIB,
            blob_dedicated_threshold_mib: DEFAULT_BLOB_DEDICATED_THRESHOLD_MIB,
        }
    }
}

/// How many jobs a poll may claim while `active` workers run: the free
/// worker slots, and never less than zero.
pub fn worker_capacity(worker_count: usize, active: usize) -> (r: usize)
    ensures
        r == (if active >= worker_count {
            0
        } else {
            worker_count - active
        }),
        r + active <= worker_count || r == 0,
{
    worker_count.saturating_sub(active)
}

/// The attempt one worker runs: the job's destination, the attempt number
/// the claim handed out, and the lease length used for renewals.
#[derive(Debug)]
pub struct AttemptContext {
    pub destination_uri: String,
    pub attempt: u32,
    pub convert_lease_duration_ms: i64,
}

/// What a running worker reacts to.
#[derive(Debug)]
pub enum WorkerEvent {
    /// The conversion ended, with its final progress or its error.
    ConversionFinished(Result<JobProgress, ConversionError>),
    /// The lease renewal interval elapsed.
    LeaseRenewalDue,
    /// The progress checkpoint interval elapsed.
    CheckpointDue,
}

/// The store call a worker makes next.
#[derive(Debug)]
pub enum StoreCall {
    Complete(CompletionUpdate),
    Fail(FailureUpdate),
    RenewLease(LeaseUpdate),
    Checkpoint(ProgressUpdate),
}

/// The store call an event leads to. `snapshot` is the conversion's current
/// progress. Every call is made for the worker's own destination and attempt.
pub open spec fn call_for(context: AttemptContext, event: WorkerEvent, snapshot: JobProgress, call: StoreCall) -> bool {
    match event {
        WorkerEvent::ConversionFinished(Ok(progress)) => call matches StoreCall::Complete(u) && u.destination_uri@
            == context.destination_uri@ && u.attempt == context.attempt && u.progress == progress,
        WorkerEvent::ConversionFinished(Err(error)) => call matches StoreCall::Fail(u) && u.destination_uri@
            == context.destination_uri@ && u.attempt == context.attempt && u.progress == snapshot
            && u.reason@ == conversion_error_message(error@),
        WorkerEvent::LeaseRenewalDue => call matches StoreCall::RenewLease(u) && u.destination_uri@
            == context.destination_uri@ && u.attempt == context.attempt && u.convert_lease_duration_ms
            == context.convert_lease_duration_ms && u.progress == snapshot,
        WorkerEvent::CheckpointDue => call matches StoreCall::Checkpoint(u) && u.destination_uri@
            == context.destination_uri@ && u.attempt == context.attempt && u.progress == snapshot,
    }
}

/// Decides the store call for an event: a finished conversion completes or
/// fails the attempt, a due renewal renews the lease, and a due checkpoint
/// records progress.
pub fn next_call(context: &AttemptContext, event: WorkerEvent, snapshot: JobProgress) -> (r: StoreCall)
    ensures
        call_for(*context, event, snapshot, r),
{
    let destination_uri = context.destination_uri.clone();
    match event {
        WorkerEvent::ConversionFinished(Ok(progress)) => StoreCall::Complete(
            CompletionUpdate { destination_uri, attempt: context.attempt, progress },
        ),
        WorkerEvent::ConversionFinished(Err(error)) => StoreCall::Fail(
            FailureUpdate {
                destination_uri,
                attempt: context.attempt,
                progress: snapshot,
                reason: error.message(),
            },
        ),
        WorkerEvent::LeaseRenewalDue => StoreCall::RenewLease(
            LeaseUpdate {
                destination_uri,
                attempt: context.attempt,
                convert_lease_duration_ms: context.convert_lease_duration_ms,
                progress: snapshot,
            },
        ),
        WorkerEvent::CheckpointDue => StoreCall::Checkpoint(
            ProgressUpdate { destination_uri, attempt: context.attempt, progress: snapshot },
        ),
    }
}

/// What a worker does after the store answered a call.
#[derive(Debug)]
pub enum WorkerStep {
    /// Keep converting and wait for the next event.
    Continue,
    /// The attempt is recorded as finished; the worker ends normally.
    Finished,
    /// The store refused or failed: stop the conversion and report the error.
    Stop(StoreError),
}

/// A completion or failure call ends the attempt.
pub open spec fn ends_attempt(call: StoreCall) -> bool {
    call is Complete || call is Fail
}

/// Decides what follows the store's answer: an error always stops the
/// worker with that error; otherwise a completion or failure finishes it and
/// a renewal or checkpoint lets the conversion go on.
pub fn after_reply(call: &StoreCall, reply: Result<(), StoreError>) -> (r: WorkerStep)
    ensures
        match reply {
            Err(e) => r == WorkerStep::Stop(e),
            Ok(()) => if ends_attempt(*call) {
                r is Finished
            } else {
                r is Continue
            },
        },
{
    match reply {
        Err(e) => WorkerStep::Stop(e),
        Ok(()) => match call {
            StoreCall::Complete(_) | StoreCall::Fail(_) => WorkerStep::Finished,
            _ => WorkerStep::Continue,
        },
    }
}

/// Default CPU profile length in seconds.
pub const DEFAULT_PROFILE_SECONDS: u64 = 30;
/// Longest CPU profile in seconds.
pub const MAX_PROFILE_SECONDS: u64 = 120;
/// Default CPU sampling frequency in Hz.
pub const DEFAULT_SAMPLE_FREQUENCY: i32 = 99;
/// Highest CPU sampling frequency in Hz.
pub const MAX_SAMPLE_FREQUENCY: i32 = 1000;

/// `value` limited to `low..=high`.
pub open spec fn clamped(value: int, low: int, high: int) -> int {
    if value < low {
        low
    } else if value > high {
        high
    } else {
        value
    }
}

/// The length of a requested CPU profile: the request, or 30 seconds, kept
/// within one to 120 seconds.
pub fn clamp_seconds(seconds: Option<u64>) -> (r: u64)
    ensures
        r == clamped(
            match seconds {
                Some(s) => s as int,
                None => DEFAULT_PROFILE_SECONDS as int,
            },
            1,
            MAX_PROFILE_SECONDS as int,
        ),
{
    let requested = match seconds {
        Some(s) => s,
        None => DEFAULT_PROFILE_SECONDS,
    };
    if requested < 1 {
        1
    } else if requested > MAX_PROFILE_SECONDS {
        MAX_PROFILE_SECONDS
    } else {
        requested
    }
}

/// The sampling frequency of a requested CPU profile: the request, or 99 Hz,
/// kept within 1 to 1000 Hz.
pub fn clamp_frequency(frequency: Option<i32>) -> (r: i32)
    ensures
        r == clamped(
            match frequency {
                Some(f) => f as int,
                None => DEFAULT_SAMPLE_FREQUENCY as int,
            },
            1,
            MAX_SAMPLE_FREQUENCY as int,
        ),
{
    let requested = match frequency {
        Some(f) => f,
        None => DEFAULT_SAMPLE_FREQUENCY,
    };
    if requested < 1 {
        1
    } else if requested > MAX_SAMPLE_FREQUENCY {
        MAX_SAMPLE_FREQUENCY
    } else {
        requested
    }
}

} // verus!
