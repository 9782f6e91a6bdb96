use lance_conversion::converter::{ConversionError, ConverterConfig};
use lance_conversion::env::{EnvError, EnvLookup, present_value, string_or};
use lance_conversion::job::JobProgress;
use lance_conversion::reconciler::{
    AttemptContext, Config, ConfigError, StoreCall, WorkerEvent, WorkerStep, after_reply,
    clamp_frequency, clamp_seconds, next_call, worker_capacity,
};
use lance_conversion::lifecycle::StoreError;
use lance_conversion::service::{self, LogLevel};

#[test]
fn parses_cli_defaults() {
    let config = Config::default();
    assert_eq!(config.database_url, "postgres://127.0.0.1:5432/lance_jobs");
    assert_eq!(config.database_max_connections, 8);
    assert_eq!(config.worker_count, 256);
    assert_eq!(config.lease_renew_interval_secs, 180);
    config.validate().unwrap();
    assert_eq!(config.convert_lease_duration_ms().unwrap(), 900_000);
}

#[test]
fn reconciler_config_refusals() {
    let mut config = Config::default();
    config.lease_duration_secs = 899;
    assert_eq!(
        config.validate().unwrap_err(),
        ConfigError::InvalidInput("lease duration must be at least five times the lease renewal interval")
    );
    let mut config = Config::default();
    config.progress_interval_secs = 181;
    assert_eq!(
        config.validate().unwrap_err(),
        ConfigError::InvalidInput("progress interval must not be longer than lease renewal interval")
    );
    let mut config = Config::default();
    config.lease_duration_secs = u64::MAX;
    assert_eq!(
        config.validate().unwrap_err(),
        ConfigError::InvalidInput("lease duration does not fit milliseconds")
    );
}

#[test]
fn reconciler_config_feeds_the_converter() {
    let config = Config::default();
    assert_eq!(
        config.converter_config(),
        ConverterConfig {
            target_lance_file_size_mib: 512,
            blob_inline_threshold_mib: 2,
            blob_dedicated_threshold_mib: 32,
        }
    );
}

#[test]
fn worker_capacity_never_goes_negative() {
    assert_eq!(worker_capacity(256, 10), 246);
    assert_eq!(worker_capacity(4, 4), 0);
    assert_eq!(worker_capacity(4, 9), 0);
}

fn context() -> AttemptContext {
    AttemptContext {
        destination_uri: "s3://bucket/out.lance".to_owned(),
        attempt: 3,
        convert_lease_duration_ms: 60_000,
    }
}

fn progress(rows: u64) -> JobProgress {
    JobProgress {
        rows_read: rows,
        rows_written: rows,
        rows_total: 0,
        rows_missing_blobs: 0,
    }
}

#[test]
fn finished_conversions_complete_or_fail_the_attempt() {
    match next_call(&context(), WorkerEvent::ConversionFinished(Ok(progress(3))), progress(1)) {
        StoreCall::Complete(update) => {
            assert_eq!(update.destination_uri, "s3://bucket/out.lance");
            assert_eq!(update.attempt, 3);
            assert_eq!(update.progress, progress(3));
        }
        other => panic!("unexpected {other:?}"),
    }
    let failed = WorkerEvent::ConversionFinished(Err(ConversionError::Read("gone".to_owned())));
    match next_call(&context(), failed, progress(1)) {
        StoreCall::Fail(update) => {
            assert_eq!(update.reason, "source read failed: gone");
            assert_eq!(update.progress, progress(1));
            assert_eq!(update.attempt, 3);
        }
        other => panic!("unexpected {other:?}"),
    }
}

#[test]
fn timers_renew_and_checkpoint() {
    match next_call(&context(), WorkerEvent::LeaseRenewalDue, progress(7)) {
        StoreCall::RenewLease(update) => {
            assert_eq!(update.convert_lease_duration_ms, 60_000);
            assert_eq!(update.progress, progress(7));
        }
        other => panic!("unexpected {other:?}"),
    }
    match next_call(&context(), WorkerEvent::CheckpointDue, progress(8)) {
        StoreCall::Checkpoint(update) => assert_eq!(update.progress, progress(8)),
        other => panic!("unexpected {other:?}"),
    }
}

#[test]
fn store_replies_decide_whether_the_worker_goes_on() {
    let renew = next_call(&context(), WorkerEvent::LeaseRenewalDue, progress(1));
    assert!(matches!(after_reply(&renew, Ok(())), WorkerStep::Continue));
    assert!(matches!(
        after_reply(&renew, Err(StoreError::LeaseLost)),
        WorkerStep::Stop(StoreError::LeaseLost)
    ));
    let complete = next_call(&context(), WorkerEvent::ConversionFinished(Ok(progress(1))), progress(1));
    assert!(matches!(after_reply(&complete, Ok(())), WorkerStep::Finished));
}

#[test]
fn profile_requests_are_clamped() {
    assert_eq!(clamp_seconds(None), 30);
    assert_eq!(clamp_seconds(Some(0)), 1);
    assert_eq!(clamp_seconds(Some(500)), 120);
    assert_eq!(clamp_seconds(Some(45)), 45);
    assert_eq!(clamp_frequency(None), 99);
    assert_eq!(clamp_frequency(Some(-5)), 1);
    assert_eq!(clamp_frequency(Some(5000)), 1000);
    assert_eq!(clamp_frequency(Some(250)), 250);
}

#[test]
fn defaults_match_the_service_contract() {
    let config = service::Config::default();
    assert_eq!(config.worker_count, 256);
    assert_eq!(config.lease_duration_secs, 900);
    assert_eq!(config.lease_renew_interval_secs, 300);
    assert_eq!(config.progress_interval_secs, 30);
    assert_eq!(config.target_lance_file_size_mib, 512);
    assert_eq!(config.blob_inline_threshold_mib, 2);
    assert_eq!(config.log_level, LogLevel::Info);
    config.validate().unwrap();
}

#[test]
fn rejects_invalid_lease_intervals() {
    let mut config = service::Config::default();
    config.lease_renew_interval_secs = 900;
    assert_eq!(
        config.validate().unwrap_err(),
        service::ConfigError::LeaseRenewalNotShorter
    );
}

#[test]
fn rejects_blob_threshold_larger_than_output_file() {
    let mut config = service::Config::default();
    config.blob_inline_threshold_mib = 513;
    assert_eq!(
        config.validate().unwrap_err(),
        service::ConfigError::BlobThresholdExceedsFileSize
    );
}

#[test]
fn service_progress_must_not_lag_renewal() {
    let mut config = service::Config::default();
    config.progress_interval_secs = 301;
    assert_eq!(
        config.validate().unwrap_err(),
        service::ConfigError::ProgressSlowerThanLeaseRenewal
    );
    assert_eq!(
        service::ConfigError::ProgressSlowerThanLeaseRenewal.message(),
        "progress interval must not be longer than lease renewal interval"
    );
}

#[test]
fn log_levels_round_trip_their_names() {
    for level in [LogLevel::Error, LogLevel::Warn, LogLevel::Info, LogLevel::Debug, LogLevel::Trace] {
        assert_eq!(LogLevel::from_name(level.as_str()), Some(level));
    }
    assert_eq!(LogLevel::from_name("verbose"), None);
}

#[test]
fn environment_values_and_defaults() {
    assert_eq!(
        string_or("DATABASE_URL", EnvLookup::NotPresent, "postgres://x").unwrap(),
        "postgres://x"
    );
    assert_eq!(
        string_or("DATABASE_URL", EnvLookup::Present("sqlite://db".to_owned()), "postgres://x").unwrap(),
        "sqlite://db"
    );
    assert_eq!(
        present_value("LISTEN_ADDRESS", EnvLookup::NotUnicode).unwrap_err(),
        EnvError::NotUnicode { name: "LISTEN_ADDRESS" }
    );
    assert_eq!(
        EnvError::NotUnicode { name: "LISTEN_ADDRESS" }.message(),
        "environment variable LISTEN_ADDRESS is not valid Unicode"
    );
    assert_eq!(
        EnvError::Invalid {
            name: "DATABASE_MAX_CONNECTIONS",
            value: "zero".to_owned(),
            reason: "invalid digit found in string".to_owned()
        }
        .message(),
        "environment variable DATABASE_MAX_CONNECTIONS has invalid value 'zero': invalid digit found in string"
    );
}
