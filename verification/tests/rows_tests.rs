use lance_conversion::factory::{StoreBackend, StoreFactoryError, database_target};
use lance_conversion::job::{IndexSpec, IndexType, JobError, JobKind, JobProgress, JobStatus};
use lance_conversion::lifecycle::StoreError;
use lance_conversion::rows::{
    JobRow, StoredProgress, i64_to_u32, i64_to_u64,
    job_from_row, progress_as_i64, progress_from_i64, quote_ident, u64_as_i64, usize_to_i64,
};

fn row() -> JobRow {
    JobRow {
        creator: "test-user".to_owned(),
        kind: "move".to_owned(),
        source_uri: "/datasets/source".to_owned(),
        destination_uri: "s3://bucket/out.lance".to_owned(),
        blob_columns: Ok(vec!["image".to_owned()]),
        indices: Ok(vec![IndexSpec { columns: vec!["category".to_owned()], index_type: IndexType::Bitmap }]),
        status: "running".to_owned(),
        creation_timestamp_ms: 1,
        update_timestamp_ms: 2,
        attempt: 2,
        error_reasons: Ok(vec![JobError { attempt: 1, error_timestamp_ms: 5, reason: "boom".to_owned() }]),
        lease_expiration_timestamp_ms: Some(100),
        progress: StoredProgress { rows_read: 4, rows_written: 3, rows_total: 0, rows_missing_blobs: 1 },
    }
}

#[test]
fn stored_rows_decode_to_jobs() {
    let job = job_from_row(row()).unwrap();
    assert_eq!(job.kind, JobKind::Move);
    assert_eq!(job.status, JobStatus::Running);
    assert_eq!(job.attempt, 2);
    assert_eq!(job.blob_columns[0].column, "image");
    assert_eq!(job.indices[0].index_type, IndexType::Bitmap);
    assert_eq!(job.error_reasons[0].reason, "boom");
    assert_eq!(job.progress.rows_missing_blobs, 1);
}

#[test]
fn malformed_rows_are_database_faults() {
    let mut bad = row();
    bad.status = "paused".to_owned();
    assert_eq!(job_from_row(bad).unwrap_err(), StoreError::Database("invalid JobStatus value: paused".to_owned()));
    let mut bad = row();
    bad.attempt = -1;
    assert_eq!(
        job_from_row(bad).unwrap_err(),
        StoreError::Database("out of range integral type conversion attempted".to_owned())
    );
    let mut bad = row();
    bad.indices = Err("unknown variant `hash`".to_owned());
    assert_eq!(job_from_row(bad).unwrap_err(), StoreError::Database("unknown variant `hash`".to_owned()));
    let mut bad = row();
    bad.progress.rows_total = -3;
    assert!(job_from_row(bad).is_err());
}

#[test]
fn row_faults_are_reported_in_reading_order() {
    let mut bad = row();
    bad.error_reasons = Err("invalid value: integer `-1`, expected u32".to_owned());
    bad.kind = "rename".to_owned();
    bad.status = "paused".to_owned();
    assert_eq!(
        job_from_row(bad).unwrap_err(),
        StoreError::Database("invalid value: integer `-1`, expected u32".to_owned())
    );
    let mut bad = row();
    bad.kind = "rename".to_owned();
    bad.blob_columns = Err("expected value".to_owned());
    assert_eq!(job_from_row(bad).unwrap_err(), StoreError::Database("invalid JobKind value: rename".to_owned()));
    let mut bad = row();
    bad.blob_columns = Err("expected value".to_owned());
    bad.indices = Err("unknown variant `hash`".to_owned());
    assert_eq!(job_from_row(bad).unwrap_err(), StoreError::Database("expected value".to_owned()));
    let mut bad = row();
    bad.indices = Err("unknown variant `hash`".to_owned());
    bad.status = "paused".to_owned();
    assert_eq!(job_from_row(bad).unwrap_err(), StoreError::Database("unknown variant `hash`".to_owned()));
    let mut bad = row();
    bad.status = "paused".to_owned();
    bad.attempt = -1;
    assert_eq!(job_from_row(bad).unwrap_err(), StoreError::Database("invalid JobStatus value: paused".to_owned()));
}

#[test]
fn integer_columns_convert_with_range_checks() {
    assert_eq!(i64_to_u64(5).unwrap(), 5);
    assert!(i64_to_u64(-5).is_err());
    assert_eq!(i64_to_u32(u32::MAX as i64).unwrap(), u32::MAX);
    assert!(i64_to_u32(u32::MAX as i64 + 1).is_err());
    assert_eq!(usize_to_i64(7).unwrap(), 7);
    assert_eq!(
        u64_as_i64(u64::MAX).unwrap_err(),
        StoreError::InvalidInput("out of range integral type conversion attempted".to_owned())
    );
}

#[test]
fn progress_round_trips_through_columns() {
    let progress = JobProgress { rows_read: 9, rows_written: 8, rows_total: 9, rows_missing_blobs: 1 };
    assert_eq!(progress_from_i64(progress_as_i64(progress).unwrap()).unwrap(), progress);
    let huge = JobProgress { rows_read: u64::MAX, ..progress };
    assert!(progress_as_i64(huge).is_err());
}

#[test]
fn schema_names_are_quoted_identifiers() {
    assert_eq!(quote_ident("test_schema_1").unwrap(), "\"test_schema_1\"");
    assert!(quote_ident("1schema").is_err());
    assert!(quote_ident("Schema").is_err());
    assert_eq!(
        quote_ident("").unwrap_err(),
        StoreError::InvalidInput("schema name must be a lowercase SQL identifier".to_owned())
    );
}

#[test]
fn database_urls_select_a_backend() {
    let target = database_target("sqlite://./data/service.db", 1).unwrap();
    assert_eq!(target.backend, StoreBackend::Sqlite);
    assert_eq!(target.location, "./data/service.db");
    let target = database_target("postgres://127.0.0.1:5432/lance_jobs", 8).unwrap();
    assert_eq!(target.backend, StoreBackend::Postgres);
    assert_eq!(database_target("sqlite:memory", 1).unwrap_err(), StoreFactoryError::InvalidDatabaseUrl);
    assert_eq!(database_target("sqlite://", 1).unwrap_err(), StoreFactoryError::InvalidDatabaseUrl);
    assert_eq!(database_target("sqlite://db", 0).unwrap_err(), StoreFactoryError::InvalidMaxConnections);
    let unsupported = database_target("mysql://db", 1).unwrap_err();
    assert_eq!(unsupported, StoreFactoryError::UnsupportedBackend("mysql".to_owned()));
    assert_eq!(unsupported.message(), "unsupported database backend: mysql");
}

#[test]
fn stored_jobs_read_back_unchanged() {
    let job = job_from_row(row()).unwrap();
    let stored = lance_conversion::rows::job_to_row(&job).unwrap();
    assert_eq!(stored.kind, "move");
    assert_eq!(stored.status, "running");
    assert_eq!(stored.indices.as_ref().unwrap()[0].index_type, IndexType::Bitmap);
    assert_eq!(job_from_row(stored).unwrap(), job);
    let mut huge = job;
    huge.progress = JobProgress { rows_read: u64::MAX, rows_written: 0, rows_total: 0, rows_missing_blobs: 0 };
    assert_eq!(
        lance_conversion::rows::job_to_row(&huge).unwrap_err(),
        StoreError::InvalidInput("out of range integral type conversion attempted".to_owned())
    );
}
