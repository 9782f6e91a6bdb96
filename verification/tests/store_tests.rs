use lance_conversion::job::{
    BlobColumnSpec, CompletionUpdate, FailureUpdate, IndexSpec, IndexType, JobKind, JobProgress,
    JobStatus, LeaseUpdate, MAX_JOB_ATTEMPTS, NewJob, ProgressUpdate,
};
use lance_conversion::lifecycle::StoreError;
use lance_conversion::location::DatasetLocation;
use lance_conversion::ordering::JobOrderField;
use lance_conversion::store::{JobQuery, JobTable};

fn new_job(creator: &str, source_uri: &str, destination_uri: &str, creation_timestamp_ms: i64) -> NewJob {
    NewJob {
        creator: creator.to_owned(),
        source: DatasetLocation::parse_location(source_uri).unwrap(),
        kind: JobKind::Copy,
        destination: DatasetLocation::parse_location(destination_uri).unwrap(),
        blob_columns: Vec::new(),
        indices: Vec::new(),
        creation_timestamp_ms,
    }
}

fn query(creator: Option<&str>, failed_only: bool, ongoing_only: bool, limit: usize) -> JobQuery {
    JobQuery {
        creator: creator.map(str::to_owned),
        failed_only,
        ongoing_only,
        creation_timestamp_ms_from: None,
        creation_timestamp_ms_to: None,
        order_by: JobOrderField::CreationTimestamp,
        descending: true,
        limit,
    }
}

fn progress(read: u64, written: u64, total: u64) -> JobProgress {
    JobProgress {
        rows_read: read,
        rows_written: written,
        rows_total: total,
        rows_missing_blobs: 0,
    }
}

#[test]
fn tests_created_job_can_be_listed() {
    let mut store = JobTable::new();
    let destination_uri = "s3://destination-bucket/data.lance";
    store
        .create_job(new_job("test-user", "/datasets/source", destination_uri, 3))
        .unwrap();
    let jobs = store.list_jobs(10).unwrap();
    assert_eq!(jobs.len(), 1);
    assert_eq!(jobs[0].destination_uri, destination_uri);
    assert_eq!(jobs[0].status, JobStatus::Queuing);
    assert_eq!(store.get_job(destination_uri).unwrap().destination_uri, destination_uri);
}

#[test]
fn missing_job_returns_not_found() {
    let store = JobTable::new();
    assert_eq!(store.get_job("s3://destination-bucket/missing.lance").unwrap_err(), StoreError::NotFound);
}

#[test]
fn tests_jobs_can_be_filtered_by_creator_and_creation_timestamp() {
    let mut store = JobTable::new();
    for (creator, timestamp, destination) in [
        ("alice", 10, "/destinations/alice-old.lance"),
        ("bob", 20, "/destinations/bob.lance"),
        ("alice", 30, "/destinations/alice-new.lance"),
    ] {
        store.create_job(new_job(creator, "/datasets/source", destination, timestamp)).unwrap();
    }
    let mut filtered = query(Some("alice"), false, false, 10);
    filtered.creation_timestamp_ms_from = Some(15);
    filtered.creation_timestamp_ms_to = Some(35);
    let jobs = store.query_jobs(&filtered).unwrap();
    assert_eq!(jobs.len(), 1);
    assert_eq!(jobs[0].creator, "alice");
    assert_eq!(jobs[0].creation_timestamp_ms, 30);

    let mut oldest_first = query(None, false, false, 10);
    oldest_first.descending = false;
    let jobs = store.query_jobs(&oldest_first).unwrap();
    let timestamps: Vec<i64> = jobs.iter().map(|job| job.creation_timestamp_ms).collect();
    assert_eq!(timestamps, [10, 20, 30]);

    store.claim_jobs(1, 100, 100).unwrap();
    let mut recently_updated = query(None, false, false, 10);
    recently_updated.order_by = JobOrderField::UpdateTimestamp;
    let jobs = store.query_jobs(&recently_updated).unwrap();
    assert_eq!(jobs[0].destination_uri, "/destinations/alice-old.lance");
}

#[test]
fn tests_blob_and_index_specs_round_trip_through_store() {
    let mut store = JobTable::new();
    let destination_uri = "s3://destination-bucket/specs.lance";
    let mut job = new_job("test-user", "/datasets/source", destination_uri, 3);
    job.blob_columns = vec![BlobColumnSpec { column: "image".to_owned() }];
    job.indices = vec![
        IndexSpec { columns: vec!["category".to_owned()], index_type: IndexType::Bitmap },
        IndexSpec { columns: vec!["location".to_owned()], index_type: IndexType::RTree },
    ];
    store.create_job(job).unwrap();
    let job = store.get_job(destination_uri).unwrap();
    assert_eq!(job.blob_columns, vec![BlobColumnSpec { column: "image".to_owned() }]);
    assert_eq!(
        job.indices,
        vec![
            IndexSpec { columns: vec!["category".to_owned()], index_type: IndexType::Bitmap },
            IndexSpec { columns: vec!["location".to_owned()], index_type: IndexType::RTree },
        ]
    );
}

#[test]
fn tests_claiming_a_job_sets_its_status_to_running() {
    let mut store = JobTable::new();
    store
        .create_job(new_job("test-user", "s3://source-bucket/data", "s3://destination-bucket/data.lance", 3))
        .unwrap();
    let first_claim = store.claim_jobs(1, 100, 10).unwrap();
    assert_eq!(first_claim.len(), 1);
    let destination_uri = first_claim[0].job.destination_uri.clone();
    assert_eq!(first_claim[0].job.attempt, 1);
    assert_eq!(store.get_job(&destination_uri).unwrap().status, JobStatus::Running);
}

#[test]
fn tests_updating_progress_keeps_job_running() {
    let mut store = JobTable::new();
    let mut job = new_job("test-user", "/datasets/source", "s3://destination-bucket/data.lance", 3);
    job.kind = JobKind::Move;
    store.create_job(job).unwrap();
    let claim = store.claim_jobs(1, 1_000, 10).unwrap().remove(0);
    let destination_uri = claim.job.destination_uri.clone();
    let update = progress(10, 10, 20);
    store
        .checkpoint_progress(
            ProgressUpdate { destination_uri: destination_uri.clone(), attempt: claim.job.attempt, progress: update },
            20,
        )
        .unwrap();
    let job = store.get_job(&destination_uri).unwrap();
    assert_eq!(job.status, JobStatus::Running);
    assert_eq!(job.progress, update);
}

#[test]
fn tests_updating_lease_keeps_job_running() {
    let mut store = JobTable::new();
    store
        .create_job(new_job("test-user", "/datasets/source", "s3://destination-bucket/data.lance", 3))
        .unwrap();
    let claim = store.claim_jobs(1, 100, 10).unwrap().remove(0);
    let destination_uri = claim.job.destination_uri.clone();
    store
        .renew_lease(
            LeaseUpdate {
                destination_uri: destination_uri.clone(),
                attempt: claim.job.attempt,
                convert_lease_duration_ms: 200,
                progress: JobProgress::default(),
            },
            20,
        )
        .unwrap();
    let job = store.get_job(&destination_uri).unwrap();
    assert_eq!(job.status, JobStatus::Running);
    assert_eq!(job.lease_expiration_timestamp_ms, Some(220));
}

#[test]
fn tests_completing_a_job_clears_its_lease() {
    let mut store = JobTable::new();
    let destination_uri = "s3://destination-bucket/completed.lance";
    store.create_job(new_job("test-user", "/datasets/source", destination_uri, 3)).unwrap();
    let claim = store.claim_jobs(1, 100, 10).unwrap().remove(0);
    let done = progress(3, 3, 3);
    store
        .complete_job(
            CompletionUpdate { destination_uri: destination_uri.to_owned(), attempt: claim.job.attempt, progress: done },
            10,
        )
        .unwrap();
    let job = store.get_job(destination_uri).unwrap();
    assert_eq!(job.status, JobStatus::Succeeded);
    assert_eq!(job.lease_expiration_timestamp_ms, None);
    assert_eq!(job.progress, done);
    assert!(store.query_jobs(&query(None, false, true, 1)).unwrap().is_empty());
}

#[test]
fn tests_failures_retry_until_attempt_cap() {
    let mut store = JobTable::new();
    let destination_uri = "s3://destination-bucket/failed.lance";
    store.create_job(new_job("test-user", "/datasets/source", destination_uri, 3)).unwrap();
    for attempt in 1..=MAX_JOB_ATTEMPTS {
        let claim = store.claim_jobs(1, 100, 10).unwrap().remove(0);
        assert_eq!(claim.job.attempt, attempt);
        store
            .fail_job(
                FailureUpdate {
                    destination_uri: destination_uri.to_owned(),
                    attempt,
                    progress: JobProgress::default(),
                    reason: format!("failure {attempt}"),
                },
                10,
            )
            .unwrap();
    }
    let job = store.get_job(destination_uri).unwrap();
    assert_eq!(job.status, JobStatus::Failed);
    assert_eq!(job.error_reasons.len(), MAX_JOB_ATTEMPTS as usize);
    assert!(store.claim_jobs(1, 100, 10).unwrap().is_empty());
    let failed = store.query_jobs(&query(Some("test-user"), true, false, 1)).unwrap();
    assert_eq!(failed.len(), 1);
    assert_eq!(failed[0].destination_uri, destination_uri);
}

#[test]
fn tests_final_expired_attempt_becomes_failed() {
    let mut store = JobTable::new();
    let destination_uri = "s3://destination-bucket/expired.lance";
    store.create_job(new_job("test-user", "/datasets/source", destination_uri, 3)).unwrap();
    for attempt in 1..MAX_JOB_ATTEMPTS {
        let claim = store.claim_jobs(1, 100, 10).unwrap().remove(0);
        store
            .fail_job(
                FailureUpdate {
                    destination_uri: destination_uri.to_owned(),
                    attempt: claim.job.attempt,
                    progress: JobProgress::default(),
                    reason: format!("failure {attempt}"),
                },
                10,
            )
            .unwrap();
    }
    let final_claim = store.claim_jobs(1, 100, 10).unwrap().remove(0);
    assert_eq!(final_claim.job.attempt, MAX_JOB_ATTEMPTS);
    assert!(store.claim_jobs(1, 100, 110).unwrap().is_empty());
    let job = store.get_job(destination_uri).unwrap();
    assert_eq!(job.status, JobStatus::Failed);
    assert_eq!(job.error_reasons.len(), MAX_JOB_ATTEMPTS as usize);
    assert_eq!(job.error_reasons.last().unwrap().reason, "lease expired on final attempt");
}

#[test]
fn final_expired_attempt_does_not_use_up_the_claim_limit() {
    let mut store = JobTable::new();
    let expired_uri = "s3://destination-bucket/expired.lance";
    store.create_job(new_job("test-user", "/datasets/source", expired_uri, 3)).unwrap();
    for _ in 1..MAX_JOB_ATTEMPTS {
        let claim = store.claim_jobs(1, 100, 10).unwrap().remove(0);
        store
            .fail_job(
                FailureUpdate {
                    destination_uri: expired_uri.to_owned(),
                    attempt: claim.job.attempt,
                    progress: JobProgress::default(),
                    reason: "failure".to_owned(),
                },
                10,
            )
            .unwrap();
    }
    store.claim_jobs(1, 100, 10).unwrap();
    let queued_uri = "s3://destination-bucket/queued.lance";
    store.create_job(new_job("test-user", "/datasets/other", queued_uri, 20)).unwrap();
    let claimed = store.claim_jobs(1, 100, 110).unwrap();
    assert_eq!(claimed.len(), 1);
    assert_eq!(claimed[0].job.destination_uri, queued_uri);
    assert_eq!(claimed[0].job.attempt, 1);
    let expired = store.get_job(expired_uri).unwrap();
    assert_eq!(expired.status, JobStatus::Failed);
    assert_eq!(expired.error_reasons.last().unwrap().reason, "lease expired on final attempt");
}

#[test]
fn job_under_unexpired_lease_is_not_claimed_again() {
    let mut store = JobTable::new();
    let destination_uri = "s3://destination-bucket/leased.lance";
    store.create_job(new_job("test-user", "/datasets/source", destination_uri, 3)).unwrap();
    let first = store.claim_jobs(2, 100, 10).unwrap();
    assert_eq!(first.len(), 1);
    assert!(store.claim_jobs(2, 100, 109).unwrap().is_empty());
    let job = store.get_job(destination_uri).unwrap();
    assert_eq!(job.attempt, 1);
    assert_eq!(job.lease_expiration_timestamp_ms, Some(110));
    let reclaimed = store.claim_jobs(2, 100, 110).unwrap();
    assert_eq!(reclaimed.len(), 1);
    assert_eq!(reclaimed[0].job.attempt, 2);
}

#[test]
fn conversion_failure_returns_job_to_queue() {
    let mut store = JobTable::new();
    store.create_job(new_job("test-user", "/datasets/empty-source", "/tmp/destination.lance", 1)).unwrap();
    let claim = store.claim_jobs(1, 60_000, 5).unwrap().remove(0);
    store
        .fail_job(
            FailureUpdate {
                destination_uri: claim.job.destination_uri.clone(),
                attempt: claim.job.attempt,
                progress: JobProgress::default(),
                reason: "invalid source: source contains no Parquet files".to_owned(),
            },
            6,
        )
        .unwrap();
    let job = store.list_jobs(1).unwrap().remove(0);
    assert_eq!(job.status, JobStatus::Queuing);
    assert_eq!(job.error_reasons.len(), 1);
}

#[test]
fn expired_job_is_reclaimed_after_previous_worker_dies() {
    let mut store = JobTable::new();
    store.create_job(new_job("test-user", "/datasets/source", "/tmp/destination.lance", 1)).unwrap();
    let abandoned = store.claim_jobs(1, 1, 10).unwrap().remove(0);
    assert_eq!(abandoned.job.attempt, 1);
    let reclaimed = store.claim_jobs(1, 60_000, 30).unwrap().remove(0);
    assert_eq!(reclaimed.job.attempt, 2);
    assert_eq!(reclaimed.job.error_reasons.len(), 1);
    assert_eq!(reclaimed.job.error_reasons[0].reason, "lease expired before completion");
    let stale = store.checkpoint_progress(
        ProgressUpdate {
            destination_uri: "/tmp/destination.lance".to_owned(),
            attempt: 1,
            progress: JobProgress::default(),
        },
        31,
    );
    assert_eq!(stale.unwrap_err(), StoreError::LeaseLost);
    store
        .complete_job(
            CompletionUpdate {
                destination_uri: "/tmp/destination.lance".to_owned(),
                attempt: 2,
                progress: progress(3, 3, 3),
            },
            40,
        )
        .unwrap();
    let job = store.list_jobs(1).unwrap().remove(0);
    assert_eq!(job.status, JobStatus::Succeeded);
    assert_eq!(job.attempt, 2);
    assert_eq!(job.progress.rows_written, 3);
}
