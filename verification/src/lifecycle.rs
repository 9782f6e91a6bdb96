//! The lease-fenced lifecycle of one job: which updates an attempt may make,
//! and how claims, renewals, checkpoints, completions, and failures change the
//! job.

use vstd::prelude::*;
use vstd::string::*;
use crate::job::{
    Job, JobError, JobErrorView, JobProgress, JobStatus, JobView, MAX_JOB_ATTEMPTS, errors_view,
};

verus! {

/// Errors reported by a job store.
#[derive(Debug, PartialEq, Eq)]
pub enum StoreError {
    NotFound,
    LeaseLost,
    InvalidInput(String),
    Conflict(String),
    Database(String),
    Worker(String),
}

/// The model of a store error.
pub enum StoreErrorView {
    NotFound,
    LeaseLost,
    InvalidInput(Seq<char>),
    Conflict(Seq<char>),
    Database(Seq<char>),
    Worker(Seq<char>),
}

impl View for StoreError {
    type V = StoreErrorView;

    open spec fn view(&self) -> StoreErrorView {
        match self {
            StoreError::NotFound => StoreErrorView::NotFound,
            StoreError::LeaseLost => StoreErrorView::LeaseLost,
            StoreError::InvalidInput(m) => StoreErrorView::InvalidInput(m@),
            StoreError::Conflict(m) => StoreErrorView::Conflict(m@),
            StoreError::Database(m) => StoreErrorView::Database(m@),
            StoreError::Worker(m) => StoreErrorView::Worker(m@),
        }
    }
}

/// The text of a store error.
pub open spec fn store_error_message(error: StoreErrorView) -> Seq<char> {
    match error {
        StoreErrorView::NotFound => "record not found"@,
        StoreErrorView::LeaseLost => "job lease has expired or belongs to another worker"@,
        StoreErrorView::InvalidInput(m) => "invalid store input: "@ + m,
        StoreErrorView::Conflict(m) => "job conflicts with existing state: "@ + m,
        StoreErrorView::Database(m) => "database operation failed: "@ + m,
        StoreErrorView::Worker(m) => "database worker failed: "@ + m,
    }
}

impl StoreError {
    /// The text of this error.
    pub fn message(&self) -> (r: String)
        ensures
            r@ == store_error_message(self@),
    {
        match self {
            StoreError::NotFound => String::from_str("record not found"),
            StoreError::LeaseLost => String::from_str("job lease has expired or belongs to another worker"),
            StoreError::InvalidInput(m) => crate::text::concat("invalid store input: ", m.as_str()),
            StoreError::Conflict(m) => crate::text::concat("job conflicts with existing state: ", m.as_str()),
            StoreError::Database(m) => crate::text::concat("database operation failed: ", m.as_str()),
            StoreError::Worker(m) => crate::text::concat("database worker failed: ", m.as_str()),
        }
    }
}

/// Reason recorded when an abandoned attempt is reclaimed.
pub open spec fn reclaimed_reason() -> Seq<char> {
    "lease expired before completion"@
}

/// Reason recorded when the final attempt's lease expires.
pub open spec fn final_expiry_reason() -> Seq<char> {
    "lease expired on final attempt"@
}

/// Message for progress counters that exceed the total.
pub open spec fn excess_rows_message() -> Seq<char> {
    "read, written, or missing-blob rows exceed total rows"@
}

/// Message for a lease expiration that does not fit the timestamp range.
pub open spec fn lease_overflow_message() -> Seq<char> {
    "lease timestamp overflow"@
}

/// Message for a counter that does not fit the stored signed range.
pub open spec fn counter_range_message() -> Seq<char> {
    "out of range integral type conversion attempted"@
}

/// `attempt` holds the job's lease at `now_ms`: the job is running that very
/// attempt and its lease has not expired.
pub open spec fn lease_held(job: JobView, attempt: u32, now_ms: i64) -> bool {
    &&& job.status == JobStatus::Running
    &&& job.attempt == attempt
    &&& job.lease_expiration_timestamp_ms matches Some(expiry) && expiry > now_ms
}

/// When a total is known, no counter exceeds it.
pub open spec fn progress_within_total(progress: JobProgress) -> bool {
    progress.rows_total == 0 || (progress.rows_read <= progress.rows_total
        && progress.rows_written <= progress.rows_total && progress.rows_missing_blobs
        <= progress.rows_total)
}

/// Every counter fits the signed 64-bit range in which stores keep it.
pub open spec fn progress_storable(progress: JobProgress) -> bool {
    &&& progress.rows_read <= i64::MAX
    &&& progress.rows_written <= i64::MAX
    &&& progress.rows_total <= i64::MAX
    &&& progress.rows_missing_blobs <= i64::MAX
}

/// The error, if any, with which an update from `attempt` is refused.
pub open spec fn update_refusal(job: JobView, attempt: u32, now_ms: i64, progress: JobProgress) -> Option<
    StoreErrorView,
> {
    if !lease_held(job, attempt, now_ms) {
        Some(StoreErrorView::LeaseLost)
    } else if !progress_within_total(progress) {
        Some(StoreErrorView::InvalidInput(excess_rows_message()))
    } else {
        None
    }
}

/// `now_ms + duration_ms`, when it fits a timestamp.
pub open spec fn lease_expiry(now_ms: i64, duration_ms: i64) -> Option<i64> {
    if i64::MIN <= now_ms + duration_ms <= i64::MAX {
        Some((now_ms + duration_ms) as i64)
    } else {
        None
    }
}

/// A running job whose lease was extended and progress recorded.
pub open spec fn renewed(job: JobView, now_ms: i64, expiry: i64, progress: JobProgress) -> JobView {
    JobView {
        lease_expiration_timestamp_ms: Some(expiry),
        update_timestamp_ms: now_ms,
        progress,
        ..job
    }
}

/// A running job whose progress was recorded.
pub open spec fn checkpointed(job: JobView, now_ms: i64, progress: JobProgress) -> JobView {
    JobView { update_timestamp_ms: now_ms, progress, ..job }
}

/// A job whose attempt succeeded.
pub open spec fn completed(job: JobView, now_ms: i64, progress: JobProgress) -> JobView {
    JobView {
        status: JobStatus::Succeeded,
        update_timestamp_ms: now_ms,
        lease_expiration_timestamp_ms: None,
        progress,
        ..job
    }
}

/// The status after `attempt` fails: retried below the cap, failed at it.
pub open spec fn status_after_failure(attempt: u32) -> JobStatus {
    if attempt >= MAX_JOB_ATTEMPTS {
        JobStatus::Failed
    } else {
        JobStatus::Queuing
    }
}

/// A job whose attempt failed for `reason`.
pub open spec fn failed_attempt(
    job: JobView,
    attempt: u32,
    now_ms: i64,
    progress: JobProgress,
    reason: Seq<char>,
) -> JobView {
    JobView {
        status: status_after_failure(attempt),
        update_timestamp_ms: now_ms,
        error_reasons: job.error_reasons.push(
            JobErrorView { attempt, error_timestamp_ms: now_ms, reason },
        ),
        lease_expiration_timestamp_ms: None,
        progress,
        ..job
    }
}

/// A job a claim may select at `now_ms`: queuing with attempts left, or
/// running with an expired lease.
pub open spec fn claimable(job: JobView, now_ms: i64) -> bool {
    ||| job.status == JobStatus::Queuing && job.attempt < MAX_JOB_ATTEMPTS
    ||| job.status == JobStatus::Running && (job.lease_expiration_timestamp_ms matches Some(expiry)
        && expiry <= now_ms)
}

/// A selected job whose final attempt's lease expired: it fails instead of
/// being handed out again.
pub open spec fn expired_on_final_attempt(job: JobView) -> bool {
    job.status == JobStatus::Running && job.attempt >= MAX_JOB_ATTEMPTS
}

/// A job whose final attempt's lease expired, after a claim at `now_ms` has
/// failed it.
pub open spec fn failed_on_final_expiry(job: JobView, now_ms: i64) -> JobView {
    JobView {
        status: JobStatus::Failed,
        update_timestamp_ms: now_ms,
        lease_expiration_timestamp_ms: None,
        error_reasons: job.error_reasons.push(
            JobErrorView {
                attempt: job.attempt,
                error_timestamp_ms: now_ms,
                reason: final_expiry_reason(),
            },
        ),
        ..job
    }
}

/// A selected job after a claim at `now_ms` with lease expiration `expiry`.
pub open spec fn after_claim(job: JobView, now_ms: i64, expiry: i64) -> JobView {
    if expired_on_final_attempt(job) {
        failed_on_final_expiry(job, now_ms)
    } else {
        JobView {
            status: JobStatus::Running,
            lease_expiration_timestamp_ms: Some(expiry),
            attempt: (job.attempt + 1) as u32,
            update_timestamp_ms: now_ms,
            error_reasons: if job.status == JobStatus::Running {
                job.error_reasons.push(
                    JobErrorView {
                        attempt: job.attempt,
                        error_timestamp_ms: now_ms,
                        reason: reclaimed_reason(),
                    },
                )
            } else {
                job.error_reasons
            },
            ..job
        }
    }
}

/// The states every stored job keeps: at most the capped number of attempts,
/// a lease exactly while running, attempts left while queuing, and at least
/// one attempt once running.
pub open spec fn job_well_formed(job: JobView) -> bool {
    &&& job.attempt <= MAX_JOB_ATTEMPTS
    &&& (job.status == JobStatus::Running) == (job.lease_expiration_timestamp_ms is Some)
    &&& job.status == JobStatus::Queuing ==> job.attempt < MAX_JOB_ATTEMPTS
    &&& job.status == JobStatus::Running ==> job.attempt >= 1
}

/// Refuses an update unless `attempt` holds the lease at `now_ms` and the
/// progress counters stay within their total.
pub fn check_update(job: &Job, attempt: u32, now_ms: i64, progress: JobProgress) -> (r: Result<
    (),
    StoreError,
>)
    ensures
        match update_refusal(job@, attempt, now_ms, progress) {
            Some(e) => r matches Err(x) && x@ == e,
            None => r is Ok,
        },
{
    let held = match job.lease_expiration_timestamp_ms {
        Some(expiry) => job.status == JobStatus::Running && job.attempt == attempt && expiry > now_ms,
        None => false,
    };
    if !held {
        return Err(StoreError::LeaseLost);
    }
    if progress.rows_total > 0 && (progress.rows_read > progress.rows_total || progress.rows_written
        > progress.rows_total || progress.rows_missing_blobs > progress.rows_total) {
        return Err(StoreError::InvalidInput(String::from_str("read, written, or missing-blob rows exceed total rows")));
    }
    Ok(())
}

/// `now_ms + duration_ms`, or the overflow error.
pub fn checked_expiry(now_ms: i64, duration_ms: i64) -> (r: Result<i64, StoreError>)
    ensures
        match lease_expiry(now_ms, duration_ms) {
            Some(expiry) => r == Ok::<i64, StoreError>(expiry),
            None => r matches Err(x) && x@ == StoreErrorView::InvalidInput(lease_overflow_message()),
        },
{
    match now_ms.checked_add(duration_ms) {
        Some(expiry) => Ok(expiry),
        None => Err(StoreError::InvalidInput(String::from_str("lease timestamp overflow"))),
    }
}

/// Refuses counters that do not fit the stored signed range.
pub fn check_storable(progress: JobProgress) -> (r: Result<(), StoreError>)
    ensures
        progress_storable(progress) ==> r is Ok,
        !progress_storable(progress) ==> (r matches Err(x) && x@ == StoreErrorView::InvalidInput(
            counter_range_message(),
        )),
{
    let limit = i64::MAX as u64;
    if progress.rows_read > limit || progress.rows_written > limit || progress.rows_total > limit
        || progress.rows_missing_blobs > limit {
        return Err(StoreError::InvalidInput(String::from_str("out of range integral type conversion attempted")));
    }
    Ok(())
}

/// The outcome of renewing `job`'s lease: the renewed job or the refusal.
pub open spec fn renewal_outcome(
    job: JobView,
    attempt: u32,
    duration_ms: i64,
    now_ms: i64,
    progress: JobProgress,
) -> Result<JobView, StoreErrorView> {
    match update_refusal(job, attempt, now_ms, progress) {
        Some(e) => Err(e),
        None => match lease_expiry(now_ms, duration_ms) {
            None => Err(StoreErrorView::InvalidInput(lease_overflow_message())),
            Some(expiry) => if progress_storable(progress) {
                Ok(renewed(job, now_ms, expiry, progress))
            } else {
                Err(StoreErrorView::InvalidInput(counter_range_message()))
            },
        },
    }
}

/// The outcome of a progress checkpoint on `job`.
pub open spec fn checkpoint_outcome(job: JobView, attempt: u32, now_ms: i64, progress: JobProgress) -> Result<
    JobView,
    StoreErrorView,
> {
    match update_refusal(job, attempt, now_ms, progress) {
        Some(e) => Err(e),
        None => if progress_storable(progress) {
            Ok(checkpointed(job, now_ms, progress))
        } else {
            Err(StoreErrorView::InvalidInput(counter_range_message()))
        },
    }
}

/// The outcome of completing `job`'s attempt.
pub open spec fn completion_outcome(job: JobView, attempt: u32, now_ms: i64, progress: JobProgress) -> Result<
    JobView,
    StoreErrorView,
> {
    match update_refusal(job, attempt, now_ms, progress) {
        Some(e) => Err(e),
        None => if progress_storable(progress) {
            Ok(completed(job, now_ms, progress))
        } else {
            Err(StoreErrorView::InvalidInput(counter_range_message()))
        },
    }
}

/// The outcome of failing `job`'s attempt for `reason`.
pub open spec fn failure_outcome(
    job: JobView,
    attempt: u32,
    now_ms: i64,
    progress: JobProgress,
    reason: Seq<char>,
) -> Result<JobView, StoreErrorView> {
    match update_refusal(job, attempt, now_ms, progress) {
        Some(e) => Err(e),
        None => if progress_storable(progress) {
            Ok(failed_attempt(job, attempt, now_ms, progress, reason))
        } else {
            Err(StoreErrorView::InvalidInput(counter_range_message()))
        },
    }
}

/// Extends the lease of `attempt` and records its progress.
pub fn renew_attempt(job: &mut Job, attempt: u32, duration_ms: i64, now_ms: i64, progress: JobProgress) -> (r:
    Result<(), StoreError>)
    ensures
        match renewal_outcome(old(job)@, attempt, duration_ms, now_ms, progress) {
            Ok(v) => r is Ok && final(job)@ == v,
            Err(e) => r matches Err(x) && x@ == e && final(job)@ == old(job)@,
        },
{
    check_update(job, attempt, now_ms, progress)?;
    let expiry = checked_expiry(now_ms, duration_ms)?;
    check_storable(progress)?;
    job.lease_expiration_timestamp_ms = Some(expiry);
    job.update_timestamp_ms = now_ms;
    job.progress = progress;
    Ok(())
}

/// Records the progress of `attempt`.
pub fn checkpoint_attempt(job: &mut Job, attempt: u32, now_ms: i64, progress: JobProgress) -> (r: Result<
    (),
    StoreError,
>)
    ensures
        match checkpoint_outcome(old(job)@, attempt, now_ms, progress) {
            Ok(v) => r is Ok && final(job)@ == v,
            Err(e) => r matches Err(x) && x@ == e && final(job)@ == old(job)@,
        },
{
    check_update(job, attempt, now_ms, progress)?;
    check_storable(progress)?;
    job.update_timestamp_ms = now_ms;
    job.progress = progress;
    Ok(())
}

/// Marks `attempt` as succeeded and clears its lease.
pub fn complete_attempt(job: &mut Job, attempt: u32, now_ms: i64, progress: JobProgress) -> (r: Result<
    (),
    StoreError,
>)
    ensures
        match completion_outcome(old(job)@, attempt, now_ms, progress) {
            Ok(v) => r is Ok && final(job)@ == v,
            Err(e) => r matches Err(x) && x@ == e && final(job)@ == old(job)@,
        },
{
    check_update(job, attempt, now_ms, progress)?;
    check_storable(progress)?;
    job.status = JobStatus::Succeeded;
    job.update_timestamp_ms = now_ms;
    job.lease_expiration_timestamp_ms = None;
    job.progress = progress;
    Ok(())
}

/// Records the failure of `attempt`, clears its lease, and requeues the job
/// unless the attempt was the last one allowed.
pub fn fail_attempt(job: &mut Job, attempt: u32, now_ms: i64, progress: JobProgress, reason: String) -> (r:
    Result<(), StoreError>)
    ensures
        match failure_outcome(old(job)@, attempt, now_ms, progress, reason@) {
            Ok(v) => r is Ok && final(job)@ == v,
            Err(e) => r matches Err(x) && x@ == e && final(job)@ == old(job)@,
        },
{
    check_update(job, attempt, now_ms, progress)?;
    check_storable(progress)?;
    let ghost old_errors = job.error_reasons@;
    job.error_reasons.push(JobError { attempt, error_timestamp_ms: now_ms, reason });
    proof {
        assert(errors_view(job.error_reasons@) =~= errors_view(old_errors).push(
            JobErrorView { attempt, error_timestamp_ms: now_ms, reason: reason@ },
        ));
    }
    job.status = if attempt >= MAX_JOB_ATTEMPTS {
        JobStatus::Failed
    } else {
        JobStatus::Queuing
    };
    job.update_timestamp_ms = now_ms;
    job.lease_expiration_timestamp_ms = None;
    job.progress = progress;
    Ok(())
}

/// Whether a claim at `now_ms` may select `job`.
pub fn is_claimable(job: &Job, now_ms: i64) -> (r: bool)
    ensures
        r == claimable(job@, now_ms),
{
    match job.status {
        JobStatus::Queuing => job.attempt < MAX_JOB_ATTEMPTS,
        JobStatus::Running => match job.lease_expiration_timestamp_ms {
            Some(expiry) => expiry <= now_ms,
            None => false,
        },
        _ => false,
    }
}

/// Applies a claim to a selected job: a final attempt whose lease expired
/// fails; any other job starts its next attempt under a new lease, recording
/// the abandoned attempt if it was running. Returns whether the job was
/// handed out.
pub fn claim_selected(job: &mut Job, now_ms: i64, expiry: i64) -> (handed_out: bool)
    requires
        claimable(old(job)@, now_ms),
    ensures
        final(job)@ == after_claim(old(job)@, now_ms, expiry),
        handed_out == !expired_on_final_attempt(old(job)@),
{
    let ghost old_errors = job.error_reasons@;
    if job.status == JobStatus::Running && job.attempt >= MAX_JOB_ATTEMPTS {
        job.error_reasons.push(JobError {
            attempt: job.attempt,
            error_timestamp_ms: now_ms,
            reason: String::from_str("lease expired on final attempt"),
        });
        proof {
            assert(errors_view(job.error_reasons@) =~= errors_view(old_errors).push(
                JobErrorView { attempt: job.attempt, error_timestamp_ms: now_ms, reason: final_expiry_reason() },
            ));
        }
        job.status = JobStatus::Failed;
        job.update_timestamp_ms = now_ms;
        job.lease_expiration_timestamp_ms = None;
        false
    } else {
        if job.status == JobStatus::Running {
            job.error_reasons.push(JobError {
                attempt: job.attempt,
                error_timestamp_ms: now_ms,
                reason: String::from_str("lease expired before completion"),
            });
            proof {
                assert(errors_view(job.error_reasons@) =~= errors_view(old_errors).push(
                    JobErrorView { attempt: job.attempt, error_timestamp_ms: now_ms, reason: reclaimed_reason() },
                ));
            }
        }
        job.status = JobStatus::Running;
        job.lease_expiration_timestamp_ms = Some(expiry);
        job.attempt = job.attempt + 1;
        job.update_timestamp_ms = now_ms;
        true
    }
}

/// An accepted update records the progress it carries. A renewal keeps the
/// job running under the same attempt, with its lease now expiring
/// `duration_ms` after `now_ms`; a checkpoint only records progress and
/// time; a completion ends the job as succeeded without a lease. None of
/// them touches the job's identity or its error history.
pub proof fn lemma_accepted_updates_record_progress(
    job: JobView,
    attempt: u32,
    duration_ms: i64,
    now_ms: i64,
    progress: JobProgress,
    reason: Seq<char>,
)
    ensures
        renewal_outcome(job, attempt, duration_ms, now_ms, progress) matches Ok(v) ==> {
            &&& v.progress == progress
            &&& v.lease_expiration_timestamp_ms == Some((now_ms + duration_ms) as i64)
            &&& now_ms + duration_ms <= i64::MAX
            &&& v.status == JobStatus::Running
            &&& v.attempt == attempt && attempt == job.attempt
            &&& v.update_timestamp_ms == now_ms
            &&& v.destination_uri == job.destination_uri
            &&& v.error_reasons == job.error_reasons
        },
        checkpoint_outcome(job, attempt, now_ms, progress) matches Ok(v) ==> {
            &&& v.progress == progress
            &&& v.status == JobStatus::Running
            &&& v.lease_expiration_timestamp_ms == job.lease_expiration_timestamp_ms
            &&& v.attempt == job.attempt
            &&& v.update_timestamp_ms == now_ms
            &&& v.destination_uri == job.destination_uri
            &&& v.error_reasons == job.error_reasons
        },
        completion_outcome(job, attempt, now_ms, progress) matches Ok(v) ==> {
            &&& v.progress == progress
            &&& v.status == JobStatus::Succeeded
            &&& v.lease_expiration_timestamp_ms is None
            &&& v.attempt == job.attempt
            &&& v.destination_uri == job.destination_uri
            &&& v.error_reasons == job.error_reasons
        },
        failure_outcome(job, attempt, now_ms, progress, reason) matches Ok(v) ==> {
            &&& v.progress == progress
            &&& v.lease_expiration_timestamp_ms is None
            &&& v.attempt == job.attempt
            &&& v.destination_uri == job.destination_uri
        },
{
}

/// An update from an attempt that does not hold the job's lease (another
/// attempt, an expired lease, or a job that is not running) is refused with
/// `LeaseLost`, whichever update it is.
pub proof fn lemma_stale_attempt_is_fenced(
    job: JobView,
    attempt: u32,
    duration_ms: i64,
    now_ms: i64,
    progress: JobProgress,
    reason: Seq<char>,
)
    requires
        !lease_held(job, attempt, now_ms),
    ensures
        renewal_outcome(job, attempt, duration_ms, now_ms, progress) == Err::<JobView, StoreErrorView>(StoreErrorView::LeaseLost),
        checkpoint_outcome(job, attempt, now_ms, progress) == Err::<JobView, StoreErrorView>(StoreErrorView::LeaseLost),
        completion_outcome(job, attempt, now_ms, progress) == Err::<JobView, StoreErrorView>(StoreErrorView::LeaseLost),
        failure_outcome(job, attempt, now_ms, progress, reason) == Err::<JobView, StoreErrorView>(StoreErrorView::LeaseLost),
{
}

/// A succeeded or failed job is terminal: no claim selects it and every
/// update to it is refused.
pub proof fn lemma_terminal_jobs_stay_terminal(
    job: JobView,
    attempt: u32,
    duration_ms: i64,
    now_ms: i64,
    progress: JobProgress,
    reason: Seq<char>,
)
    requires
        job.status == JobStatus::Succeeded || job.status == JobStatus::Failed,
    ensures
        !claimable(job, now_ms),
        renewal_outcome(job, attempt, duration_ms, now_ms, progress) is Err,
        checkpoint_outcome(job, attempt, now_ms, progress) is Err,
        completion_outcome(job, attempt, now_ms, progress) is Err,
        failure_outcome(job, attempt, now_ms, progress, reason) is Err,
{
}

/// A failed attempt below the cap returns the job to the queue, and the last
/// allowed attempt fails it for good; either way the failure is appended to
/// the error history and the lease is cleared.
pub proof fn lemma_failures_retry_until_cap(
    job: JobView,
    attempt: u32,
    now_ms: i64,
    progress: JobProgress,
    reason: Seq<char>,
)
    requires
        failure_outcome(job, attempt, now_ms, progress, reason) is Ok,
    ensures
        ({
            let v = failure_outcome(job, attempt, now_ms, progress, reason)->Ok_0;
            &&& attempt < MAX_JOB_ATTEMPTS ==> v.status == JobStatus::Queuing
            &&& attempt >= MAX_JOB_ATTEMPTS ==> v.status == JobStatus::Failed
            &&& v.error_reasons == job.error_reasons.push(
                JobErrorView { attempt, error_timestamp_ms: now_ms, reason },
            )
            &&& v.lease_expiration_timestamp_ms is None
            &&& v.attempt == job.attempt
        }),
{
}

/// Every transition keeps the error history: it either leaves it as it was
/// or appends one error.
pub proof fn lemma_error_history_is_append_only(
    job: JobView,
    attempt: u32,
    duration_ms: i64,
    now_ms: i64,
    expiry: i64,
    progress: JobProgress,
    reason: Seq<char>,
)
    ensures
        renewal_outcome(job, attempt, duration_ms, now_ms, progress) matches Ok(v)
            ==> v.error_reasons == job.error_reasons,
        checkpoint_outcome(job, attempt, now_ms, progress) matches Ok(v) ==> v.error_reasons
            == job.error_reasons,
        completion_outcome(job, attempt, now_ms, progress) matches Ok(v) ==> v.error_reasons
            == job.error_reasons,
        failure_outcome(job, attempt, now_ms, progress, reason) matches Ok(v)
            ==> v.error_reasons.drop_last() == job.error_reasons && v.error_reasons.len()
            == job.error_reasons.len() + 1,
        after_claim(job, now_ms, expiry).error_reasons.len() >= job.error_reasons.len(),
        after_claim(job, now_ms, expiry).error_reasons.subrange(0, job.error_reasons.len() as int)
            == job.error_reasons,
{
    if let Ok(v) = failure_outcome(job, attempt, now_ms, progress, reason) {
        assert(v.error_reasons.drop_last() =~= job.error_reasons);
    }
    assert(after_claim(job, now_ms, expiry).error_reasons.subrange(0, job.error_reasons.len() as int)
        =~= job.error_reasons);
}

/// A claimed job that is handed out runs its next attempt under a lease that
/// expires at `expiry`; an abandoned attempt is recorded as reclaimed.
pub proof fn lemma_handed_out_job_runs_next_attempt(job: JobView, now_ms: i64, expiry: i64)
    requires
        claimable(job, now_ms),
        job_well_formed(job),
        !expired_on_final_attempt(job),
    ensures
        ({
            let v = after_claim(job, now_ms, expiry);
            &&& v.status == JobStatus::Running
            &&& v.attempt == job.attempt + 1
            &&& v.attempt <= MAX_JOB_ATTEMPTS
            &&& v.lease_expiration_timestamp_ms == Some(expiry)
            &&& lease_held(v, v.attempt, now_ms) <==> expiry > now_ms
            &&& job.status == JobStatus::Running ==> v.error_reasons.last() == (JobErrorView {
                attempt: job.attempt,
                error_timestamp_ms: now_ms,
                reason: reclaimed_reason(),
            })
        }),
{
}

/// A claim that selects a running job on its final attempt fails it with
/// the final-expiry reason instead of handing it out.
pub proof fn lemma_final_expired_attempt_fails(job: JobView, now_ms: i64, expiry: i64)
    requires
        claimable(job, now_ms),
        expired_on_final_attempt(job),
    ensures
        after_claim(job, now_ms, expiry).status == JobStatus::Failed,
        after_claim(job, now_ms, expiry).lease_expiration_timestamp_ms is None,
        after_claim(job, now_ms, expiry).error_reasons.last() == (JobErrorView {
            attempt: job.attempt,
            error_timestamp_ms: now_ms,
            reason: final_expiry_reason(),
        }),
        !claimable(after_claim(job, now_ms, expiry), now_ms),
{
}

/// Once a job is reclaimed, the attempt it was taken from can no longer
/// update it: a stale worker is fenced off.
pub proof fn lemma_reclaimed_attempt_is_fenced(job: JobView, now_ms: i64, expiry: i64, later_ms: i64)
    requires
        claimable(job, now_ms),
        job_well_formed(job),
    ensures
        !lease_held(after_claim(job, now_ms, expiry), job.attempt, later_ms),
{
}

/// A job whose attempt failed below the cap can be claimed again, and one
/// whose last allowed attempt failed cannot.
pub proof fn lemma_failed_attempt_claimability(
    job: JobView,
    attempt: u32,
    now_ms: i64,
    progress: JobProgress,
    reason: Seq<char>,
    later_ms: i64,
)
    requires
        failure_outcome(job, attempt, now_ms, progress, reason) is Ok,
    ensures
        claimable(failure_outcome(job, attempt, now_ms, progress, reason)->Ok_0, later_ms) <==> attempt
            < MAX_JOB_ATTEMPTS,
{
}

} // verus!
