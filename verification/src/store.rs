//! A table of jobs keyed by destination URI, with the operations of a job
//! store: creation, lookup, filtered listing, lease-based claiming, and the
//! fenced updates of running attempts.

use vstd::prelude::*;
use vstd::string::*;
use crate::job::{
    ClaimedJob, CompletionUpdate, FailureUpdate, Job, JobKind, JobProgress, JobStatus, JobView,
    LeaseUpdate, NewJob, ProgressUpdate, blob_columns_view, copy_errors, errors_view, indices_view,
    zero_progress,
};
use crate::lifecycle::{
    StoreError, StoreErrorView, after_claim, checkpoint_attempt, checkpoint_outcome, checked_expiry,
    claim_selected, claimable, complete_attempt, completion_outcome, counter_range_message,
    expired_on_final_attempt, fail_attempt, failed_on_final_expiry, failure_outcome, is_claimable, job_well_formed,
    lease_expiry, lease_overflow_message, renew_attempt, renewal_outcome,
};
use crate::location::LocationKind;
use crate::ordering::{
    JobOrderField, destinations_unique, first_in_order, is_first_in_order, job_before,
    lemma_job_before_irreflexive,
};
use crate::text::str_eq;

verus! {

/// Filters, order, and size of a job listing.
#[derive(Debug)]
pub struct JobQuery {
    pub creator: Option<String>,
    pub failed_only: bool,
    pub ongoing_only: bool,
    pub creation_timestamp_ms_from: Option<i64>,
    pub creation_timestamp_ms_to: Option<i64>,
    pub order_by: JobOrderField,
    pub descending: bool,
    pub limit: usize,
}

/// Message for a renewal with a non-positive duration.
pub open spec fn non_positive_duration_message() -> Seq<char> {
    "lease duration must be positive"@
}

/// Message for a second job on the same destination.
pub open spec fn duplicate_destination_message() -> Seq<char> {
    "destination already has a job"@
}

/// Message for a move job whose source cannot be deleted.
pub open spec fn move_source_message() -> Seq<char> {
    "move jobs are supported only for NFS and S3 sources"@
}

/// Message for a listing that asks for failed and ongoing jobs at once.
pub open spec fn exclusive_filters_message() -> Seq<char> {
    "failed-only and ongoing-only filters are mutually exclusive"@
}

/// Message for a creation-time range whose bounds are inverted.
pub open spec fn inverted_range_message() -> Seq<char> {
    "creation timestamp lower bound exceeds upper bound"@
}

/// Message for stored rows that break the table's invariants.
pub open spec fn inconsistent_rows_message() -> Seq<char> {
    "stored jobs are inconsistent"@
}

/// Every job is well formed and no two share a destination.
pub open spec fn table_well_formed(jobs: Seq<JobView>) -> bool {
    &&& destinations_unique(jobs)
    &&& forall|i: int| 0 <= i < jobs.len() ==> job_well_formed(#[trigger] jobs[i])
}

/// The first index at or after `start` of the job stored for `destination`.
pub open spec fn position_from(jobs: Seq<JobView>, destination: Seq<char>, start: int) -> Option<int>
    decreases jobs.len() - start,
{
    if start < 0 || start >= jobs.len() {
        None
    } else if jobs[start].destination_uri == destination {
        Some(start)
    } else {
        position_from(jobs, destination, start + 1)
    }
}

/// The index of the job stored for `destination`.
pub open spec fn position_of(jobs: Seq<JobView>, destination: Seq<char>) -> Option<int> {
    position_from(jobs, destination, 0)
}

/// The job stored for `destination`.
pub open spec fn lookup(jobs: Seq<JobView>, destination: Seq<char>) -> Option<JobView> {
    match position_of(jobs, destination) {
        Some(i) => Some(jobs[i]),
        None => None,
    }
}

/// The job a new-job request creates: queuing, attempt zero, no lease, no
/// errors, zero progress, last updated at its creation.
pub open spec fn created_job(new_job: NewJob) -> JobView {
    JobView {
        creator: new_job.creator@,
        kind: new_job.kind,
        source_uri: new_job.source@.uri,
        destination_uri: new_job.destination@.uri,
        blob_columns: blob_columns_view(new_job.blob_columns@),
        indices: indices_view(new_job.indices@),
        status: JobStatus::Queuing,
        creation_timestamp_ms: new_job.creation_timestamp_ms,
        update_timestamp_ms: new_job.creation_timestamp_ms,
        attempt: 0,
        error_reasons: Seq::empty(),
        lease_expiration_timestamp_ms: None,
        progress: zero_progress(),
    }
}

/// The outcome of creating a job: the refusal, or the table with it added.
pub open spec fn creation_outcome(jobs: Seq<JobView>, new_job: NewJob) -> Result<Seq<JobView>, StoreErrorView> {
    if new_job.kind == JobKind::Move && new_job.source@.kind == LocationKind::HuggingFace {
        Err(StoreErrorView::InvalidInput(move_source_message()))
    } else if lookup(jobs, new_job.destination@.uri) is Some {
        Err(StoreErrorView::Conflict(duplicate_destination_message()))
    } else {
        Ok(jobs.push(created_job(new_job)))
    }
}

/// A job matches a listing's filters.
pub open spec fn query_matches(job: JobView, query: JobQuery) -> bool {
    &&& query.creator matches Some(c) ==> job.creator == c@
    &&& query.failed_only ==> job.status == JobStatus::Failed
    &&& query.ongoing_only ==> (job.status == JobStatus::Queuing || job.status == JobStatus::Running)
    &&& query.creation_timestamp_ms_from matches Some(from) ==> job.creation_timestamp_ms >= from
    &&& query.creation_timestamp_ms_to matches Some(to) ==> job.creation_timestamp_ms <= to
}

/// The refusal, if any, of a listing with a positive limit.
pub open spec fn query_refusal(query: JobQuery) -> Option<StoreErrorView> {
    if query.failed_only && query.ongoing_only {
        Some(StoreErrorView::InvalidInput(exclusive_filters_message()))
    } else if query.creation_timestamp_ms_from matches Some(from) && query.creation_timestamp_ms_to matches Some(
        to,
    ) && from > to {
        Some(StoreErrorView::InvalidInput(inverted_range_message()))
    } else if query.limit > i64::MAX {
        Some(StoreErrorView::InvalidInput(counter_range_message()))
    } else {
        None
    }
}

/// The jobs at the given indices, in order.
pub open spec fn jobs_at(jobs: Seq<JobView>, picked: Seq<usize>) -> Seq<JobView> {
    picked.map_values(|i: usize| jobs[i as int])
}

/// Marks the jobs that match a listing.
pub open spec fn query_marks(jobs: Seq<JobView>, query: JobQuery) -> Seq<bool> {
    Seq::new(jobs.len(), |i: int| query_matches(jobs[i], query))
}

/// Marks the jobs a claim at `now_ms` may select.
pub open spec fn claim_marks(jobs: Seq<JobView>, now_ms: i64) -> Seq<bool> {
    Seq::new(jobs.len(), |i: int| claimable(jobs[i], now_ms))
}

/// Marks every job.
pub open spec fn all_marks(jobs: Seq<JobView>) -> Seq<bool> {
    Seq::new(jobs.len(), |i: int| true)
}

/// The table after a claim applied to the selected jobs.
pub open spec fn claims_applied(jobs: Seq<JobView>, picked: Seq<usize>, now_ms: i64, expiry: i64) -> Seq<
    JobView,
> {
    Seq::new(
        jobs.len(),
        |i: int|
            if picked.contains(i as usize) {
                after_claim(jobs[i], now_ms, expiry)
            } else {
                jobs[i]
            },
    )
}

/// Whether a claim at `now_ms` fails `job` rather than selecting it: a
/// running job whose lease expired on its final attempt.
pub open spec fn expires_on_final_attempt(job: JobView, now_ms: i64) -> bool {
    claimable(job, now_ms) && expired_on_final_attempt(job)
}

/// The table once a claim at `now_ms` has failed every running job whose
/// lease expired on its final attempt. These failures come before the
/// selection and do not count against the claim's limit.
pub open spec fn final_expiries_failed(jobs: Seq<JobView>, now_ms: i64) -> Seq<JobView> {
    Seq::new(
        jobs.len(),
        |i: int|
            if expires_on_final_attempt(jobs[i], now_ms) {
                failed_on_final_expiry(jobs[i], now_ms)
            } else {
                jobs[i]
            },
    )
}

/// The jobs a claim hands out, in selection order: each selected job after
/// its claim.
pub open spec fn claimed_jobs(jobs: Seq<JobView>, picked: Seq<usize>, now_ms: i64, expiry: i64) -> Seq<JobView> {
    picked.map_values(|i: usize| after_claim(jobs[i as int], now_ms, expiry))
}

/// The models of a list of claimed jobs.
pub open spec fn claimed_views(claimed: Seq<ClaimedJob>) -> Seq<JobView> {
    claimed.map_values(|c: ClaimedJob| c.job@)
}

/// The models of a list of jobs.
pub open spec fn job_views(jobs: Seq<Job>) -> Seq<JobView> {
    jobs.map_values(|job: Job| job@)
}

/// An in-memory job store.
pub struct JobTable {
    jobs: Vec<Job>,
}

impl View for JobTable {
    type V = Seq<JobView>;

    closed spec fn view(&self) -> Seq<JobView> {
        job_views(self.jobs@)
    }
}

impl JobTable {
    #[verifier::type_invariant]
    spec fn consistent(self) -> bool {
        table_well_formed(job_views(self.jobs@))
    }

    /// An empty table.
    pub fn new() -> (r: JobTable)
        ensures
            r@ == Seq::<JobView>::empty(),
            table_well_formed(r@),
    {
        let r = JobTable { jobs: Vec::new() };
        assert(job_views(r.jobs@) =~= Seq::<JobView>::empty());
        r
    }

    /// The stored jobs.
    pub fn jobs(&self) -> (r: &Vec<Job>)
        ensures
            job_views(r@) == self@,
            table_well_formed(self@),
    {
        proof {
            use_type_invariant(self);
        }
        &self.jobs
    }

    /// Builds a table from stored rows, refusing rows that share a
    /// destination or break the lifecycle's invariants.
    pub fn from_jobs(jobs: Vec<Job>) -> (r: Result<JobTable, StoreError>)
        ensures
            table_well_formed(job_views(jobs@)) ==> (r matches Ok(t) && t@ == job_views(jobs@)),
            !table_well_formed(job_views(jobs@)) ==> (r matches Err(e) && e@ == StoreErrorView::Database(
                inconsistent_rows_message(),
            )),
    {
        let ghost views = job_views(jobs@);
        let mut i: usize = 0;
        while i < jobs.len()
            invariant
                views == job_views(jobs@),
                i <= jobs@.len(),
                forall|a: int, b: int| 0 <= a < i && 0 <= b < jobs@.len() && a != b ==> views[a].destination_uri != views[b].destination_uri,
                forall|a: int| 0 <= a < i ==> job_well_formed(#[trigger] views[a]),
            decreases jobs.len() - i,
        {
            if !well_formed_job(&jobs[i]) {
                proof {
                    assert(!job_well_formed(views[i as int]));
                }
                return Err(StoreError::Database(String::from_str("stored jobs are inconsistent")));
            }
            let mut j: usize = 0;
            while j < jobs.len()
                invariant
                    views == job_views(jobs@),
                    i < jobs@.len(),
                    j <= jobs@.len(),
                    forall|b: int| 0 <= b < j && b != i ==> views[i as int].destination_uri != views[b].destination_uri,
                decreases jobs.len() - j,
            {
                if j != i && str_eq(jobs[i].destination_uri.as_str(), jobs[j].destination_uri.as_str()) {
                    proof {
                        assert(views[i as int].destination_uri == views[j as int].destination_uri);
                        assert(!destinations_unique(views));
                    }
                    return Err(StoreError::Database(String::from_str("stored jobs are inconsistent")));
                }
                j = j + 1;
            }
            i = i + 1;
        }
        Ok(JobTable { jobs })
    }

    /// The index of the job stored for `destination`.
    fn position(&self, destination: &str) -> (r: Option<usize>)
        ensures
            match r {
                Some(i) => position_of(self@, destination@) == Some(i as int) && i < self@.len(),
                None => position_of(self@, destination@) is None,
            },
    {
        let mut i: usize = 0;
        while i < self.jobs.len()
            invariant
                i <= self.jobs@.len(),
                position_of(self@, destination@) == position_from(self@, destination@, i as int),
                self@ == job_views(self.jobs@),
            decreases self.jobs.len() - i,
        {
            if str_eq(self.jobs[i].destination_uri.as_str(), destination) {
                return Some(i);
            }
            i = i + 1;
        }
        None
    }

    /// Returns the job stored for `destination`.
    pub fn get_job(&self, destination: &str) -> (r: Result<Job, StoreError>)
        ensures
            match lookup(self@, destination@) {
                Some(job) => r matches Ok(j) && j@ == job,
                None => r matches Err(e) && e@ == StoreErrorView::NotFound,
            },
    {
        match self.position(destination) {
            Some(i) => Ok(self.jobs[i].duplicate()),
            None => Err(StoreError::NotFound),
        }
    }
}

/// Whether a job keeps the lifecycle's invariants.
pub fn well_formed_job(job: &Job) -> (r: bool)
    ensures
        r == job_well_formed(job@),
{
    job.attempt <= crate::job::MAX_JOB_ATTEMPTS && (job.status == JobStatus::Running)
        == job.lease_expiration_timestamp_ms.is_some() && (job.status != JobStatus::Queuing
        || job.attempt < crate::job::MAX_JOB_ATTEMPTS) && (job.status != JobStatus::Running
        || job.attempt >= 1)
}

/// The outcome of renewing the lease of the job stored for `destination`:
/// its index and renewed model, or the refusal.
pub open spec fn table_renewal(
    jobs: Seq<JobView>,
    destination: Seq<char>,
    attempt: u32,
    duration_ms: i64,
    progress: JobProgress,
    now_ms: i64,
) -> Result<(int, JobView), StoreErrorView> {
    if duration_ms <= 0 {
        Err(StoreErrorView::InvalidInput(non_positive_duration_message()))
    } else {
        match position_of(jobs, destination) {
            None => Err(StoreErrorView::NotFound),
            Some(i) => match renewal_outcome(jobs[i], attempt, duration_ms, now_ms, progress) {
                Ok(v) => Ok((i, v)),
                Err(e) => Err(e),
            },
        }
    }
}

/// The outcome of a checkpoint on the job stored for `destination`.
pub open spec fn table_checkpoint(
    jobs: Seq<JobView>,
    destination: Seq<char>,
    attempt: u32,
    progress: JobProgress,
    now_ms: i64,
) -> Result<(int, JobView), StoreErrorView> {
    match position_of(jobs, destination) {
        None => Err(StoreErrorView::NotFound),
        Some(i) => match checkpoint_outcome(jobs[i], attempt, now_ms, progress) {
            Ok(v) => Ok((i, v)),
            Err(e) => Err(e),
        },
    }
}

/// The outcome of completing the attempt of the job stored for `destination`.
pub open spec fn table_completion(
    jobs: Seq<JobView>,
    destination: Seq<char>,
    attempt: u32,
    progress: JobProgress,
    now_ms: i64,
) -> Result<(int, JobView), StoreErrorView> {
    match position_of(jobs, destination) {
        None => Err(StoreErrorView::NotFound),
        Some(i) => match completion_outcome(jobs[i], attempt, now_ms, progress) {
            Ok(v) => Ok((i, v)),
            Err(e) => Err(e),
        },
    }
}

/// The outcome of failing the attempt of the job stored for `destination`.
pub open spec fn table_failure(
    jobs: Seq<JobView>,
    destination: Seq<char>,
    attempt: u32,
    progress: JobProgress,
    reason: Seq<char>,
    now_ms: i64,
) -> Result<(int, JobView), StoreErrorView> {
    match position_of(jobs, destination) {
        None => Err(StoreErrorView::NotFound),
        Some(i) => match failure_outcome(jobs[i], attempt, now_ms, progress, reason) {
            Ok(v) => Ok((i, v)),
            Err(e) => Err(e),
        },
    }
}

/// What a search from `start` finds: the matching index, or that no job from
/// `start` on has the destination.
pub proof fn lemma_position_from(jobs: Seq<JobView>, destination: Seq<char>, start: int)
    requires
        0 <= start,
    ensures
        match position_from(jobs, destination, start) {
            Some(i) => start <= i < jobs.len() && jobs[i].destination_uri == destination,
            None => forall|k: int| start <= k < jobs.len() ==> jobs[k].destination_uri != destination,
        },
    decreases jobs.len() - start,
{
    if start < jobs.len() && jobs[start].destination_uri != destination {
        lemma_position_from(jobs, destination, start + 1);
    }
}

/// Replacing a job by a well-formed job with the same destination keeps the
/// table well formed.
pub proof fn lemma_replace_keeps_well_formed(jobs: Seq<JobView>, i: int, v: JobView)
    requires
        table_well_formed(jobs),
        0 <= i < jobs.len(),
        v.destination_uri == jobs[i].destination_uri,
        job_well_formed(v),
    ensures
        table_well_formed(jobs.update(i, v)),
{
    let updated = jobs.update(i, v);
    assert forall|k: int| 0 <= k < updated.len() implies job_well_formed(#[trigger] updated[k]) by {
        if k != i {
            assert(updated[k] == jobs[k]);
        }
    }
}

/// The outcomes of updates keep a job's destination and well-formedness.
pub proof fn lemma_outcomes_keep_job_well_formed(
    job: JobView,
    attempt: u32,
    duration_ms: i64,
    now_ms: i64,
    progress: JobProgress,
    reason: Seq<char>,
)
    requires
        job_well_formed(job),
    ensures
        renewal_outcome(job, attempt, duration_ms, now_ms, progress) matches Ok(v) ==> (job_well_formed(v)
            && v.destination_uri == job.destination_uri),
        checkpoint_outcome(job, attempt, now_ms, progress) matches Ok(v) ==> (job_well_formed(v)
            && v.destination_uri == job.destination_uri),
        completion_outcome(job, attempt, now_ms, progress) matches Ok(v) ==> (job_well_formed(v)
            && v.destination_uri == job.destination_uri),
        failure_outcome(job, attempt, now_ms, progress, reason) matches Ok(v) ==> (job_well_formed(v)
            && v.destination_uri == job.destination_uri),
{
}

impl JobTable {
    /// Persists a new job: queuing, attempt zero, no lease, no errors, zero
    /// progress. A move job needs an NFS or S3 source, and a destination can
    /// have only one job.
    pub fn create_job(&mut self, new_job: NewJob) -> (r: Result<(), StoreError>)
        ensures
            match creation_outcome(old(self)@, new_job) {
                Ok(t) => r is Ok && final(self)@ == t,
                Err(e) => r matches Err(x) && x@ == e && final(self)@ == old(self)@,
            },
            table_well_formed(final(self)@),
    {
        proof {
            use_type_invariant(&*self);
        }
        if new_job.kind == JobKind::Move && new_job.source.kind() == LocationKind::HuggingFace {
            return Err(StoreError::InvalidInput(String::from_str("move jobs are supported only for NFS and S3 sources")));
        }
        if self.position(new_job.destination.uri()).is_some() {
            return Err(StoreError::Conflict(String::from_str("destination already has a job")));
        }
        let ghost before = self@;
        let ghost expected = created_job(new_job);
        proof {
            lemma_position_from(before, new_job.destination@.uri, 0);
        }
        let job = Job {
            creator: new_job.creator,
            kind: new_job.kind,
            source_uri: new_job.source.uri().to_owned(),
            destination_uri: new_job.destination.uri().to_owned(),
            blob_columns: new_job.blob_columns,
            indices: new_job.indices,
            status: JobStatus::Queuing,
            creation_timestamp_ms: new_job.creation_timestamp_ms,
            update_timestamp_ms: new_job.creation_timestamp_ms,
            attempt: 0,
            error_reasons: Vec::new(),
            lease_expiration_timestamp_ms: None,
            progress: JobProgress::default(),
        };
        proof {
            assert(errors_view(job.error_reasons@) =~= Seq::empty());
            assert(job@ == expected);
        }
        let mut jobs: Vec<Job> = Vec::new();
        std::mem::swap(&mut jobs, &mut self.jobs);
        jobs.push(job);
        proof {
            assert(job_views(jobs@) =~= before.push(expected));
        }
        self.jobs = jobs;
        Ok(())
    }

    /// Extends the lease of a running attempt and records its progress.
    ///
    /// Refused with `LeaseLost` unless the attempt is the job's current one
    /// and its lease has not expired.
    pub fn renew_lease(&mut self, update: LeaseUpdate, now_ms: i64) -> (r: Result<Job, StoreError>)
        ensures
            match table_renewal(
                old(self)@,
                update.destination_uri@,
                update.attempt,
                update.convert_lease_duration_ms,
                update.progress,
                now_ms,
            ) {
                Ok((i, v)) => r matches Ok(j) && j@ == v && final(self)@ == old(self)@.update(i, v),
                Err(e) => r matches Err(x) && x@ == e && final(self)@ == old(self)@,
            },
            table_well_formed(final(self)@),
    {
        proof {
            use_type_invariant(&*self);
        }
        if update.convert_lease_duration_ms <= 0 {
            return Err(StoreError::InvalidInput(String::from_str("lease duration must be positive")));
        }
        let i = match self.position(update.destination_uri.as_str()) {
            Some(i) => i,
            None => return Err(StoreError::NotFound),
        };
        let ghost before = self@;
        let mut jobs: Vec<Job> = Vec::new();
        std::mem::swap(&mut jobs, &mut self.jobs);
        let result = renew_attempt(
            &mut jobs[i],
            update.attempt,
            update.convert_lease_duration_ms,
            now_ms,
            update.progress,
        );
        proof {
            lemma_outcomes_keep_job_well_formed(
                before[i as int],
                update.attempt,
                update.convert_lease_duration_ms,
                now_ms,
                update.progress,
                Seq::empty(),
            );
            if result is Ok {
                lemma_replace_keeps_well_formed(before, i as int, jobs@[i as int]@);
                assert(job_views(jobs@) =~= before.update(i as int, jobs@[i as int]@));
            } else {
                assert(job_views(jobs@) =~= before);
            }
        }
        self.jobs = jobs;
        match result {
            Ok(()) => Ok(self.jobs[i].duplicate()),
            Err(e) => Err(e),
        }
    }

    /// Records the progress of a running attempt without extending its lease.
    ///
    /// Refused with `LeaseLost` unless the attempt is the job's current one
    /// and its lease has not expired.
    pub fn checkpoint_progress(&mut self, update: ProgressUpdate, now_ms: i64) -> (r: Result<Job, StoreError>)
        ensures
            match table_checkpoint(old(self)@, update.destination_uri@, update.attempt, update.progress, now_ms) {
                Ok((i, v)) => r matches Ok(j) && j@ == v && final(self)@ == old(self)@.update(i, v),
                Err(e) => r matches Err(x) && x@ == e && final(self)@ == old(self)@,
            },
            table_well_formed(final(self)@),
    {
        proof {
            use_type_invariant(&*self);
        }
        let i = match self.position(update.destination_uri.as_str()) {
            Some(i) => i,
            None => return Err(StoreError::NotFound),
        };
        let ghost before = self@;
        let mut jobs: Vec<Job> = Vec::new();
        std::mem::swap(&mut jobs, &mut self.jobs);
        let result = checkpoint_attempt(&mut jobs[i], update.attempt, now_ms, update.progress);
        proof {
            lemma_outcomes_keep_job_well_formed(before[i as int], update.attempt, 1, now_ms, update.progress, Seq::empty());
            if result is Ok {
                lemma_replace_keeps_well_formed(before, i as int, jobs@[i as int]@);
                assert(job_views(jobs@) =~= before.update(i as int, jobs@[i as int]@));
            } else {
                assert(job_views(jobs@) =~= before);
            }
        }
        self.jobs = jobs;
        match result {
            Ok(()) => Ok(self.jobs[i].duplicate()),
            Err(e) => Err(e),
        }
    }

    /// Marks a running attempt as succeeded, clears its lease, and records its
    /// final progress.
    ///
    /// Refused with `LeaseLost` unless the attempt is the job's current one
    /// and its lease has not expired.
    pub fn complete_job(&mut self, update: CompletionUpdate, now_ms: i64) -> (r: Result<(), StoreError>)
        ensures
            match table_completion(old(self)@, update.destination_uri@, update.attempt, update.progress, now_ms) {
                Ok((i, v)) => r is Ok && final(self)@ == old(self)@.update(i, v),
                Err(e) => r matches Err(x) && x@ == e && final(self)@ == old(self)@,
            },
            table_well_formed(final(self)@),
    {
        proof {
            use_type_invariant(&*self);
        }
        let i = match self.position(update.destination_uri.as_str()) {
            Some(i) => i,
            None => return Err(StoreError::NotFound),
        };
        let ghost before = self@;
        let mut jobs: Vec<Job> = Vec::new();
        std::mem::swap(&mut jobs, &mut self.jobs);
        let result = complete_attempt(&mut jobs[i], update.attempt, now_ms, update.progress);
        proof {
            lemma_outcomes_keep_job_well_formed(before[i as int], update.attempt, 1, now_ms, update.progress, Seq::empty());
            if result is Ok {
                lemma_replace_keeps_well_formed(before, i as int, jobs@[i as int]@);
                assert(job_views(jobs@) =~= before.update(i as int, jobs@[i as int]@));
            } else {
                assert(job_views(jobs@) =~= before);
            }
        }
        self.jobs = jobs;
        result
    }

    /// Records the failure of a running attempt and clears its lease. Attempts
    /// below the cap return the job to the queue; the last one fails it.
    ///
    /// Refused with `LeaseLost` unless the attempt is the job's current one
    /// and its lease has not expired.
    pub fn fail_job(&mut self, update: FailureUpdate, now_ms: i64) -> (r: Result<(), StoreError>)
        ensures
            match table_failure(old(self)@, update.destination_uri@, update.attempt, update.progress, update.reason@, now_ms) {
                Ok((i, v)) => r is Ok && final(self)@ == old(self)@.update(i, v),
                Err(e) => r matches Err(x) && x@ == e && final(self)@ == old(self)@,
            },
            table_well_formed(final(self)@),
    {
        proof {
            use_type_invariant(&*self);
        }
        let i = match self.position(update.destination_uri.as_str()) {
            Some(i) => i,
            None => return Err(StoreError::NotFound),
        };
        let ghost before = self@;
        let mut jobs: Vec<Job> = Vec::new();
        std::mem::swap(&mut jobs, &mut self.jobs);
        let result = fail_attempt(&mut jobs[i], update.attempt, now_ms, update.progress, update.reason);
        proof {
            lemma_outcomes_keep_job_well_formed(before[i as int], update.attempt, 1, now_ms, update.progress, update.reason@);
            if result is Ok {
                lemma_replace_keeps_well_formed(before, i as int, jobs@[i as int]@);
                assert(job_views(jobs@) =~= before.update(i as int, jobs@[i as int]@));
            } else {
                assert(job_views(jobs@) =~= before);
            }
        }
        self.jobs = jobs;
        result
    }
}

/// Whether a job matches a listing's filters.
pub fn matches_query(job: &Job, query: &JobQuery) -> (r: bool)
    ensures
        r == query_matches(job@, *query),
{
    let creator_ok = match &query.creator {
        Some(c) => str_eq(job.creator.as_str(), c.as_str()),
        None => true,
    };
    let failed_ok = !query.failed_only || job.status == JobStatus::Failed;
    let ongoing_ok = !query.ongoing_only || job.status == JobStatus::Queuing || job.status
        == JobStatus::Running;
    let from_ok = match query.creation_timestamp_ms_from {
        Some(from) => job.creation_timestamp_ms >= from,
        None => true,
    };
    let to_ok = match query.creation_timestamp_ms_to {
        Some(to) => job.creation_timestamp_ms <= to,
        None => true,
    };
    creator_ok && failed_ok && ongoing_ok && from_ok && to_ok
}

/// Copies of the jobs at the given indices, in order.
fn copies_at(jobs: &Vec<Job>, picked: &Vec<usize>) -> (r: Vec<Job>)
    requires
        forall|k: int| 0 <= k < picked@.len() ==> picked@[k] < jobs@.len(),
    ensures
        job_views(r@) == jobs_at(job_views(jobs@), picked@),
{
    let mut r: Vec<Job> = Vec::new();
    let mut k: usize = 0;
    while k < picked.len()
        invariant
            k <= picked@.len(),
            forall|m: int| 0 <= m < picked@.len() ==> picked@[m] < jobs@.len(),
            r@.len() == k,
            forall|m: int| 0 <= m < k ==> r@[m]@ == jobs@[picked@[m] as int]@,
        decreases picked.len() - k,
    {
        r.push(jobs[picked[k]].duplicate());
        k = k + 1;
    }
    assert(job_views(r@) =~= jobs_at(job_views(jobs@), picked@));
    r
}

/// Indices picked in a strict order are distinct.
pub proof fn lemma_ordered_picks_distinct(
    jobs: Seq<JobView>,
    marked: Seq<bool>,
    field: JobOrderField,
    descending: bool,
    limit: nat,
    picked: Seq<usize>,
)
    requires
        is_first_in_order(jobs, marked, field, descending, limit, picked),
    ensures
        forall|k1: int, k2: int| 0 <= k1 < picked.len() && 0 <= k2 < picked.len() && k1 != k2 ==> picked[k1] != picked[k2],
{
    assert forall|k1: int, k2: int| 0 <= k1 < picked.len() && 0 <= k2 < picked.len() && k1 != k2 implies picked[k1] != picked[k2] by {
        if picked[k1] == picked[k2] {
            lemma_job_before_irreflexive(jobs[picked[k1] as int], field, descending);
            if k1 < k2 {
                assert(job_before(jobs[picked[k1] as int], jobs[picked[k2] as int], field, descending));
            } else {
                assert(job_before(jobs[picked[k2] as int], jobs[picked[k1] as int], field, descending));
            }
        }
    }
}

/// A claim keeps a selected job's destination and well-formedness.
pub proof fn lemma_claim_keeps_job_well_formed(job: JobView, now_ms: i64, expiry: i64)
    requires
        job_well_formed(job),
        claimable(job, now_ms),
    ensures
        job_well_formed(after_claim(job, now_ms, expiry)),
        after_claim(job, now_ms, expiry).destination_uri == job.destination_uri,
{
}

/// Applying a claim to distinct selected jobs keeps the table well formed.
pub proof fn lemma_claims_keep_table_well_formed(
    jobs: Seq<JobView>,
    picked: Seq<usize>,
    now_ms: i64,
    expiry: i64,
)
    requires
        table_well_formed(jobs),
        jobs.len() <= usize::MAX,
        forall|k: int| 0 <= k < picked.len() ==> picked[k] < jobs.len() && claimable(jobs[picked[k] as int], now_ms),
    ensures
        table_well_formed(claims_applied(jobs, picked, now_ms, expiry)),
{
    let applied = claims_applied(jobs, picked, now_ms, expiry);
    assert forall|i: int| 0 <= i < applied.len() implies job_well_formed(#[trigger] applied[i]) && applied[i].destination_uri == jobs[i].destination_uri by {
        let u = i as usize;
        if picked.contains(u) {
            let k = choose|k: int| 0 <= k < picked.len() && picked[k] == u;
            assert(picked[k] as int == i);
            lemma_claim_keeps_job_well_formed(jobs[i], now_ms, expiry);
        }
    }
}

/// Failing the final attempts whose lease expired keeps the table well
/// formed, and leaves no claimable job on an expired final attempt.
pub proof fn lemma_final_expiries_keep_table_well_formed(jobs: Seq<JobView>, now_ms: i64)
    requires
        table_well_formed(jobs),
    ensures
        table_well_formed(final_expiries_failed(jobs, now_ms)),
        forall|i: int|
            0 <= i < jobs.len() && #[trigger] claimable(final_expiries_failed(jobs, now_ms)[i], now_ms)
                ==> !expired_on_final_attempt(final_expiries_failed(jobs, now_ms)[i])
                && final_expiries_failed(jobs, now_ms)[i] == jobs[i],
{
    let swept = final_expiries_failed(jobs, now_ms);
    assert forall|i: int| 0 <= i < swept.len() implies job_well_formed(#[trigger] swept[i]) && swept[i].destination_uri == jobs[i].destination_uri by {
        if expires_on_final_attempt(jobs[i], now_ms) {
            lemma_claim_keeps_job_well_formed(jobs[i], now_ms, 0);
        }
    }
}

/// Leases are exclusive and attempts are capped: a claim at `now_ms` never
/// selects a job whose lease is still unexpired and leaves such a job as it
/// was, so no other worker is handed a job while its lease holds; and every
/// job of the table after the claim has at most the capped number of
/// attempts.
pub proof fn lemma_unexpired_lease_is_not_claimed(
    jobs: Seq<JobView>,
    now_ms: i64,
    expiry: i64,
    limit: nat,
    picked: Seq<usize>,
    i: int,
)
    requires
        table_well_formed(jobs),
        jobs.len() <= usize::MAX,
        is_first_in_order(
            final_expiries_failed(jobs, now_ms),
            claim_marks(final_expiries_failed(jobs, now_ms), now_ms),
            JobOrderField::CreationTimestamp,
            false,
            limit,
            picked,
        ),
        0 <= i < jobs.len(),
        jobs[i].lease_expiration_timestamp_ms matches Some(e) && e > now_ms,
    ensures
        !picked.contains(i as usize),
        claims_applied(final_expiries_failed(jobs, now_ms), picked, now_ms, expiry)[i] == jobs[i],
        forall|j: int|
            0 <= j < jobs.len() ==> #[trigger] claims_applied(final_expiries_failed(jobs, now_ms), picked, now_ms, expiry)[j].attempt
                <= crate::job::MAX_JOB_ATTEMPTS,
{
    let swept = final_expiries_failed(jobs, now_ms);
    lemma_final_expiries_keep_table_well_formed(jobs, now_ms);
    assert(job_well_formed(jobs[i]));
    assert(!claimable(jobs[i], now_ms));
    assert(swept[i] == jobs[i]);
    if picked.contains(i as usize) {
        let k = choose|k: int| 0 <= k < picked.len() && picked[k] == i as usize;
        assert(claim_marks(swept, now_ms)[picked[k] as int]);
    }
    lemma_claims_keep_table_well_formed(swept, picked, now_ms, expiry);
    let applied = claims_applied(swept, picked, now_ms, expiry);
    assert forall|j: int| 0 <= j < jobs.len() implies #[trigger] applied[j].attempt <= crate::job::MAX_JOB_ATTEMPTS by {
        assert(job_well_formed(applied[j]));
    }
}

/// Fails every running job whose lease expired on its final attempt.
fn fail_final_expiries(jobs: &mut Vec<Job>, now_ms: i64)
    ensures
        job_views(final(jobs)@) == final_expiries_failed(job_views(old(jobs)@), now_ms),
{
    let ghost before = job_views(jobs@);
    let mut i: usize = 0;
    while i < jobs.len()
        invariant
            i <= jobs@.len(),
            jobs@.len() == before.len(),
            forall|j: int| 0 <= j < i ==> jobs@[j]@ == final_expiries_failed(before, now_ms)[j],
            forall|j: int| i <= j < jobs@.len() ==> jobs@[j]@ == before[j],
        decreases jobs.len() - i,
    {
        if is_claimable(&jobs[i], now_ms) && jobs[i].status == JobStatus::Running && jobs[i].attempt >= crate::job::MAX_JOB_ATTEMPTS {
            let ghost current = jobs@;
            claim_selected(&mut jobs[i], now_ms, 0);
            proof {
                assert forall|j: int| 0 <= j < jobs@.len() && j != i implies jobs@[j] == current[j] by {}
            }
        }
        i = i + 1;
    }
    assert(job_views(jobs@) =~= final_expiries_failed(before, now_ms));
}

impl JobTable {
    /// Lists at most `query.limit` jobs matching the query's filters, in the
    /// requested order with the destination URI breaking ties.
    ///
    /// A zero limit lists nothing. Asking for failed and ongoing jobs at once,
    /// or giving an inverted creation-time range, is refused.
    pub fn query_jobs(&self, query: &JobQuery) -> (r: Result<Vec<Job>, StoreError>)
        ensures
            query.limit == 0 ==> (r matches Ok(v) && v@.len() == 0),
            query.limit > 0 ==> match query_refusal(*query) {
                Some(e) => r matches Err(x) && x@ == e,
                None => r matches Ok(v) && exists|picked: Seq<usize>|
                    #[trigger] is_first_in_order(
                        self@,
                        query_marks(self@, *query),
                        query.order_by,
                        query.descending,
                        query.limit as nat,
                        picked,
                    ) && job_views(v@) == jobs_at(self@, picked),
            },
    {
        proof {
            use_type_invariant(self);
        }
        if query.limit == 0 {
            return Ok(Vec::new());
        }
        if query.failed_only && query.ongoing_only {
            return Err(StoreError::InvalidInput(String::from_str("failed-only and ongoing-only filters are mutually exclusive")));
        }
        if let (Some(from), Some(to)) = (query.creation_timestamp_ms_from, query.creation_timestamp_ms_to) {
            if from > to {
                return Err(StoreError::InvalidInput(String::from_str("creation timestamp lower bound exceeds upper bound")));
            }
        }
        if query.limit as u64 > i64::MAX as u64 {
            return Err(StoreError::InvalidInput(String::from_str("out of range integral type conversion attempted")));
        }
        let mut marks: Vec<bool> = Vec::new();
        let mut i: usize = 0;
        while i < self.jobs.len()
            invariant
                i <= self.jobs@.len(),
                marks@.len() == i,
                self@ == job_views(self.jobs@),
                forall|j: int| 0 <= j < i ==> marks@[j] == query_matches(self@[j], *query),
            decreases self.jobs.len() - i,
        {
            marks.push(matches_query(&self.jobs[i], query));
            i = i + 1;
        }
        assert(marks@ =~= query_marks(self@, *query));
        let picked = first_in_order(&self.jobs, &marks, query.order_by, query.descending, query.limit);
        Ok(copies_at(&self.jobs, &picked))
    }

    /// Lists at most `limit` jobs, newest first, with the destination URI,
    /// descending, breaking ties. A zero limit lists nothing.
    pub fn list_jobs(&self, limit: usize) -> (r: Result<Vec<Job>, StoreError>)
        ensures
            limit == 0 ==> (r matches Ok(v) && v@.len() == 0),
            limit > i64::MAX ==> (r matches Err(x) && x@ == StoreErrorView::InvalidInput(counter_range_message())),
            0 < limit <= i64::MAX ==> (r matches Ok(v) && exists|picked: Seq<usize>|
                #[trigger] is_first_in_order(
                    self@,
                    all_marks(self@),
                    JobOrderField::CreationTimestamp,
                    true,
                    limit as nat,
                    picked,
                ) && job_views(v@) == jobs_at(self@, picked)),
    {
        proof {
            use_type_invariant(self);
        }
        if limit == 0 {
            return Ok(Vec::new());
        }
        if limit as u64 > i64::MAX as u64 {
            return Err(StoreError::InvalidInput(String::from_str("out of range integral type conversion attempted")));
        }
        let mut marks: Vec<bool> = Vec::new();
        let mut i: usize = 0;
        while i < self.jobs.len()
            invariant
                i <= self.jobs@.len(),
                marks@.len() == i,
                forall|j: int| 0 <= j < i ==> marks@[j],
            decreases self.jobs.len() - i,
        {
            marks.push(true);
            i = i + 1;
        }
        assert(marks@ =~= all_marks(self@));
        let picked = first_in_order(&self.jobs, &marks, JobOrderField::CreationTimestamp, true, limit);
        Ok(copies_at(&self.jobs, &picked))
    }

    /// Atomically claims at most `limit` jobs: queuing jobs with attempts
    /// left and running jobs whose lease expired, oldest first with the
    /// destination URI breaking ties.
    ///
    /// First every running job whose lease expired on its final attempt
    /// fails; these failures do not count against `limit`. Then each of the
    /// first `limit` claimable jobs starts its next attempt with a lease
    /// expiring `convert_lease_duration_ms` after `now_ms`, an abandoned
    /// running attempt being recorded as an error, and is handed out. A zero
    /// limit or a non-positive duration claims nothing and changes nothing.
    pub fn claim_jobs(&mut self, limit: usize, convert_lease_duration_ms: i64, now_ms: i64) -> (r:
        Result<Vec<ClaimedJob>, StoreError>)
        ensures
            (limit == 0 || convert_lease_duration_ms <= 0) ==> (r matches Ok(v) && v@.len() == 0
                && final(self)@ == old(self)@),
            limit > 0 && convert_lease_duration_ms > 0 && lease_expiry(now_ms, convert_lease_duration_ms) is None
                ==> (r matches Err(x) && x@ == StoreErrorView::InvalidInput(lease_overflow_message())
                && final(self)@ == old(self)@),
            limit > i64::MAX && convert_lease_duration_ms > 0 && lease_expiry(now_ms, convert_lease_duration_ms) is Some
                ==> (r matches Err(x) && x@ == StoreErrorView::InvalidInput(counter_range_message())
                && final(self)@ == old(self)@),
            0 < limit <= i64::MAX && convert_lease_duration_ms > 0 ==> (lease_expiry(now_ms, convert_lease_duration_ms) matches Some(expiry) ==> (r matches Ok(v)
                && exists|picked: Seq<usize>|
                #[trigger] is_first_in_order(
                    final_expiries_failed(old(self)@, now_ms),
                    claim_marks(final_expiries_failed(old(self)@, now_ms), now_ms),
                    JobOrderField::CreationTimestamp,
                    false,
                    limit as nat,
                    picked,
                ) && final(self)@ == claims_applied(final_expiries_failed(old(self)@, now_ms), picked, now_ms, expiry)
                    && claimed_views(v@) == claimed_jobs(final_expiries_failed(old(self)@, now_ms), picked, now_ms, expiry))),
            table_well_formed(final(self)@),
    {
        proof {
            use_type_invariant(&*self);
        }
        if limit == 0 || convert_lease_duration_ms <= 0 {
            return Ok(Vec::new());
        }
        let expiry = checked_expiry(now_ms, convert_lease_duration_ms)?;
        if limit as u64 > i64::MAX as u64 {
            return Err(StoreError::InvalidInput(String::from_str("out of range integral type conversion attempted")));
        }
        let ghost before = self@;
        let mut jobs: Vec<Job> = Vec::new();
        std::mem::swap(&mut jobs, &mut self.jobs);
        fail_final_expiries(&mut jobs, now_ms);
        let ghost swept = final_expiries_failed(before, now_ms);
        proof {
            lemma_final_expiries_keep_table_well_formed(before, now_ms);
        }
        let mut marks: Vec<bool> = Vec::new();
        let mut i: usize = 0;
        while i < jobs.len()
            invariant
                i <= jobs@.len(),
                marks@.len() == i,
                swept == job_views(jobs@),
                forall|j: int| 0 <= j < i ==> marks@[j] == claimable(swept[j], now_ms),
            decreases jobs.len() - i,
        {
            marks.push(is_claimable(&jobs[i], now_ms));
            i = i + 1;
        }
        assert(marks@ =~= claim_marks(swept, now_ms));
        let picked = first_in_order(&jobs, &marks, JobOrderField::CreationTimestamp, false, limit);
        proof {
            lemma_ordered_picks_distinct(swept, marks@, JobOrderField::CreationTimestamp, false, limit as nat, picked@);
        }
        let mut claimed: Vec<ClaimedJob> = Vec::new();
        let mut k: usize = 0;
        assert(claims_applied(swept, picked@.take(0), now_ms, expiry) =~= swept);
        assert(claimed_jobs(swept, picked@.take(0), now_ms, expiry) =~= Seq::<JobView>::empty());
        while k < picked.len()
            invariant
                k <= picked@.len(),
                swept.len() == jobs@.len(),
                swept.len() == jobs.len(),
                table_well_formed(swept),
                forall|m: int| 0 <= m < picked@.len() ==> picked@[m] < swept.len() && claimable(swept[picked@[m] as int], now_ms),
                forall|m: int| 0 <= m < swept.len() && #[trigger] claimable(swept[m], now_ms) ==> !expired_on_final_attempt(swept[m]),
                forall|k1: int, k2: int| 0 <= k1 < picked@.len() && 0 <= k2 < picked@.len() && k1 != k2 ==> picked@[k1] != picked@[k2],
                job_views(jobs@) == claims_applied(swept, picked@.take(k as int), now_ms, expiry),
                claimed_views(claimed@) == claimed_jobs(swept, picked@.take(k as int), now_ms, expiry),
            decreases picked.len() - k,
        {
            let idx = picked[k];
            let ghost current = job_views(jobs@);
            proof {
                assert(!picked@.take(k as int).contains(idx)) by {
                    if picked@.take(k as int).contains(idx) {
                        let m = choose|m: int| 0 <= m < k && picked@.take(k as int)[m] == idx;
                        assert(picked@[m] == picked@[k as int]);
                    }
                }
                assert(current[idx as int] == swept[idx as int]);
                assert(claimable(swept[idx as int], now_ms));
            }
            let handed = claim_selected(&mut jobs[idx], now_ms, expiry);
            proof {
                assert(job_views(jobs@) =~= current.update(idx as int, jobs@[idx as int]@));
            }
            if handed {
                let job = jobs[idx].duplicate();
                claimed.push(ClaimedJob { job });
            }
            proof {
                let taken = picked@.take(k + 1);
                let earlier = picked@.take(k as int);
                assert(taken.drop_last() =~= earlier);
                assert(taken.last() == idx);
                assert forall|i: int| 0 <= i < swept.len() implies #[trigger] taken.contains(i as usize) == (earlier.contains(i as usize) || i == idx as int) by {
                    let u = i as usize;
                    assert(u as int == i);
                    if taken.contains(u) {
                        let m = choose|m: int| 0 <= m < taken.len() && taken[m] == u;
                        if m < k {
                            assert(earlier[m] == u);
                        } else {
                            assert(taken[m] == idx);
                        }
                    }
                    if earlier.contains(u) {
                        let m = choose|m: int| 0 <= m < earlier.len() && earlier[m] == u;
                        assert(taken[m] == u);
                    }
                    if i == idx as int {
                        assert(taken[k as int] == idx);
                    }
                }
                assert(job_views(jobs@) =~= claims_applied(swept, taken, now_ms, expiry));
                assert(handed);
                assert(claimed_jobs(swept, taken, now_ms, expiry) =~= claimed_jobs(swept, earlier, now_ms, expiry).push(
                    after_claim(swept[idx as int], now_ms, expiry),
                ));
                assert(claimed_views(claimed@) =~= claimed_jobs(swept, taken, now_ms, expiry));
            }
            k = k + 1;
        }
        proof {
            assert(picked@.take(k as int) =~= picked@);
            lemma_claims_keep_table_well_formed(swept, picked@, now_ms, expiry);
        }
        self.jobs = jobs;
        Ok(claimed)
    }
}

/// What each listing filter keeps, taken alone: no filter keeps every job;
/// ongoing-only keeps exactly the queuing and running jobs; failed-only
/// keeps exactly the failed jobs; a creator keeps exactly that creator's
/// jobs; and a creation-time range keeps exactly the jobs created within it,
/// bounds included.
pub proof fn lemma_listing_filters_keep_what_they_name(job: JobView, query: JobQuery)
    ensures
        query.creator is None && !query.failed_only && !query.ongoing_only && query.creation_timestamp_ms_from is None
            && query.creation_timestamp_ms_to is None ==> query_matches(job, query),
        query.creator is None && !query.failed_only && query.ongoing_only && query.creation_timestamp_ms_from is None
            && query.creation_timestamp_ms_to is None ==> (query_matches(job, query) <==> (job.status
            == JobStatus::Queuing || job.status == JobStatus::Running)),
        query.creator is None && query.failed_only && !query.ongoing_only && query.creation_timestamp_ms_from is None
            && query.creation_timestamp_ms_to is None ==> (query_matches(job, query) <==> job.status
            == JobStatus::Failed),
        query.creator is Some && !query.failed_only && !query.ongoing_only && query.creation_timestamp_ms_from is None
            && query.creation_timestamp_ms_to is None ==> (query_matches(job, query) <==> job.creator
            == query.creator->0@),
        query.creator is None && !query.failed_only && !query.ongoing_only && query.creation_timestamp_ms_from is Some
            && query.creation_timestamp_ms_to is Some ==> (query_matches(job, query) <==> (
        query.creation_timestamp_ms_from->0 <= job.creation_timestamp_ms
            <= query.creation_timestamp_ms_to->0)),
        query.ongoing_only && (job.status == JobStatus::Succeeded || job.status == JobStatus::Failed)
            ==> !query_matches(job, query),
{
}

/// Creating a job for a destination that has none succeeds unless it is a
/// move job from a Hugging Face source: the table grows by one queuing job
/// for that destination, with no attempt, lease or error yet, and every
/// earlier job stays as it was. A move job from a Hugging Face source is
/// refused as invalid input, and a taken destination as a conflict.
pub proof fn lemma_creating_a_job_appends_it(jobs: Seq<JobView>, new_job: NewJob)
    ensures
        lookup(jobs, new_job.destination@.uri) is None && !(new_job.kind == JobKind::Move
            && new_job.source@.kind == LocationKind::HuggingFace) ==> ({
            &&& creation_outcome(jobs, new_job) matches Ok(after)
            &&& after.len() == jobs.len() + 1
            &&& after.subrange(0, jobs.len() as int) == jobs
            &&& after.last().destination_uri == new_job.destination@.uri
            &&& after.last().source_uri == new_job.source@.uri
            &&& after.last().creator == new_job.creator@
            &&& after.last().kind == new_job.kind
            &&& after.last().status == JobStatus::Queuing
            &&& after.last().attempt == 0
            &&& after.last().lease_expiration_timestamp_ms is None
            &&& after.last().error_reasons.len() == 0
            &&& after.last().creation_timestamp_ms == new_job.creation_timestamp_ms
        }),
        new_job.kind == JobKind::Move && new_job.source@.kind == LocationKind::HuggingFace ==> creation_outcome(
            jobs,
            new_job,
        ) matches Err(StoreErrorView::InvalidInput(_)),
        !(new_job.kind == JobKind::Move && new_job.source@.kind == LocationKind::HuggingFace) && lookup(
            jobs,
            new_job.destination@.uri,
        ) is Some ==> creation_outcome(jobs, new_job) matches Err(StoreErrorView::Conflict(_)),
        new_job.kind == JobKind::Copy ==> !(creation_outcome(jobs, new_job) matches Err(StoreErrorView::InvalidInput(_))),
{
    if lookup(jobs, new_job.destination@.uri) is None && !(new_job.kind == JobKind::Move
        && new_job.source@.kind == LocationKind::HuggingFace) {
        let after = creation_outcome(jobs, new_job)->Ok_0;
        assert(after.subrange(0, jobs.len() as int) =~= jobs);
    }
}

/// A renewal the store accepts is applied to the job stored for the
/// update's destination: that job, returned and stored, now carries the
/// update's progress and a lease expiring `duration_ms` after `now_ms`, and
/// stays running under the same attempt. A checkpoint likewise stores the
/// progress it carries.
pub proof fn lemma_accepted_renewal_stores_progress(
    jobs: Seq<JobView>,
    destination: Seq<char>,
    attempt: u32,
    duration_ms: i64,
    progress: JobProgress,
    now_ms: i64,
)
    ensures
        table_renewal(jobs, destination, attempt, duration_ms, progress, now_ms) matches Ok((i, v)) ==> {
            &&& 0 <= i < jobs.len()
            &&& jobs[i].destination_uri == destination
            &&& v.destination_uri == destination
            &&& v.progress == progress
            &&& v.lease_expiration_timestamp_ms == Some((now_ms + duration_ms) as i64)
            &&& v.status == JobStatus::Running
            &&& v.attempt == attempt
            &&& jobs.update(i, v)[i].progress == progress
        },
        table_checkpoint(jobs, destination, attempt, progress, now_ms) matches Ok((i, v)) ==> {
            &&& 0 <= i < jobs.len()
            &&& jobs[i].destination_uri == destination
            &&& v.progress == progress
            &&& v.attempt == attempt
        },
{
    lemma_position_from(jobs, destination, 0);
    crate::lifecycle::lemma_accepted_updates_record_progress(
        jobs[position_of(jobs, destination)->0],
        attempt,
        duration_ms,
        now_ms,
        progress,
        Seq::empty(),
    );
}

/// A created job can be read back by its destination URI.
pub proof fn lemma_created_job_is_found(jobs: Seq<JobView>, new_job: NewJob)
    requires
        table_well_formed(jobs),
        creation_outcome(jobs, new_job) is Ok,
    ensures
        lookup(creation_outcome(jobs, new_job)->Ok_0, new_job.destination@.uri) == Some(created_job(new_job)),
{
    let d = new_job.destination@.uri;
    let t = jobs.push(created_job(new_job));
    lemma_position_from(jobs, d, 0);
    lemma_position_from(t, d, 0);
    assert(t[jobs.len() as int].destination_uri == d);
    assert(position_of(t, d) is Some);
    if let Some(i) = position_of(t, d) {
        assert(i == jobs.len()) by {
            if i < jobs.len() {
                assert(t[i] == jobs[i]);
            }
        }
    }
}

/// The destination URI identifies a job: creating a second job for a
/// destination that already has one is refused with a conflict.
pub proof fn lemma_duplicate_destination_conflicts(jobs: Seq<JobView>, first: NewJob, second: NewJob)
    requires
        table_well_formed(jobs),
        creation_outcome(jobs, first) is Ok,
        second.destination@.uri == first.destination@.uri,
        !(second.kind == JobKind::Move && second.source@.kind == LocationKind::HuggingFace),
    ensures
        creation_outcome(creation_outcome(jobs, first)->Ok_0, second) == Err::<Seq<JobView>, StoreErrorView>(
            StoreErrorView::Conflict(duplicate_destination_message()),
        ),
{
    lemma_created_job_is_found(jobs, first);
}

/// A lookup finds the job with the requested destination.
pub proof fn lemma_lookup_finds_destination(jobs: Seq<JobView>, destination: Seq<char>)
    ensures
        lookup(jobs, destination) matches Some(job) ==> job.destination_uri == destination,
        lookup(jobs, destination) is None ==> forall|k: int| 0 <= k < jobs.len() ==> jobs[k].destination_uri != destination,
{
    lemma_position_from(jobs, destination, 0);
}

} // verus!
