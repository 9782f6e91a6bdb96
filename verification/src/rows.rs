//! Jobs as database rows: the signed columns a store writes, and decoding a
//! stored row back into a job.

use vstd::prelude::*;
use vstd::string::*;
use crate::job::{
    BlobColumnSpec, IndexSpec, Job, JobError, JobKind, JobProgress, JobStatus, JobView,
    copy_errors, copy_indices, errors_view, indices_view, invalid_value_message,
    job_kind_from_name, job_kind_name, job_status_from_name, job_status_name, strings_view,
    lemma_job_kind_name_round_trip, lemma_job_status_name_round_trip,
};
use crate::lifecycle::{StoreError, StoreErrorView, counter_range_message};
use crate::text::{chars_of, concat3};

verus! {

/// Reads a stored signed count as unsigned; a negative value is a database
/// fault.
pub fn i64_to_u64(value: i64) -> (r: Result<u64, StoreError>)
    ensures
        value >= 0 ==> r == Ok::<u64, StoreError>(value as u64),
        value < 0 ==> (r matches Err(e) && e@ == StoreErrorView::Database(counter_range_message())),
{
    if value < 0 {
        Err(StoreError::Database(String::from_str("out of range integral type conversion attempted")))
    } else {
        Ok(value as u64)
    }
}

/// Reads a stored attempt number; a value outside `u32` is a database fault.
pub fn i64_to_u32(value: i64) -> (r: Result<u32, StoreError>)
    ensures
        0 <= value <= u32::MAX ==> r == Ok::<u32, StoreError>(value as u32),
        !(0 <= value <= u32::MAX) ==> (r matches Err(e) && e@ == StoreErrorView::Database(
            counter_range_message(),
        )),
{
    if value < 0 || value > u32::MAX as i64 {
        Err(StoreError::Database(String::from_str("out of range integral type conversion attempted")))
    } else {
        Ok(value as u32)
    }
}

/// Writes a count as a signed column; a count beyond `i64` is invalid input.
pub fn usize_to_i64(value: usize) -> (r: Result<i64, StoreError>)
    ensures
        value <= i64::MAX ==> r == Ok::<i64, StoreError>(value as i64),
        value > i64::MAX ==> (r matches Err(e) && e@ == StoreErrorView::InvalidInput(counter_range_message())),
{
    if value as u64 > i64::MAX as u64 {
        Err(StoreError::InvalidInput(String::from_str("out of range integral type conversion attempted")))
    } else {
        Ok(value as i64)
    }
}

/// Writes a counter as a signed column; a counter beyond `i64` is invalid
/// input.
pub fn u64_as_i64(value: u64) -> (r: Result<i64, StoreError>)
    ensures
        value <= i64::MAX ==> r == Ok::<i64, StoreError>(value as i64),
        value > i64::MAX ==> (r matches Err(e) && e@ == StoreErrorView::InvalidInput(counter_range_message())),
{
    if value > i64::MAX as u64 {
        Err(StoreError::InvalidInput(String::from_str("out of range integral type conversion attempted")))
    } else {
        Ok(value as i64)
    }
}

/// Progress counters as signed columns.
#[derive(Debug, Clone, Copy, PartialEq, Eq, Structural)]
pub struct StoredProgress {
    pub rows_read: i64,
    pub rows_written: i64,
    pub rows_total: i64,
    pub rows_missing_blobs: i64,
}

/// Every counter fits a signed column.
pub open spec fn progress_fits_columns(progress: JobProgress) -> bool {
    &&& progress.rows_read <= i64::MAX
    &&& progress.rows_written <= i64::MAX
    &&& progress.rows_total <= i64::MAX
    &&& progress.rows_missing_blobs <= i64::MAX
}

/// No stored counter is negative.
pub open spec fn stored_progress_valid(stored: StoredProgress) -> bool {
    &&& stored.rows_read >= 0
    &&& stored.rows_written >= 0
    &&& stored.rows_total >= 0
    &&& stored.rows_missing_blobs >= 0
}

/// Converts progress counters to signed columns.
pub fn progress_as_i64(progress: JobProgress) -> (r: Result<StoredProgress, StoreError>)
    ensures
        progress_fits_columns(progress) ==> r == Ok::<StoredProgress, StoreError>(
            StoredProgress {
                rows_read: progress.rows_read as i64,
                rows_written: progress.rows_written as i64,
                rows_total: progress.rows_total as i64,
                rows_missing_blobs: progress.rows_missing_blobs as i64,
            },
        ),
        !progress_fits_columns(progress) ==> (r matches Err(e) && e@ == StoreErrorView::InvalidInput(
            counter_range_message(),
        )),
{
    Ok(
        StoredProgress {
            rows_read: u64_as_i64(progress.rows_read)?,
            rows_written: u64_as_i64(progress.rows_written)?,
            rows_total: u64_as_i64(progress.rows_total)?,
            rows_missing_blobs: u64_as_i64(progress.rows_missing_blobs)?,
        },
    )
}

/// Reads progress counters from signed columns.
pub fn progress_from_i64(stored: StoredProgress) -> (r: Result<JobProgress, StoreError>)
    ensures
        stored_progress_valid(stored) ==> r == Ok::<JobProgress, StoreError>(
            JobProgress {
                rows_read: stored.rows_read as u64,
                rows_written: stored.rows_written as u64,
                rows_total: stored.rows_total as u64,
                rows_missing_blobs: stored.rows_missing_blobs as u64,
            },
        ),
        !stored_progress_valid(stored) ==> (r matches Err(e) && e@ == StoreErrorView::Database(
            counter_range_message(),
        )),
{
    Ok(
        JobProgress {
            rows_read: i64_to_u64(stored.rows_read)?,
            rows_written: i64_to_u64(stored.rows_written)?,
            rows_total: i64_to_u64(stored.rows_total)?,
            rows_missing_blobs: i64_to_u64(stored.rows_missing_blobs)?,
        },
    )
}

/// Progress written to signed columns reads back unchanged.
pub proof fn lemma_progress_round_trip(progress: JobProgress)
    requires
        progress_fits_columns(progress),
    ensures
        stored_progress_valid(
            StoredProgress {
                rows_read: progress.rows_read as i64,
                rows_written: progress.rows_written as i64,
                rows_total: progress.rows_total as i64,
                rows_missing_blobs: progress.rows_missing_blobs as i64,
            },
        ),
        (JobProgress {
            rows_read: (progress.rows_read as i64) as u64,
            rows_written: (progress.rows_written as i64) as u64,
            rows_total: (progress.rows_total as i64) as u64,
            rows_missing_blobs: (progress.rows_missing_blobs as i64) as u64,
        }) == progress,
{
}

/// The columns of one stored job. The JSON columns are given as their
/// decoder left them: the decoded values, or the decoder's message.
#[derive(Debug)]
pub struct JobRow {
    pub creator: String,
    pub kind: String,
    pub source_uri: String,
    pub destination_uri: String,
    pub blob_columns: Result<Vec<String>, String>,
    pub indices: Result<Vec<IndexSpec>, String>,
    pub status: String,
    pub creation_timestamp_ms: i64,
    pub update_timestamp_ms: i64,
    pub attempt: i64,
    pub error_reasons: Result<Vec<JobError>, String>,
    pub lease_expiration_timestamp_ms: Option<i64>,
    pub progress: StoredProgress,
}

/// A stored attempt number fits `u32`.
pub open spec fn attempt_fits(attempt: i64) -> bool {
    0 <= attempt <= u32::MAX
}

/// Why a stored row is not a job, in the order the columns are read: the
/// error history, the kind, the blob columns, the indices, the status, the
/// attempt, and the progress counters.
pub open spec fn row_refusal(row: JobRow) -> Option<Seq<char>> {
    match row.error_reasons {
        Err(message) => Some(message@),
        Ok(_) => if job_kind_from_name(row.kind@) is None {
            Some(invalid_value_message("JobKind"@, row.kind@))
        } else {
            match row.blob_columns {
                Err(message) => Some(message@),
                Ok(_) => match row.indices {
                    Err(message) => Some(message@),
                    Ok(_) => if job_status_from_name(row.status@) is None {
                        Some(invalid_value_message("JobStatus"@, row.status@))
                    } else if !attempt_fits(row.attempt) {
                        Some(counter_range_message())
                    } else if !stored_progress_valid(row.progress) {
                        Some(counter_range_message())
                    } else {
                        None
                    },
                },
            }
        },
    }
}

/// `job` is the job a valid stored row holds.
pub open spec fn row_decoded(row: JobRow, job: JobView) -> bool {
    &&& job.creator == row.creator@
    &&& Some(job.kind) == job_kind_from_name(row.kind@)
    &&& job.source_uri == row.source_uri@
    &&& job.destination_uri == row.destination_uri@
    &&& row.blob_columns matches Ok(blobs) && job.blob_columns == strings_view(blobs@)
    &&& row.indices matches Ok(indices) && job.indices == indices_view(indices@)
    &&& Some(job.status) == job_status_from_name(row.status@)
    &&& job.creation_timestamp_ms == row.creation_timestamp_ms
    &&& job.update_timestamp_ms == row.update_timestamp_ms
    &&& job.attempt == row.attempt
    &&& row.error_reasons matches Ok(errors) && job.error_reasons == errors_view(errors@)
    &&& job.lease_expiration_timestamp_ms == row.lease_expiration_timestamp_ms
    &&& job.progress == (JobProgress {
        rows_read: row.progress.rows_read as u64,
        rows_written: row.progress.rows_written as u64,
        rows_total: row.progress.rows_total as u64,
        rows_missing_blobs: row.progress.rows_missing_blobs as u64,
    })
}

fn database_fault(message: String) -> (r: StoreError)
    ensures
        r@ == StoreErrorView::Database(message@),
{
    StoreError::Database(message)
}

/// Decodes a stored row into a job, failing with a database fault at the
/// first column, in reading order, that holds no job's value.
pub fn job_from_row(row: JobRow) -> (r: Result<Job, StoreError>)
    ensures
        match row_refusal(row) {
            Some(message) => r matches Err(e) && e@ == StoreErrorView::Database(message),
            None => r matches Ok(job) && row_decoded(row, job@),
        },
{
    let error_reasons = match row.error_reasons {
        Ok(errors) => errors,
        Err(message) => {
            return Err(database_fault(message));
        },
    };
    let kind = match JobKind::from_name(row.kind.as_str()) {
        Ok(k) => k,
        Err(message) => {
            return Err(database_fault(message));
        },
    };
    let blob_names = match row.blob_columns {
        Ok(blobs) => blobs,
        Err(message) => {
            return Err(database_fault(message));
        },
    };
    let indices = match row.indices {
        Ok(indices) => indices,
        Err(message) => {
            return Err(database_fault(message));
        },
    };
    let status = match JobStatus::from_name(row.status.as_str()) {
        Ok(s) => s,
        Err(message) => {
            return Err(database_fault(message));
        },
    };
    let attempt = i64_to_u32(row.attempt)?;
    let progress = progress_from_i64(row.progress)?;
    let mut blob_columns: Vec<BlobColumnSpec> = Vec::new();
    let mut i: usize = 0;
    while i < blob_names.len()
        invariant
            i <= blob_names@.len(),
            crate::job::blob_columns_view(blob_columns@) == strings_view(blob_names@).subrange(0, i as int),
        decreases blob_names.len() - i,
    {
        let ghost before = blob_columns@;
        blob_columns.push(BlobColumnSpec { column: blob_names[i].clone() });
        proof {
            assert(crate::job::blob_columns_view(blob_columns@) =~= crate::job::blob_columns_view(
                before,
            ).push(blob_names@[i as int]@));
            assert(strings_view(blob_names@).subrange(0, i + 1) =~= strings_view(blob_names@).subrange(0, i as int).push(
                blob_names@[i as int]@,
            ));
        }
        i = i + 1;
    }
    assert(strings_view(blob_names@).subrange(0, i as int) =~= strings_view(blob_names@));
    let job = Job {
        creator: row.creator,
        kind,
        source_uri: row.source_uri,
        destination_uri: row.destination_uri,
        blob_columns,
        indices,
        status,
        creation_timestamp_ms: row.creation_timestamp_ms,
        update_timestamp_ms: row.update_timestamp_ms,
        attempt,
        error_reasons,
        lease_expiration_timestamp_ms: row.lease_expiration_timestamp_ms,
        progress,
    };
    proof {
        assert(job@.indices =~= indices_view(job.indices@));
        assert(job@.error_reasons =~= errors_view(job.error_reasons@));
    }
    Ok(job)
}

/// `row` stores `job`: names for the kind and status, the JSON columns
/// decoded, and signed columns for the numbers.
pub open spec fn row_encodes(job: JobView, row: JobRow) -> bool {
    &&& row.creator@ == job.creator
    &&& row.kind@ == job_kind_name(job.kind)
    &&& row.source_uri@ == job.source_uri
    &&& row.destination_uri@ == job.destination_uri
    &&& row.blob_columns matches Ok(blobs) && strings_view(blobs@) == job.blob_columns
    &&& row.indices matches Ok(indices) && indices_view(indices@) == job.indices
    &&& row.status@ == job_status_name(job.status)
    &&& row.creation_timestamp_ms == job.creation_timestamp_ms
    &&& row.update_timestamp_ms == job.update_timestamp_ms
    &&& row.attempt == job.attempt
    &&& row.error_reasons matches Ok(errors) && errors_view(errors@) == job.error_reasons
    &&& row.lease_expiration_timestamp_ms == job.lease_expiration_timestamp_ms
    &&& row.progress == (StoredProgress {
        rows_read: job.progress.rows_read as i64,
        rows_written: job.progress.rows_written as i64,
        rows_total: job.progress.rows_total as i64,
        rows_missing_blobs: job.progress.rows_missing_blobs as i64,
    })
}

/// A stored job reads back as the same job: decoding the row that stores a
/// job succeeds and gives that job. (Only jobs whose counters fit the signed
/// columns are ever stored.)
pub proof fn lemma_row_round_trip(job: JobView, row: JobRow)
    requires
        row_encodes(job, row),
        progress_fits_columns(job.progress),
    ensures
        row_refusal(row) is None,
        row_decoded(row, job),
{
    lemma_job_kind_name_round_trip(job.kind);
    lemma_job_status_name_round_trip(job.status);
}

/// Encodes a job as a row for storage; a counter beyond the signed range is
/// invalid input.
pub fn job_to_row(job: &Job) -> (r: Result<JobRow, StoreError>)
    ensures
        progress_fits_columns(job.progress) ==> (r matches Ok(row) && row_encodes(job@, row)),
        !progress_fits_columns(job.progress) ==> (r matches Err(e) && e@ == StoreErrorView::InvalidInput(
            counter_range_message(),
        )),
{
    let progress = progress_as_i64(job.progress)?;
    let indices = copy_indices(&job.indices);
    let errors = copy_errors(&job.error_reasons);
    let mut blob_columns: Vec<String> = Vec::new();
    let mut b: usize = 0;
    while b < job.blob_columns.len()
        invariant
            b <= job.blob_columns@.len(),
            strings_view(blob_columns@) == job@.blob_columns.subrange(0, b as int),
        decreases job.blob_columns.len() - b,
    {
        let ghost before = blob_columns@;
        blob_columns.push(job.blob_columns[b].column.clone());
        proof {
            assert(strings_view(blob_columns@) =~= strings_view(before).push(job.blob_columns@[b as int].column@));
            assert(job@.blob_columns.subrange(0, b + 1) =~= job@.blob_columns.subrange(0, b as int).push(
                job@.blob_columns[b as int],
            ));
        }
        b = b + 1;
    }
    assert(job@.blob_columns.subrange(0, b as int) =~= job@.blob_columns);
    proof {
        assert(indices_view(job.indices@) =~= job@.indices);
        assert(errors_view(job.error_reasons@) =~= job@.error_reasons);
    }
    Ok(
        JobRow {
            creator: job.creator.clone(),
            kind: String::from_str(job.kind.as_str()),
            source_uri: job.source_uri.clone(),
            destination_uri: job.destination_uri.clone(),
            blob_columns: Ok(blob_columns),
            indices: Ok(indices),
            status: String::from_str(job.status.as_str()),
            creation_timestamp_ms: job.creation_timestamp_ms,
            update_timestamp_ms: job.update_timestamp_ms,
            attempt: job.attempt as i64,
            error_reasons: Ok(errors),
            lease_expiration_timestamp_ms: job.lease_expiration_timestamp_ms,
            progress,
        },
    )
}

/// A schema name is a lowercase SQL identifier: non-empty, not starting with
/// a digit, and made of `a-z`, `0-9`, and `_`.
pub open spec fn lowercase_identifier(name: Seq<char>) -> bool {
    &&& name.len() > 0
    &&& !('0' <= name[0] <= '9')
    &&& forall|i: int| 0 <= i < name.len() ==> ('a' <= #[trigger] name[i] <= 'z') || ('0' <= name[i] <= '9') || name[i] == '_'
}

/// Message for a schema name that is not a lowercase identifier.
pub open spec fn schema_name_message() -> Seq<char> {
    "schema name must be a lowercase SQL identifier"@
}

/// Quotes a schema name for SQL after checking it is a lowercase identifier.
pub fn quote_ident(name: &str) -> (r: Result<String, StoreError>)
    ensures
        lowercase_identifier(name@) ==> (r matches Ok(q) && q@ == "\""@ + name@ + "\""@),
        !lowercase_identifier(name@) ==> (r matches Err(e) && e@ == StoreErrorView::InvalidInput(
            schema_name_message(),
        )),
{
    let chars = chars_of(name);
    let mut valid = chars.len() > 0 && !('0' <= chars[0] && chars[0] <= '9');
    let mut i: usize = 0;
    while i < chars.len()
        invariant
            chars@ == name@,
            i <= chars@.len(),
            valid == (chars@.len() > 0 && !('0' <= chars@[0] <= '9') && forall|j: int|
                0 <= j < i ==> ('a' <= #[trigger] chars@[j] <= 'z') || ('0' <= chars@[j] <= '9')
                    || chars@[j] == '_'),
        decreases chars.len() - i,
    {
        let c = chars[i];
        if !(('a' <= c && c <= 'z') || ('0' <= c && c <= '9') || c == '_') {
            valid = false;
        }
        i = i + 1;
    }
    if valid {
        Ok(concat3("\"", name, "\""))
    } else {
        Err(StoreError::InvalidInput(String::from_str("schema name must be a lowercase SQL identifier")))
    }
}

} // verus!
