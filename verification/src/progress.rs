//! Row counters of a running conversion.

use vstd::prelude::*;
use crate::job::{JobProgress, zero_progress};

verus! {

/// `a + b`, or `u64::MAX` when the sum does not fit.
pub open spec fn saturating_sum(a: u64, b: int) -> u64 {
    if a + b > u64::MAX {
        u64::MAX
    } else {
        (a + b) as u64
    }
}

/// A row count as a counter increment: the count itself, or `u64::MAX` when
/// it does not fit.
pub open spec fn count_as_u64(count: usize) -> u64 {
    if count > u64::MAX {
        u64::MAX
    } else {
        count as u64
    }
}

/// Counts rows read, written, and dropped for missing blobs while one
/// conversion runs. Counters saturate instead of overflowing.
#[derive(Debug)]
pub struct ConversionProgress {
    rows_read: u64,
    rows_written: u64,
    rows_total: u64,
    rows_missing_blobs: u64,
}

impl View for ConversionProgress {
    type V = JobProgress;

    closed spec fn view(&self) -> JobProgress {
        JobProgress {
            rows_read: self.rows_read,
            rows_written: self.rows_written,
            rows_total: self.rows_total,
            rows_missing_blobs: self.rows_missing_blobs,
        }
    }
}

fn to_counter(count: usize) -> (r: u64)
    ensures
        r == count_as_u64(count),
{
    if count as u128 > u64::MAX as u128 {
        u64::MAX
    } else {
        count as u64
    }
}

impl ConversionProgress {
    /// All counters at zero.
    pub fn new() -> (r: ConversionProgress)
        ensures
            r@ == zero_progress(),
    {
        ConversionProgress { rows_read: 0, rows_written: 0, rows_total: 0, rows_missing_blobs: 0 }
    }

    /// The current counters.
    pub fn snapshot(&self) -> (r: JobProgress)
        ensures
            r == self@,
    {
        JobProgress {
            rows_read: self.rows_read,
            rows_written: self.rows_written,
            rows_total: self.rows_total,
            rows_missing_blobs: self.rows_missing_blobs,
        }
    }

    /// Adds `rows_read` rows to the read counter.
    pub fn record_read(&mut self, rows_read: usize)
        ensures
            final(self)@ == (JobProgress {
                rows_read: saturating_sum(old(self)@.rows_read, count_as_u64(rows_read) as int),
                ..old(self)@
            }),
    {
        let rows = to_counter(rows_read);
        self.rows_read = self.rows_read.saturating_add(rows);
    }

    /// Sets the written counter to the writer's running total.
    pub fn record_rows_written_total(&mut self, rows_written: u64)
        ensures
            final(self)@ == (JobProgress { rows_written, ..old(self)@ }),
    {
        self.rows_written = rows_written;
    }

    /// Adds `rows` rows to the counter of rows dropped for missing blobs.
    pub fn record_missing_blobs(&mut self, rows: usize)
        ensures
            final(self)@ == (JobProgress {
                rows_missing_blobs: saturating_sum(old(self)@.rows_missing_blobs, count_as_u64(rows) as int),
                ..old(self)@
            }),
    {
        let rows = to_counter(rows);
        self.rows_missing_blobs = self.rows_missing_blobs.saturating_add(rows);
    }

    /// Marks the source as fully read: the total becomes the rows read.
    pub fn finish(&mut self)
        ensures
            final(self)@ == (JobProgress { rows_total: old(self)@.rows_read, ..old(self)@ }),
    {
        self.rows_total = self.rows_read;
    }
}

impl Default for ConversionProgress {
    fn default() -> (r: ConversionProgress)
        ensures
            r@ == zero_progress(),
    {
        ConversionProgress::new()
    }
}

/// Recording reads never lowers the read counter, and once the read counter
/// is saturated it stays there.
pub proof fn lemma_read_counter_is_monotone(before: JobProgress, rows: usize)
    ensures
        saturating_sum(before.rows_read, count_as_u64(rows) as int) >= before.rows_read,
        before.rows_read == u64::MAX ==> saturating_sum(before.rows_read, count_as_u64(rows) as int)
            == u64::MAX,
{
}

} // verus!
