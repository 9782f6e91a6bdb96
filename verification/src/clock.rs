//! Wall-clock time in unix milliseconds, as job stores stamp it.

use vstd::prelude::*;
use vstd::string::*;
use crate::lifecycle::{StoreError, StoreErrorView, counter_range_message};

verus! {

/// A point in time as the operating system reports it.
#[verifier::external_type_specification]
#[verifier::external_body]
pub struct ExSystemTime(std::time::SystemTime);

/// Calls `SystemTime::now`. Nothing is promised of the time read.
#[verifier::external_body]
fn system_now() -> std::time::SystemTime {
    std::time::SystemTime::now()
}

/// Calls `SystemTime::duration_since(UNIX_EPOCH)` and reads the elapsed
/// whole milliseconds, or renders the error of a time before the epoch.
/// Nothing is promised of the value, which depends on the clock.
#[verifier::external_body]
fn millis_since_epoch(time: &std::time::SystemTime) -> Result<u128, String> {
    match time.duration_since(std::time::UNIX_EPOCH) {
        Ok(elapsed) => Ok(elapsed.as_millis()),
        Err(error) => Err(error.to_string()),
    }
}

/// The timestamp a clock reading gives: the milliseconds when they fit an
/// `i64`, otherwise a worker error.
pub open spec fn timestamp_outcome(elapsed: Result<u128, Seq<char>>) -> Result<i64, StoreErrorView> {
    match elapsed {
        Err(message) => Err(StoreErrorView::Worker(message)),
        Ok(ms) => if ms <= i64::MAX {
            Ok(ms as i64)
        } else {
            Err(StoreErrorView::Worker(counter_range_message()))
        },
    }
}

/// Turns the milliseconds elapsed since the unix epoch into a timestamp.
pub fn timestamp_from_millis(elapsed: Result<u128, String>) -> (r: Result<i64, StoreError>)
    ensures
        match timestamp_outcome(
            match elapsed {
                Ok(ms) => Ok(ms),
                Err(m) => Err(m@),
            },
        ) {
            Ok(ms) => r == Ok::<i64, StoreError>(ms),
            Err(e) => r matches Err(err) && err@ == e,
        },
{
    match elapsed {
        Err(message) => Err(StoreError::Worker(message)),
        Ok(ms) => {
            if ms <= i64::MAX as u128 {
                Ok(ms as i64)
            } else {
                Err(StoreError::Worker(String::from_str("out of range integral type conversion attempted")))
            }
        },
    }
}

/// The current unix time in milliseconds. Fails with a worker error when the
/// clock is before the epoch or too far in the future for an `i64`.
pub fn now_ms() -> (r: Result<i64, StoreError>)
    ensures
        r matches Ok(ms) ==> ms >= 0,
        r matches Err(e) ==> e is Worker,
{
    let now = system_now();
    timestamp_from_millis(millis_since_epoch(&now))
}

/// A source of unix millisecond timestamps.
pub trait Clock {
    /// The current unix time in milliseconds.
    fn now_ms(&self) -> Result<i64, StoreError>;
}

/// The operating-system wall clock.
#[derive(Debug, Clone, Copy)]
pub struct SystemClock;

impl Clock for SystemClock {
    fn now_ms(&self) -> (r: Result<i64, StoreError>)
        ensures
            r matches Ok(ms) ==> ms >= 0,
            r matches Err(e) ==> e is Worker,
    {
        now_ms()
    }
}

} // verus!
