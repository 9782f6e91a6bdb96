//! Choosing the job-store backend from a database URL.

use vstd::prelude::*;
use vstd::string::*;
use crate::lifecycle::{StoreError, StoreErrorView, store_error_message};
use crate::text::{chars_of, find, split_once, str_eq, substring};

verus! {

/// The job-store backends.
#[derive(Debug, Clone, Copy, PartialEq, Eq, Structural)]
pub enum StoreBackend {
    Sqlite,
    Postgres,
}

/// Errors opening a job store.
#[derive(Debug, PartialEq, Eq)]
pub enum StoreFactoryError {
    InvalidDatabaseUrl,
    InvalidMaxConnections,
    UnsupportedBackend(String),
    Store(StoreError),
}

/// The model of a store factory error.
pub enum StoreFactoryErrorView {
    InvalidDatabaseUrl,
    InvalidMaxConnections,
    UnsupportedBackend(Seq<char>),
    Store(StoreErrorView),
}

impl View for StoreFactoryError {
    type V = StoreFactoryErrorView;

    open spec fn view(&self) -> StoreFactoryErrorView {
        match self {
            StoreFactoryError::InvalidDatabaseUrl => StoreFactoryErrorView::InvalidDatabaseUrl,
            StoreFactoryError::InvalidMaxConnections => StoreFactoryErrorView::InvalidMaxConnections,
            StoreFactoryError::UnsupportedBackend(b) => StoreFactoryErrorView::UnsupportedBackend(b@),
            StoreFactoryError::Store(e) => StoreFactoryErrorView::Store(e@),
        }
    }
}

/// The text of a store factory error.
pub open spec fn factory_error_message(error: StoreFactoryErrorView) -> Seq<char> {
    match error {
        StoreFactoryErrorView::InvalidDatabaseUrl => "database URL must include a backend scheme and location"@,
        StoreFactoryErrorView::InvalidMaxConnections => "database max connections must be at least 1"@,
        StoreFactoryErrorView::UnsupportedBackend(b) => "unsupported database backend: "@ + b,
        StoreFactoryErrorView::Store(e) => store_error_message(e),
    }
}

impl StoreFactoryError {
    /// The text of this error.
    pub fn message(&self) -> (r: String)
        ensures
            r@ == factory_error_message(self@),
    {
        match self {
            StoreFactoryError::InvalidDatabaseUrl => String::from_str("database URL must include a backend scheme and location"),
            StoreFactoryError::InvalidMaxConnections => String::from_str("database max connections must be at least 1"),
            StoreFactoryError::UnsupportedBackend(b) => crate::text::concat("unsupported database backend: ", b.as_str()),
            StoreFactoryError::Store(e) => e.message(),
        }
    }
}

/// Where a job store lives: its backend and the location after `://`.
#[derive(Debug, PartialEq, Eq)]
pub struct DatabaseTarget {
    pub backend: StoreBackend,
    pub location: String,
}

/// What a database URL and pool size select: `backend://location` with a
/// known backend, a non-empty location, and at least one connection.
pub open spec fn database_target_of(database_url: Seq<char>, max_connections: u32) -> Result<
    (StoreBackend, Seq<char>),
    StoreFactoryErrorView,
> {
    match split_once(database_url, "://"@) {
        None => Err(StoreFactoryErrorView::InvalidDatabaseUrl),
        Some((backend, location)) => if location.len() == 0 {
            Err(StoreFactoryErrorView::InvalidDatabaseUrl)
        } else if max_connections == 0 {
            Err(StoreFactoryErrorView::InvalidMaxConnections)
        } else if backend == "sqlite"@ {
            Ok((StoreBackend::Sqlite, location))
        } else if backend == "postgres"@ {
            Ok((StoreBackend::Postgres, location))
        } else {
            Err(StoreFactoryErrorView::UnsupportedBackend(backend))
        },
    }
}

/// Selects the job-store backend for a database URL.
pub fn database_target(database_url: &str, max_connections: u32) -> (r: Result<DatabaseTarget, StoreFactoryError>)
    ensures
        match database_target_of(database_url@, max_connections) {
            Ok((backend, location)) => r matches Ok(t) && t.backend == backend && t.location@ == location,
            Err(e) => r matches Err(err) && err@ == e,
        },
{
    proof {
        reveal_strlit("://");
    }
    let chars = chars_of(database_url);
    let separator = chars_of("://");
    let at = match find(&chars, &separator) {
        Some(i) => i,
        None => {
            return Err(StoreFactoryError::InvalidDatabaseUrl);
        },
    };
    assert(at + 3 <= chars@.len());
    assert(at < chars.len());
    let backend = substring(database_url, 0, at);
    let location = substring(database_url, at + 3, chars.len());
    if location.unicode_len() == 0 {
        return Err(StoreFactoryError::InvalidDatabaseUrl);
    }
    if max_connections == 0 {
        return Err(StoreFactoryError::InvalidMaxConnections);
    }
    if str_eq(backend.as_str(), "sqlite") {
        Ok(DatabaseTarget { backend: StoreBackend::Sqlite, location })
    } else if str_eq(backend.as_str(), "postgres") {
        Ok(DatabaseTarget { backend: StoreBackend::Postgres, location })
    } else {
        Err(StoreFactoryError::UnsupportedBackend(backend))
    }
}

} // verus!
