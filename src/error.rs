//! One error type for everything that can go wrong in a repository call.
use vstd::prelude::*;

verus! {

/// Why a repository call failed.
#[derive(Clone, Copy, Debug, PartialEq, Eq, Structural)]
pub enum MyError {
    /// No pooled connection could be had, or the pool could not be built.
    PoolError,
    /// The store reported an I/O or protocol failure.
    StoreError,
    /// A person could not be turned into a document.
    EncodeError,
    /// A document could not be read back as a person.
    DecodeError,
    /// An identifier's text is not 24 hex digits.
    InvalidIdentifier,
}

/// How a round trip to the store failed, as the code that runs it reports it.
#[derive(Clone, Copy, Debug, PartialEq, Eq, Structural)]
pub enum StoreFailure {
    /// No connection could be taken from the pool.
    Pool,
    /// The store operation itself failed.
    Store,
}

/// The error that a failed round trip becomes.
pub open spec fn failure_error(f: StoreFailure) -> MyError {
    match f {
        StoreFailure::Pool => MyError::PoolError,
        StoreFailure::Store => MyError::StoreError,
    }
}

impl MyError {
    /// Maps a failed round trip to the error a repository call reports.
    pub fn from_failure(f: StoreFailure) -> (r: MyError)
        ensures
            r == failure_error(f),
    {
        match f {
            StoreFailure::Pool => MyError::PoolError,
            StoreFailure::Store => MyError::StoreError,
        }
    }
}

} // verus!
