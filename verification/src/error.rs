//! Top-level error type and result alias of the database.

use vstd::prelude::*;

use crate::storage_error::StorageError;

verus! {

/// A convenience `Result` type for operations that may fail with a `DBError`.
pub type DBResult<T> = Result<T, DBError>;

/// Any error surfaced by the database.
#[derive(Debug)]
pub enum DBError {
    /// Error in the storage subsystem.
    StorageError(StorageError),
    /// An I/O failure elsewhere in the database, described by its message.
    /// The verified manager never produces this variant itself; the
    /// unverified shell that performs the actual file operations does.
    IOError(String),
}

impl DBError {
    /// Wraps a storage error, as every storage operation reports through
    /// `DBResult`.
    pub fn from_storage(e: StorageError) -> (r: DBError)
        ensures
            r == DBError::StorageError(e),
    {
        DBError::StorageError(e)
    }
}

} // verus!
