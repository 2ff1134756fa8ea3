//! Storage layer of a small relational engine: a page-oriented file manager
//! that mediates all reads and writes between an on-disk database file and
//! in-memory consumers through a fixed-capacity buffer pool.
//!
//! The buffer pool manager itself — residency, pinning, dirty tracking,
//! eviction and flush bookkeeping — is verified here. The actual file
//! operations (open, seek, read, write, sync) cannot be performed by verified
//! code, so the manager exposes small, fully specified steps; an unverified
//! shell drives the file and reports each completed transfer back to the
//! manager, which tracks the file's modelled contents in ghost state.

pub mod datatypes;
pub mod error;
pub mod file_manager;
pub mod laws;
pub mod model;
pub mod storage_error;

pub use error::DBError;
pub use error::DBResult;
pub use file_manager::FileManager;
pub use storage_error::StorageError;
