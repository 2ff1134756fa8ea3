//! Errors arising in the storage layer.

use vstd::prelude::*;

verus! {

/// Everything that can go wrong while managing pages and the backing file.
#[derive(Debug)]
pub enum StorageError {
    /// An I/O failure in the backing file, described by its message. The
    /// verified manager never produces this variant itself; the unverified
    /// shell that performs the actual file operations does.
    IOError(String),
    /// A malformed caller-supplied argument, described by its message.
    InvalidArgument(String),
    /// The page with the carried id was expected to be resident but is not.
    UnknownPage(u64),
    /// The buffer pool is at capacity and no page can be evicted; carries the
    /// number of allocated pages.
    BufferPoolFull(u64),
    /// File deletion was requested while pages are still pinned.
    DeleteFileWhilePagesPinned,
}

} // verus!
