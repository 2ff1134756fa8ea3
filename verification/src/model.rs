//! Mathematical model of the buffer pool manager.
//!
//! `ManagerView` is the abstract state every contract speaks of: the pool of
//! resident pages, a model of the backing file's contents (`disk`), and the
//! manager's configuration. The `with_*` functions are the state transitions
//! that the executable operations are proved to implement.

use vstd::prelude::*;

verus! {

/// Abstract state of one resident page.
pub ghost struct PageView {
    /// The page's bytes; always exactly `page_size` of them.
    pub data: Seq<u8>,
    /// Whether the page has been written since it was last flushed.
    pub dirty: bool,
    /// Number of outstanding holders preventing eviction.
    pub pin_count: u16,
}

/// Abstract state of a whole file manager.
#[verifier::ext_equal]
pub ghost struct ManagerView {
    /// Resident pages, keyed by page id.
    pub pool: Map<u64, PageView>,
    /// Modelled contents of the backing file, by page id: the bytes this
    /// manager has flushed to each page's slot.
    pub disk: Map<u64, Seq<u8>>,
    /// Exact length of every page, in bytes.
    pub page_size: nat,
    /// Bound on the number of resident pages.
    pub max_pages_in_pool: nat,
    /// High-water mark of allocated page ids (ids are 1-based).
    pub num_pages: u64,
}

impl ManagerView {
    /// The configuration is valid, the pool respects its bound, and every
    /// resident page holds exactly `page_size` bytes.
    pub open spec fn wf(self) -> bool {
        &&& self.page_size >= 1
        &&& self.max_pages_in_pool >= 1
        &&& self.pool.dom().finite()
        &&& self.pool.len() <= self.max_pages_in_pool
        &&& forall|p: u64| self.pool.contains_key(p)
                ==> (#[trigger] self.pool[p]).data.len() == self.page_size
    }

    /// The page is in the pool.
    pub open spec fn resident(self, page_id: u64) -> bool {
        self.pool.contains_key(page_id)
    }

    /// The page is in the pool and nothing pins it, so eviction may pick it.
    pub open spec fn evictable(self, page_id: u64) -> bool {
        self.resident(page_id) && self.pool[page_id].pin_count == 0
    }

    /// A zero-filled page, as materialized for fresh writes and allocations.
    pub open spec fn zero_page(self) -> Seq<u8> {
        Seq::new(self.page_size, |i: int| 0u8)
    }

    /// State of a freshly opened manager: an empty pool over a file whose
    /// modelled contents are `disk`.
    pub open spec fn opened(
        page_size: nat,
        max_pages_in_pool: nat,
        num_pages: u64,
        disk: Map<u64, Seq<u8>>,
    ) -> ManagerView {
        ManagerView {
            pool: Map::empty(),
            disk,
            page_size,
            max_pages_in_pool,
            num_pages,
        }
    }

    /// Effect of accepting a write of `data` to `page_id`: the page's bytes
    /// are wholly replaced and the page becomes dirty. A page that was
    /// resident keeps its pin count; a fresh one starts unpinned. The disk is
    /// untouched.
    pub open spec fn with_write(self, page_id: u64, data: Seq<u8>) -> ManagerView {
        let pins = if self.resident(page_id) {
            self.pool[page_id].pin_count
        } else {
            0u16
        };
        ManagerView {
            pool: self.pool.insert(
                page_id,
                PageView { data, dirty: true, pin_count: pins },
            ),
            ..self
        }
    }

    /// Effect of loading `page_id` into the pool with bytes `data` (read from
    /// the file): resident, clean and unpinned.
    pub open spec fn with_install(self, page_id: u64, data: Seq<u8>) -> ManagerView {
        ManagerView {
            pool: self.pool.insert(
                page_id,
                PageView { data, dirty: false, pin_count: 0 },
            ),
            ..self
        }
    }

    /// Effect of flushing resident page `page_id`: its slot of the file now
    /// holds the page's bytes, and the page is clean.
    pub open spec fn with_flush(self, page_id: u64) -> ManagerView {
        ManagerView {
            pool: self.pool.insert(
                page_id,
                PageView { dirty: false, ..self.pool[page_id] },
            ),
            disk: self.disk.insert(page_id, self.pool[page_id].data),
            ..self
        }
    }

    /// The full flush operation: a no-op unless the page is resident and
    /// dirty.
    pub open spec fn flush_page_op(self, page_id: u64) -> ManagerView {
        if self.resident(page_id) && self.pool[page_id].dirty {
            self.with_flush(page_id)
        } else {
            self
        }
    }

    /// Effect of evicting `page_id`: it leaves the pool; the disk and the
    /// allocation mark are untouched.
    pub open spec fn with_evict(self, page_id: u64) -> ManagerView {
        ManagerView { pool: self.pool.remove(page_id), ..self }
    }

    /// Effect of pinning resident page `page_id`.
    pub open spec fn with_pin(self, page_id: u64) -> ManagerView {
        ManagerView {
            pool: self.pool.insert(
                page_id,
                PageView {
                    pin_count: (self.pool[page_id].pin_count + 1) as u16,
                    ..self.pool[page_id]
                },
            ),
            ..self
        }
    }

    /// Effect of unpinning resident page `page_id`; a pin count of zero stays
    /// at zero.
    pub open spec fn with_unpin(self, page_id: u64) -> ManagerView {
        let pins = self.pool[page_id].pin_count;
        ManagerView {
            pool: self.pool.insert(
                page_id,
                PageView {
                    pin_count: if pins > 0 { (pins - 1) as u16 } else { 0u16 },
                    ..self.pool[page_id]
                },
            ),
            ..self
        }
    }

    /// The id the next successful allocation returns.
    pub open spec fn next_page_id(self) -> u64
        recommends self.num_pages < u64::MAX
    {
        (self.num_pages + 1) as u64
    }

    /// Effect of a successful allocation: a zero-filled dirty page appears at
    /// the next id and the high-water mark advances to it.
    pub open spec fn with_alloc(self) -> ManagerView {
        ManagerView {
            num_pages: self.next_page_id(),
            ..self.with_write(self.next_page_id(), self.zero_page())
        }
    }
}

} // verus!
