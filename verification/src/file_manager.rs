//! The buffer pool manager.
//!
//! `FileManager` owns the pool of resident pages and all bookkeeping —
//! residency, pinning, dirty tracking, eviction choice, and the allocation
//! high-water mark. It performs no file I/O itself: an unverified shell
//! opens the backing file, copies bytes between the file and the pool, and
//! reports each completed transfer through `mark_flushed` / `install_page`,
//! while the manager's ghost `disk` field tracks what the file must hold.

use vstd::prelude::*;

use crate::error::DBError;
use crate::error::DBResult;
use crate::model::ManagerView;
use crate::model::PageView;
use crate::storage_error::StorageError;

verus! {

/// One unit of file storage held in memory: a fixed-size byte buffer with
/// its dirty flag and pin count.
struct Page {
    data: Vec<u8>,
    dirty: bool,
    pin_count: u16,
}

impl Page {
    spec fn view(self) -> PageView {
        PageView { data: self.data@, dirty: self.dirty, pin_count: self.pin_count }
    }
}

/// One slot of the buffer pool: a page together with its id.
struct PoolEntry {
    page_id: u64,
    page: Page,
}

/// The pool as a map from page id to page state, built from the slots in
/// order. Under `unique_ids` the order does not matter.
spec fn pool_map_of(entries: Seq<PoolEntry>) -> Map<u64, PageView>
    decreases entries.len(),
{
    if entries.len() == 0 {
        Map::empty()
    } else {
        pool_map_of(entries.drop_last()).insert(
            entries.last().page_id,
            entries.last().page.view(),
        )
    }
}

/// No two slots carry the same page id.
spec fn unique_ids(entries: Seq<PoolEntry>) -> bool {
    forall|i: int, j: int|
        0 <= i < j < entries.len()
            ==> (#[trigger] entries[i]).page_id != (#[trigger] entries[j]).page_id
}

proof fn lemma_pool_map_contains(entries: Seq<PoolEntry>, page_id: u64)
    ensures
        pool_map_of(entries).contains_key(page_id)
            <==> exists|i: int|
                0 <= i < entries.len() && (#[trigger] entries[i]).page_id == page_id,
    decreases entries.len(),
{
    if entries.len() > 0 {
        lemma_pool_map_contains(entries.drop_last(), page_id);
        if pool_map_of(entries).contains_key(page_id) {
            if entries.last().page_id == page_id {
                assert(entries[entries.len() - 1].page_id == page_id);
            } else {
                let i = choose|i: int|
                    0 <= i < entries.drop_last().len()
                        && (#[trigger] entries.drop_last()[i]).page_id == page_id;
                assert(entries[i].page_id == page_id);
            }
        }
        if exists|i: int|
            0 <= i < entries.len() && (#[trigger] entries[i]).page_id == page_id {
            let i = choose|i: int|
                0 <= i < entries.len() && (#[trigger] entries[i]).page_id == page_id;
            if i < entries.len() - 1 {
                assert(entries.drop_last()[i].page_id == page_id);
            }
        }
    }
}

proof fn lemma_pool_map_at(entries: Seq<PoolEntry>, i: int)
    requires
        unique_ids(entries),
        0 <= i < entries.len(),
    ensures
        pool_map_of(entries).contains_key(entries[i].page_id),
        pool_map_of(entries)[entries[i].page_id] == entries[i].page.view(),
    decreases entries.len(),
{
    if i == entries.len() - 1 {
    } else {
        lemma_pool_map_at(entries.drop_last(), i);
        assert(entries.drop_last()[i] == entries[i]);
    }
}

proof fn lemma_pool_map_len(entries: Seq<PoolEntry>)
    requires
        unique_ids(entries),
    ensures
        pool_map_of(entries).dom().finite(),
        pool_map_of(entries).len() == entries.len(),
    decreases entries.len(),
{
    if entries.len() > 0 {
        assert(unique_ids(entries.drop_last())) by {
            assert forall|i: int, j: int|
                0 <= i < j < entries.drop_last().len() implies
                (#[trigger] entries.drop_last()[i]).page_id
                    != (#[trigger] entries.drop_last()[j]).page_id by {
                assert(entries[i].page_id != entries[j].page_id);
            }
        }
        lemma_pool_map_len(entries.drop_last());
        lemma_pool_map_contains(entries.drop_last(), entries.last().page_id);
        assert(forall|i: int|
            0 <= i < entries.drop_last().len()
                ==> (#[trigger] entries.drop_last()[i]).page_id
                    != entries.last().page_id);
    }
}

proof fn lemma_pool_map_update(entries: Seq<PoolEntry>, i: int, e: PoolEntry)
    requires
        unique_ids(entries),
        0 <= i < entries.len(),
        e.page_id == entries[i].page_id,
    ensures
        unique_ids(entries.update(i, e)),
        pool_map_of(entries.update(i, e))
            =~= pool_map_of(entries).insert(e.page_id, e.page.view()),
    decreases entries.len(),
{
    let updated = entries.update(i, e);
    assert forall|a: int, b: int| 0 <= a < b < updated.len() implies
        (#[trigger] updated[a]).page_id != (#[trigger] updated[b]).page_id by {
        assert(entries[a].page_id != entries[b].page_id);
    }
    if i == entries.len() - 1 {
        assert(updated.drop_last() =~= entries.drop_last());
        lemma_pool_map_contains(entries.drop_last(), e.page_id);
    } else {
        lemma_pool_map_update(entries.drop_last(), i, e);
        assert(updated.drop_last() =~= entries.drop_last().update(i, e));
        assert(updated.last() == entries.last());
    }
}

proof fn lemma_pool_map_remove(entries: Seq<PoolEntry>, i: int)
    requires
        unique_ids(entries),
        0 <= i < entries.len(),
    ensures
        unique_ids(entries.remove(i)),
        pool_map_of(entries.remove(i))
            =~= pool_map_of(entries).remove(entries[i].page_id),
    decreases entries.len(),
{
    let removed = entries.remove(i);
    assert forall|a: int, b: int| 0 <= a < b < removed.len() implies
        (#[trigger] removed[a]).page_id != (#[trigger] removed[b]).page_id by {
        let a0 = if a < i { a } else { a + 1 };
        let b0 = if b < i { b } else { b + 1 };
        assert(removed[a] == entries[a0]);
        assert(removed[b] == entries[b0]);
        assert(entries[a0].page_id != entries[b0].page_id);
    }
    if i == entries.len() - 1 {
        assert(removed =~= entries.drop_last());
        lemma_pool_map_contains(entries.drop_last(), entries[i].page_id);
    } else {
        lemma_pool_map_remove(entries.drop_last(), i);
        assert(removed.drop_last() =~= entries.drop_last().remove(i));
        assert(removed.last() == entries.last());
        assert(entries[i].page_id != entries.last().page_id);
    }
}

proof fn lemma_pool_map_push(entries: Seq<PoolEntry>, e: PoolEntry)
    requires
        unique_ids(entries),
        forall|i: int|
            0 <= i < entries.len() ==> (#[trigger] entries[i]).page_id != e.page_id,
    ensures
        unique_ids(entries.push(e)),
        pool_map_of(entries.push(e))
            =~= pool_map_of(entries).insert(e.page_id, e.page.view()),
{
    let pushed = entries.push(e);
    assert forall|a: int, b: int| 0 <= a < b < pushed.len() implies
        (#[trigger] pushed[a]).page_id != (#[trigger] pushed[b]).page_id by {
        if b < entries.len() {
            assert(entries[a].page_id != entries[b].page_id);
        } else {
            assert(pushed[b] == e);
            assert(entries[a].page_id != e.page_id);
        }
    }
    assert(pushed.drop_last() =~= entries);
}

/// A `FileManager` manages reads and writes to a database file through a
/// buffer pool of pages. It holds no file handle itself: the unverified
/// shell owns the handle, performs each transfer this manager asks for, and
/// reports completed transfers back through `mark_flushed` / `install_page`.
pub struct FileManager {
    file_path: String,
    buffer_pool: Vec<PoolEntry>,
    page_size: usize,
    max_pages_in_pool: usize,
    num_pages: u64,
    /// Modelled contents of the backing file, maintained as pages are
    /// flushed; the shell keeps the real file in step with it.
    disk: Ghost<Map<u64, Seq<u8>>>,
}

impl View for FileManager {
    type V = ManagerView;

    closed spec fn view(&self) -> ManagerView {
        ManagerView {
            pool: pool_map_of(self.buffer_pool@),
            disk: self.disk@,
            page_size: self.page_size as nat,
            max_pages_in_pool: self.max_pages_in_pool as nat,
            num_pages: self.num_pages,
        }
    }
}

impl FileManager {
    /// The manager's representation invariant: valid configuration, one slot
    /// per page id, full-size pages, and a pool within its bound.
    pub closed spec fn wf(&self) -> bool {
        &&& self.page_size >= 1
        &&& self.max_pages_in_pool >= 1
        &&& unique_ids(self.buffer_pool@)
        &&& self.buffer_pool@.len() <= self.max_pages_in_pool
        &&& forall|i: int|
                0 <= i < self.buffer_pool@.len()
                    ==> (#[trigger] self.buffer_pool@[i]).page.data@.len() == self.page_size
    }

    /// The path the manager was opened with.
    pub closed spec fn path(&self) -> Seq<char> {
        self.file_path@
    }

    /// A well-formed manager has a well-formed abstract state.
    pub proof fn lemma_wf_view(&self)
        requires
            self.wf(),
        ensures
            self@.wf(),
    {
        lemma_pool_map_len(self.buffer_pool@);
        assert forall|p: u64| self@.pool.contains_key(p) implies
            (#[trigger] self@.pool[p]).data.len() == self@.page_size by {
            lemma_pool_map_contains(self.buffer_pool@, p);
            let i = choose|i: int|
                0 <= i < self.buffer_pool@.len()
                    && (#[trigger] self.buffer_pool@[i]).page_id == p;
            lemma_pool_map_at(self.buffer_pool@, i);
        }
    }

    /// Creates a new `FileManager` for the database file at `path`, whose
    /// current length in bytes is `file_len`. `page_size` is the exact number
    /// of bytes per page and `max_pages_in_pool` bounds the buffer pool; both
    /// must be at least 1 and `path` must be non-empty, else the manager
    /// reports `InvalidArgument` without touching any file state.
    pub fn new(path: &str, page_size: usize, max_pages_in_pool: usize, file_len: u64) -> (r:
        DBResult<FileManager>)
        ensures
            (path@.len() > 0 && page_size >= 1 && max_pages_in_pool >= 1) <==> r is Ok,
            r matches Ok(fm) ==> {
                &&& fm.wf()
                &&& fm.path() == path@
                &&& fm@ == ManagerView::opened(
                    page_size as nat,
                    max_pages_in_pool as nat,
                    file_len / page_size as u64,
                    Map::empty(),
                )
            },
            r matches Err(e) ==> e matches DBError::StorageError(StorageError::InvalidArgument(_)),
    {
        if path.unicode_len() == 0 {
            return Err(DBError::StorageError(StorageError::InvalidArgument(
                "invalid FileManager file path: path string is empty.".to_string(),
            )));
        }
        if page_size < 1 {
            return Err(DBError::StorageError(StorageError::InvalidArgument(
                "invalid FileManager page size: must be at least 1 byte.".to_string(),
            )));
        }
        if max_pages_in_pool < 1 {
            return Err(DBError::StorageError(StorageError::InvalidArgument(
                "invalid FileManager `max_pages_in_pool`: must be at least 1.".to_string(),
            )));
        }
        let num_pages = file_len / (page_size as u64);
        let fm = FileManager {
            file_path: path.to_string(),
            buffer_pool: Vec::new(),
            page_size,
            max_pages_in_pool,
            num_pages,
            disk: Ghost(Map::empty()),
        };
        proof {
            assert(fm.buffer_pool@ =~= Seq::<PoolEntry>::empty());
            assert(fm@ =~= ManagerView::opened(
                page_size as nat,
                max_pages_in_pool as nat,
                file_len / page_size as u64,
                Map::empty(),
            ));
        }
        Ok(fm)
    }

    /// Exact number of bytes in every page.
    pub fn page_size(&self) -> (r: usize)
        ensures
            r == self@.page_size,
    {
        self.page_size
    }

    /// Bound on the number of resident pages.
    pub fn max_pages_in_pool(&self) -> (r: usize)
        ensures
            r == self@.max_pages_in_pool,
    {
        self.max_pages_in_pool
    }

    /// High-water mark of allocated page ids.
    pub fn num_pages(&self) -> (r: u64)
        ensures
            r == self@.num_pages,
    {
        self.num_pages
    }

    /// The path the manager was opened with.
    pub fn file_path(&self) -> (r: &String)
        ensures
            r@ == self.path(),
    {
        &self.file_path
    }

    /// How many pages are resident.
    pub fn pool_len(&self) -> (r: usize)
        requires
            self.wf(),
        ensures
            r == self@.pool.len(),
    {
        proof {
            lemma_pool_map_len(self.buffer_pool@);
        }
        self.buffer_pool.len()
    }

    /// The slot index holding `page_id`, if the page is resident.
    fn find_index(&self, page_id: u64) -> (r: Option<usize>)
        requires
            self.wf(),
        ensures
            match r {
                Some(i) => {
                    &&& i < self.buffer_pool@.len()
                    &&& self.buffer_pool@[i as int].page_id == page_id
                    &&& self@.resident(page_id)
                    &&& self@.pool[page_id] == self.buffer_pool@[i as int].page.view()
                },
                None => !self@.resident(page_id),
            },
    {
        let n = self.buffer_pool.len();
        let mut i: usize = 0;
        while i < n
            invariant
                self.wf(),
                n == self.buffer_pool@.len(),
                i <= n,
                forall|j: int|
                    0 <= j < i ==> (#[trigger] self.buffer_pool@[j]).page_id != page_id,
            decreases n - i,
        {
            if self.buffer_pool[i].page_id == page_id {
                proof {
                    lemma_pool_map_at(self.buffer_pool@, i as int);
                }
                return Some(i);
            }
            i += 1;
        }
        proof {
            lemma_pool_map_contains(self.buffer_pool@, page_id);
        }
        None
    }

    /// The pin count of a resident page, or `None` if the page is not
    /// resident.
    pub fn pin_count(&self, page_id: u64) -> (r: Option<u16>)
        requires
            self.wf(),
        ensures
            match r {
                Some(c) => self@.resident(page_id) && c == self@.pool[page_id].pin_count,
                None => !self@.resident(page_id),
            },
    {
        match self.find_index(page_id) {
            Some(i) => Some(self.buffer_pool[i].page.pin_count),
            None => None,
        }
    }

    /// Whether the page is resident in the buffer pool.
    pub fn contains_page(&self, page_id: u64) -> (r: bool)
        requires
            self.wf(),
        ensures
            r == self@.resident(page_id),
    {
        self.find_index(page_id).is_some()
    }

    /// Returns the bytes of the page with the given `page_id` if it is
    /// resident, reflecting the most recent write accepted for that page.
    /// A page that is not resident must first be brought in through
    /// `install_page`; until then the manager reports `UnknownPage`.
    pub fn read_page(&self, page_id: u64) -> (r: DBResult<&Vec<u8>>)
        requires
            self.wf(),
        ensures
            match r {
                Ok(bytes) => self@.resident(page_id) && bytes@ == self@.pool[page_id].data,
                Err(e) => {
                    &&& !self@.resident(page_id)
                    &&& e == DBError::StorageError(StorageError::UnknownPage(page_id))
                },
            },
    {
        match self.find_index(page_id) {
            Some(i) => Ok(&self.buffer_pool[i].page.data),
            None => Err(DBError::StorageError(StorageError::UnknownPage(page_id))),
        }
    }

    /// Given bytes `data`, write to the page with the given `page_id` in the
    /// buffer pool. All data in the page is overwritten and the page is
    /// marked dirty; nothing is written to disk (`flush` later does that).
    /// `data` must be exactly `page_size` bytes long, else the write is
    /// rejected with `InvalidArgument` and the pool is left untouched. A page
    /// that is not resident is materialized in a free slot; if the pool is
    /// full the manager reports `BufferPoolFull` and the caller must evict a
    /// page first.
    pub fn write_page_to_pool(&mut self, page_id: u64, data: &[u8]) -> (r: DBResult<()>)
        requires
            old(self).wf(),
        ensures
            final(self).wf(),
            data@.len() != old(self)@.page_size ==> {
                &&& r matches Err(DBError::StorageError(StorageError::InvalidArgument(_)))
                &&& final(self)@ == old(self)@
            },
            data@.len() == old(self)@.page_size
                && (old(self)@.resident(page_id)
                    || old(self)@.pool.len() < old(self)@.max_pages_in_pool) ==> {
                &&& r is Ok
                &&& final(self)@ == old(self)@.with_write(page_id, data@)
            },
            data@.len() == old(self)@.page_size
                && !old(self)@.resident(page_id)
                && old(self)@.pool.len() >= old(self)@.max_pages_in_pool ==> {
                &&& r == Err::<(), DBError>(DBError::StorageError(
                    StorageError::BufferPoolFull(old(self)@.num_pages)))
                &&& final(self)@ == old(self)@
            },
    {
        if data.len() != self.page_size {
            return Err(DBError::StorageError(StorageError::InvalidArgument(
                "length of data to write to page did not match the expected page size.".to_string(),
            )));
        }
        proof {
            lemma_pool_map_len(self.buffer_pool@);
        }
        match self.find_index(page_id) {
            Some(i) => {
                let new_data = vstd::slice::slice_to_vec(data);
                let ghost old_entries = self.buffer_pool@;
                let entry = &mut self.buffer_pool[i];
                entry.page.data = new_data;
                entry.page.dirty = true;
                proof {
                    lemma_pool_map_update(old_entries, i as int, self.buffer_pool@[i as int]);
                    assert(self@ =~= old(self)@.with_write(page_id, data@));
                }
                Ok(())
            },
            None => {
                if self.buffer_pool.len() >= self.max_pages_in_pool {
                    return Err(DBError::StorageError(StorageError::BufferPoolFull(
                        self.num_pages,
                    )));
                }
                let new_data = vstd::slice::slice_to_vec(data);
                let ghost old_entries = self.buffer_pool@;
                proof {
                    lemma_pool_map_contains(old_entries, page_id);
                }
                self.buffer_pool.push(PoolEntry {
                    page_id,
                    page: Page { data: new_data, dirty: true, pin_count: 0 },
                });
                proof {
                    lemma_pool_map_push(old_entries, self.buffer_pool@.last());
                    assert(self.buffer_pool@.drop_last() =~= old_entries);
                    assert(self@ =~= old(self)@.with_write(page_id, data@));
                }
                Ok(())
            },
        }
    }

    /// Brings the page with the given `page_id` into the pool with the bytes
    /// `data` that the shell read from the page's slot of the file. The page
    /// starts clean and unpinned. The caller must have made room first.
    pub fn install_page(&mut self, page_id: u64, data: Vec<u8>)
        requires
            old(self).wf(),
            !old(self)@.resident(page_id),
            old(self)@.pool.len() < old(self)@.max_pages_in_pool,
            data@.len() == old(self)@.page_size,
        ensures
            final(self).wf(),
            final(self)@ == old(self)@.with_install(page_id, data@),
    {
        let ghost old_entries = self.buffer_pool@;
        proof {
            lemma_pool_map_len(old_entries);
            lemma_pool_map_contains(old_entries, page_id);
        }
        self.buffer_pool.push(PoolEntry {
            page_id,
            page: Page { data, dirty: false, pin_count: 0 },
        });
        proof {
            lemma_pool_map_push(old_entries, self.buffer_pool@.last());
            assert(self.buffer_pool@.drop_last() =~= old_entries);
            assert(self@ =~= old(self)@.with_install(page_id, data@));
        }
    }

    /// The bytes of the page with the given `page_id` if it is resident and
    /// dirty — exactly the pages a flush must write — and `None` otherwise.
    pub fn dirty_page_bytes(&self, page_id: u64) -> (r: Option<&Vec<u8>>)
        requires
            self.wf(),
        ensures
            match r {
                Some(bytes) => {
                    &&& self@.resident(page_id)
                    &&& self@.pool[page_id].dirty
                    &&& bytes@ == self@.pool[page_id].data
                },
                None => !(self@.resident(page_id) && self@.pool[page_id].dirty),
            },
    {
        match self.find_index(page_id) {
            Some(i) => {
                if self.buffer_pool[i].page.dirty {
                    Some(&self.buffer_pool[i].page.data)
                } else {
                    None
                }
            },
            None => None,
        }
    }

    /// Records that the shell wrote the page's bytes to its slot of the
    /// file: the page becomes clean and the modelled disk now holds its
    /// bytes. A page that is absent or already clean needs no write, and the
    /// call changes nothing.
    pub fn mark_flushed(&mut self, page_id: u64)
        requires
            old(self).wf(),
        ensures
            final(self).wf(),
            final(self)@ == old(self)@.flush_page_op(page_id),
    {
        match self.find_index(page_id) {
            Some(i) => {
                if self.buffer_pool[i].page.dirty {
                    self.disk = Ghost(
                        self.disk@.insert(page_id, self.buffer_pool@[i as int].page.data@),
                    );
                    let ghost old_entries = self.buffer_pool@;
                    let entry = &mut self.buffer_pool[i];
                    entry.page.dirty = false;
                    proof {
                        lemma_pool_map_update(old_entries, i as int, self.buffer_pool@[i as int]);
                        assert(self@ =~= old(self)@.flush_page_op(page_id));
                    }
                }
            },
            None => {},
        }
    }

    /// Chooses a page that eviction may remove: any resident page with no
    /// pins. When every resident page is pinned — or the pool is empty — no
    /// page can be evicted and the manager reports `BufferPoolFull`.
    pub fn select_victim(&self) -> (r: DBResult<u64>)
        requires
            self.wf(),
        ensures
            match r {
                Ok(v) => self@.evictable(v),
                Err(e) => {
                    &&& e == DBError::StorageError(StorageError::BufferPoolFull(self@.num_pages))
                    &&& forall|p: u64| !(#[trigger] self@.evictable(p))
                },
            },
    {
        let n = self.buffer_pool.len();
        let mut i: usize = 0;
        while i < n
            invariant
                self.wf(),
                n == self.buffer_pool@.len(),
                i <= n,
                forall|j: int|
                    0 <= j < i ==> (#[trigger] self.buffer_pool@[j]).page.pin_count != 0,
            decreases n - i,
        {
            if self.buffer_pool[i].page.pin_count == 0 {
                proof {
                    lemma_pool_map_at(self.buffer_pool@, i as int);
                }
                return Ok(self.buffer_pool[i].page_id);
            }
            i += 1;
        }
        proof {
            assert forall|p: u64| !(#[trigger] self@.evictable(p)) by {
                if self@.resident(p) {
                    lemma_pool_map_contains(self.buffer_pool@, p);
                    let j = choose|j: int|
                        0 <= j < self.buffer_pool@.len()
                            && (#[trigger] self.buffer_pool@[j]).page_id == p;
                    lemma_pool_map_at(self.buffer_pool@, j);
                }
            }
        }
        Err(DBError::StorageError(StorageError::BufferPoolFull(self.num_pages)))
    }

    /// Removes an unpinned, clean page from the pool. The caller must have
    /// flushed a dirty page first (`dirty_page_bytes` / `mark_flushed`), so
    /// that eviction never silently loses data.
    pub fn remove_page(&mut self, page_id: u64)
        requires
            old(self).wf(),
            old(self)@.evictable(page_id),
            !old(self)@.pool[page_id].dirty,
        ensures
            final(self).wf(),
            final(self)@ == old(self)@.with_evict(page_id),
    {
        match self.find_index(page_id) {
            Some(i) => {
                let ghost old_entries = self.buffer_pool@;
                self.buffer_pool.remove(i);
                proof {
                    lemma_pool_map_remove(old_entries, i as int);
                    assert(self@ =~= old(self)@.with_evict(page_id));
                }
            },
            None => {
                proof {
                    assert(false);
                }
            },
        }
    }

    /// Pins a resident page in memory, preventing its eviction until every
    /// pin is released. A page that is not resident must be brought in first
    /// (through the read path); the manager reports `UnknownPage` otherwise.
    pub fn pin_page(&mut self, page_id: u64) -> (r: DBResult<()>)
        requires
            old(self).wf(),
            old(self)@.resident(page_id) ==> old(self)@.pool[page_id].pin_count < 0xffff,
        ensures
            final(self).wf(),
            old(self)@.resident(page_id) ==> r is Ok && final(self)@ == old(self)@.with_pin(
                page_id,
            ),
            !old(self)@.resident(page_id) ==> {
                &&& r == Err::<(), DBError>(DBError::StorageError(StorageError::UnknownPage(
                    page_id,
                )))
                &&& final(self)@ == old(self)@
            },
    {
        match self.find_index(page_id) {
            Some(i) => {
                let ghost old_entries = self.buffer_pool@;
                let entry = &mut self.buffer_pool[i];
                entry.page.pin_count = entry.page.pin_count + 1;
                proof {
                    lemma_pool_map_update(old_entries, i as int, self.buffer_pool@[i as int]);
                    assert(self@ =~= old(self)@.with_pin(page_id));
                }
                Ok(())
            },
            None => Err(DBError::StorageError(StorageError::UnknownPage(page_id))),
        }
    }

    /// Unpins a resident page and returns its remaining pin count; a count
    /// of zero stays at zero. Returns `None` if the page is not resident —
    /// not an error, since the page may legitimately have been evicted
    /// already.
    pub fn unpin_page(&mut self, page_id: u64) -> (r: Option<u16>)
        requires
            old(self).wf(),
        ensures
            final(self).wf(),
            match r {
                Some(c) => {
                    &&& old(self)@.resident(page_id)
                    &&& final(self)@ == old(self)@.with_unpin(page_id)
                    &&& c == final(self)@.pool[page_id].pin_count
                },
                None => !old(self)@.resident(page_id) && final(self)@ == old(self)@,
            },
    {
        match self.find_index(page_id) {
            Some(i) => {
                let ghost old_entries = self.buffer_pool@;
                let entry = &mut self.buffer_pool[i];
                if entry.page.pin_count > 0 {
                    entry.page.pin_count = entry.page.pin_count - 1;
                }
                let count = entry.page.pin_count;
                proof {
                    lemma_pool_map_update(old_entries, i as int, self.buffer_pool@[i as int]);
                    assert(self@ =~= old(self)@.with_unpin(page_id));
                    lemma_pool_map_at(self.buffer_pool@, i as int);
                }
                Some(count)
            },
            None => None,
        }
    }

    /// Allocates a new page: a zero-filled page appears (dirty, so it will
    /// reach the file on its next flush) at the next id past the high-water
    /// mark, and the mark advances. Ids are 1-based, strictly increasing and
    /// never reused. The manager reports `BufferPoolFull` when `num_pages`
    /// has reached the pool bound, or when a slot would be needed and the
    /// pool is full — the caller must evict a page first.
    pub fn allocate_page(&mut self) -> (r: DBResult<u64>)
        requires
            old(self).wf(),
        ensures
            final(self).wf(),
            final(self)@.num_pages >= old(self)@.num_pages,
            (old(self)@.num_pages as nat) >= old(self)@.max_pages_in_pool ==> {
                &&& r == Err::<u64, DBError>(DBError::StorageError(StorageError::BufferPoolFull(
                    old(self)@.num_pages,
                )))
                &&& final(self)@ == old(self)@
            },
            (old(self)@.num_pages as nat) < old(self)@.max_pages_in_pool
                && (old(self)@.resident(old(self)@.next_page_id())
                    || old(self)@.pool.len() < old(self)@.max_pages_in_pool) ==> {
                &&& r == Ok::<u64, DBError>(old(self)@.next_page_id())
                &&& final(self)@ == old(self)@.with_alloc()
            },
            (old(self)@.num_pages as nat) < old(self)@.max_pages_in_pool
                && !old(self)@.resident(old(self)@.next_page_id())
                && old(self)@.pool.len() >= old(self)@.max_pages_in_pool ==> {
                &&& r == Err::<u64, DBError>(DBError::StorageError(StorageError::BufferPoolFull(
                    old(self)@.num_pages,
                )))
                &&& final(self)@ == old(self)@
            },
    {
        if self.num_pages >= self.max_pages_in_pool as u64 {
            return Err(DBError::StorageError(StorageError::BufferPoolFull(self.num_pages)));
        }
        let page_id = self.num_pages + 1;
        let zeros: Vec<u8> = vec![0u8; self.page_size];
        proof {
            assert(zeros@ =~= old(self)@.zero_page());
        }
        match self.write_page_to_pool(page_id, zeros.as_slice()) {
            Ok(_) => {
                self.num_pages = page_id;
                proof {
                    assert(self@ =~= old(self)@.with_alloc());
                }
                Ok(page_id)
            },
            Err(e) => Err(e),
        }
    }

    /// The ids of all resident pages, each exactly once — the pages a
    /// flush-all must visit.
    pub fn page_ids(&self) -> (r: Vec<u64>)
        requires
            self.wf(),
        ensures
            r@.len() == self@.pool.len(),
            forall|j: int| 0 <= j < r@.len() ==> self@.resident(#[trigger] r@[j]),
            forall|p: u64| #[trigger] self@.resident(p) ==> r@.contains(p),
    {
        let n = self.buffer_pool.len();
        let mut r: Vec<u64> = Vec::new();
        let mut i: usize = 0;
        while i < n
            invariant
                self.wf(),
                n == self.buffer_pool@.len(),
                i <= n,
                r@.len() == i,
                forall|j: int| 0 <= j < i ==> r@[j] == (#[trigger] self.buffer_pool@[j]).page_id,
            decreases n - i,
        {
            r.push(self.buffer_pool[i].page_id);
            i += 1;
        }
        proof {
            lemma_pool_map_len(self.buffer_pool@);
            assert forall|j: int| 0 <= j < r@.len() implies
                self@.resident(#[trigger] r@[j]) by {
                lemma_pool_map_at(self.buffer_pool@, j);
            }
            assert forall|p: u64| #[trigger] self@.resident(p) implies r@.contains(p) by {
                lemma_pool_map_contains(self.buffer_pool@, p);
                let j = choose|j: int|
                    0 <= j < self.buffer_pool@.len()
                        && (#[trigger] self.buffer_pool@[j]).page_id == p;
                assert(r@[j] == p);
            }
        }
        r
    }
}

} // verus!
