//! Library-wide guarantees of the buffer pool manager, stated and proved
//! over the abstract model. Each law speaks of every state and every input,
//! through the same transitions the executable operations are proved to
//! implement.

use vstd::prelude::*;

use crate::model::ManagerView;
use crate::model::PageView;

verus! {

/// Round trip: writing a full page of bytes to a page and then reading that
/// page back, with no eviction in between, returns exactly those bytes.
pub proof fn lemma_write_then_read(m: ManagerView, page_id: u64, data: Seq<u8>)
    ensures
        m.with_write(page_id, data).resident(page_id),
        m.with_write(page_id, data).pool[page_id].data == data,
{
}

/// Persistence: after writing a page and flushing it, the file holds the
/// written bytes, and a manager reopened on that same file that loads the
/// page back reads exactly those bytes.
pub proof fn lemma_persistence(
    m: ManagerView,
    page_id: u64,
    data: Seq<u8>,
    page_size: nat,
    max_pages_in_pool: nat,
    num_pages: u64,
)
    ensures
        ({
            let flushed = m.with_write(page_id, data).flush_page_op(page_id);
            let reopened = ManagerView::opened(
                page_size,
                max_pages_in_pool,
                num_pages,
                flushed.disk,
            );
            &&& flushed.disk[page_id] == data
            &&& reopened.with_install(page_id, reopened.disk[page_id]).pool[page_id].data
                == data
        }),
{
}

/// Eviction correctness: with a pool bound of one, loading page `b` when
/// only the unpinned page `a` is resident evicts `a`; if `a` was dirty its
/// bytes reach the file before `b` occupies the slot, and reloading `a` from
/// the file afterwards returns exactly the bytes `a` held when evicted.
pub proof fn lemma_eviction_correctness(
    m: ManagerView,
    a: u64,
    pa: PageView,
    b: u64,
    data_b: Seq<u8>,
)
    requires
        m.max_pages_in_pool == 1,
        m.pool == Map::<u64, PageView>::empty().insert(a, pa),
        pa.pin_count == 0,
        a != b,
    ensures
        forall|v: u64| #[trigger] m.evictable(v) ==> v == a,
        ({
            let loaded = m.flush_page_op(a).with_evict(a).with_install(b, data_b);
            &&& !loaded.resident(a)
            &&& loaded.resident(b)
            &&& loaded.pool[b].data == data_b
            &&& pa.dirty ==> loaded.disk[a] == pa.data
            &&& pa.dirty ==> loaded.with_install(a, loaded.disk[a]).pool[a].data == pa.data
        }),
{
}

/// Pin safety: a pinned page is never a candidate for eviction.
pub proof fn lemma_pinned_never_evicted(m: ManagerView, page_id: u64)
    requires
        m.pool[page_id].pin_count > 0,
    ensures
        !m.evictable(page_id),
{
}

/// Pin safety: when every resident page is pinned there is no eviction
/// candidate at all, so an operation that needs to make room must fail with
/// `BufferPoolFull` rather than evict anything.
pub proof fn lemma_all_pinned_no_victim(m: ManagerView)
    requires
        forall|p: u64| #[trigger] m.resident(p) ==> m.pool[p].pin_count > 0,
    ensures
        forall|p: u64| !(#[trigger] m.evictable(p)),
{
}

/// Idempotent flush: flushing a page leaves it clean, so flushing it twice
/// in a row with no intervening write equals flushing it once — the second
/// call observes a clean page and changes nothing.
pub proof fn lemma_flush_idempotent(m: ManagerView, page_id: u64)
    ensures
        m.resident(page_id) ==> !m.flush_page_op(page_id).pool[page_id].dirty,
        m.flush_page_op(page_id).flush_page_op(page_id) == m.flush_page_op(page_id),
{
}

/// Allocation monotonicity: a successful allocation returns the id just past
/// the high-water mark and advances the mark by one, so successive
/// successful allocations return strictly increasing ids.
pub proof fn lemma_alloc_monotonic(m: ManagerView)
    requires
        m.num_pages < u64::MAX - 1,
    ensures
        m.with_alloc().num_pages == m.num_pages + 1,
        m.with_alloc().next_page_id() > m.next_page_id(),
{
}

/// Allocation monotonicity, the other half: no transition but allocation
/// moves the high-water mark, so a page id handed out once is never handed
/// out again, even across failures of unrelated operations.
pub proof fn lemma_num_pages_stable(m: ManagerView, page_id: u64, data: Seq<u8>)
    ensures
        m.with_write(page_id, data).num_pages == m.num_pages,
        m.with_install(page_id, data).num_pages == m.num_pages,
        m.flush_page_op(page_id).num_pages == m.num_pages,
        m.with_evict(page_id).num_pages == m.num_pages,
        m.with_pin(page_id).num_pages == m.num_pages,
        m.with_unpin(page_id).num_pages == m.num_pages,
{
}

} // verus!
