use skibidb::DBError;
use skibidb::DBResult;
use skibidb::FileManager;
use skibidb::StorageError;

fn is_invalid_argument(e: &DBError) -> bool {
    matches!(e, DBError::StorageError(StorageError::InvalidArgument(_)))
}

fn is_buffer_pool_full(e: &DBError) -> bool {
    matches!(e, DBError::StorageError(StorageError::BufferPoolFull(_)))
}

fn is_unknown_page(e: &DBError) -> bool {
    matches!(e, DBError::StorageError(StorageError::UnknownPage(_)))
}

#[test]
fn test_file_manager_new_valid() -> DBResult<()> {
    let _ = FileManager::new("fm_test.db", 4092, 100, 0)?;

    Ok(())
}

#[test]
fn test_file_manager_new_errs() {
    // Test that an empty string is an invalid input
    let result = FileManager::new("", 4092, 100, 0);
    assert!(result.is_err());

    // Test page size
    let result = FileManager::new("fm_test.db", 0, 402, 0);
    assert!(result.is_err());

    // Test max_pages_in_pool
    let result = FileManager::new("fm_test.db", 4092, 0, 0);
    assert!(result.is_err());
}

#[test]
fn validation_reports_invalid_argument() {
    let e = FileManager::new("", 4092, 100, 0).err().unwrap();
    assert!(is_invalid_argument(&e));
    let e = FileManager::new("fm_test.db", 0, 402, 0).err().unwrap();
    assert!(is_invalid_argument(&e));
    let e = FileManager::new("fm_test.db", 4092, 0, 0).err().unwrap();
    assert!(is_invalid_argument(&e));
}

#[test]
fn new_computes_num_pages_from_file_length() {
    // 3 whole pages plus a trailing partial page, which is ignored.
    let fm = FileManager::new("fm_test.db", 4, 100, 14).unwrap();
    assert_eq!(fm.num_pages(), 3);
    assert_eq!(fm.page_size(), 4);
    assert_eq!(fm.max_pages_in_pool(), 100);
    assert_eq!(fm.pool_len(), 0);
    assert_eq!(fm.file_path().as_str(), "fm_test.db");
}

#[test]
fn write_then_read_round_trip() {
    let mut fm = FileManager::new("fm_test.db", 4, 2, 0).unwrap();
    let data = vec![10u8, 20, 30, 40];
    fm.write_page_to_pool(1, &data).unwrap();
    assert_eq!(fm.read_page(1).unwrap(), &data);
}

#[test]
fn write_overwrites_whole_page() {
    let mut fm = FileManager::new("fm_test.db", 3, 2, 0).unwrap();
    fm.write_page_to_pool(5, &[1, 2, 3]).unwrap();
    fm.write_page_to_pool(5, &[9, 8, 7]).unwrap();
    assert_eq!(fm.read_page(5).unwrap(), &vec![9u8, 8, 7]);
}

#[test]
fn invalid_write_rejected_and_page_unchanged() {
    let mut fm = FileManager::new("fm_test.db", 4, 2, 0).unwrap();
    let data = vec![1u8, 2, 3, 4];
    fm.write_page_to_pool(1, &data).unwrap();

    // Too short and too long are both rejected before any mutation.
    let e = fm.write_page_to_pool(1, &[1, 2, 3]).err().unwrap();
    assert!(is_invalid_argument(&e));
    let e = fm.write_page_to_pool(1, &[1, 2, 3, 4, 5]).err().unwrap();
    assert!(is_invalid_argument(&e));

    // The resident page is byte-for-byte unchanged.
    assert_eq!(fm.read_page(1).unwrap(), &data);
}

#[test]
fn read_absent_page_reports_unknown_page() {
    let fm = FileManager::new("fm_test.db", 4, 2, 0).unwrap();
    let e = fm.read_page(42).err().unwrap();
    assert!(is_unknown_page(&e));
}

#[test]
fn write_to_full_pool_reports_buffer_pool_full() {
    let mut fm = FileManager::new("fm_test.db", 2, 1, 0).unwrap();
    fm.write_page_to_pool(1, &[1, 1]).unwrap();
    let e = fm.write_page_to_pool(2, &[2, 2]).err().unwrap();
    assert!(is_buffer_pool_full(&e));
    // The resident page survived the failed write untouched.
    assert_eq!(fm.read_page(1).unwrap(), &vec![1u8, 1]);
}

#[test]
fn flush_is_idempotent() {
    let mut fm = FileManager::new("fm_test.db", 2, 2, 0).unwrap();
    fm.write_page_to_pool(1, &[7, 7]).unwrap();

    // The first flush sees the dirty bytes and cleans the page.
    assert_eq!(fm.dirty_page_bytes(1), Some(&vec![7u8, 7]));
    fm.mark_flushed(1);
    // The second flush observes a clean page: nothing to write.
    assert_eq!(fm.dirty_page_bytes(1), None);
    fm.mark_flushed(1);
    assert_eq!(fm.dirty_page_bytes(1), None);
    // The page's bytes are still served from the pool.
    assert_eq!(fm.read_page(1).unwrap(), &vec![7u8, 7]);
}

#[test]
fn persistence_across_reopen() {
    // Write and flush page 1, as the shell would before closing the file.
    let mut fm = FileManager::new("fm_test.db", 4, 2, 0).unwrap();
    let data = vec![4u8, 3, 2, 1];
    fm.write_page_to_pool(1, &data).unwrap();
    let flushed = fm.dirty_page_bytes(1).unwrap().clone();
    fm.mark_flushed(1);
    assert_eq!(flushed, data);

    // Reopen on the same (one-page) file: the shell reads the flushed bytes
    // back from disk and installs them; the read returns the written bytes.
    let mut fm2 = FileManager::new("fm_test.db", 4, 2, 8).unwrap();
    fm2.install_page(1, flushed);
    assert_eq!(fm2.read_page(1).unwrap(), &data);
}

#[test]
fn eviction_with_capacity_one_replaces_the_page() {
    let mut fm = FileManager::new("fm_test.db", 2, 1, 0).unwrap();
    fm.write_page_to_pool(1, &[5, 6]).unwrap();

    // Loading page 2 needs room: the only candidate is page 1.
    assert_eq!(fm.select_victim().unwrap(), 1);
    // Page 1 is dirty, so its bytes must reach the disk before removal.
    let evicted = fm.dirty_page_bytes(1).unwrap().clone();
    assert_eq!(evicted, vec![5u8, 6]);
    fm.mark_flushed(1);
    fm.remove_page(1);
    fm.install_page(2, vec![8, 9]);

    assert_eq!(fm.pool_len(), 1);
    assert!(!fm.contains_page(1));
    assert_eq!(fm.read_page(2).unwrap(), &vec![8u8, 9]);

    // Reloading page 1 from disk returns its last flushed content.
    assert_eq!(fm.select_victim().unwrap(), 2);
    fm.remove_page(2);
    fm.install_page(1, evicted);
    assert_eq!(fm.read_page(1).unwrap(), &vec![5u8, 6]);
}

#[test]
fn pinned_page_is_never_the_victim() {
    let mut fm = FileManager::new("fm_test.db", 2, 1, 0).unwrap();
    fm.write_page_to_pool(1, &[5, 6]).unwrap();
    fm.pin_page(1).unwrap();

    // The pool is full and its only page is pinned: nothing can be evicted,
    // so a load that needs room must fail with BufferPoolFull.
    let e = fm.select_victim().err().unwrap();
    assert!(is_buffer_pool_full(&e));
    assert!(fm.contains_page(1));

    // Unpinning makes the page evictable again.
    assert_eq!(fm.unpin_page(1), Some(0));
    assert_eq!(fm.select_victim().unwrap(), 1);
}

#[test]
fn pin_and_unpin_track_the_count() {
    let mut fm = FileManager::new("fm_test.db", 2, 2, 0).unwrap();
    fm.write_page_to_pool(1, &[0, 0]).unwrap();
    fm.pin_page(1).unwrap();
    fm.pin_page(1).unwrap();
    assert_eq!(fm.unpin_page(1), Some(1));
    assert_eq!(fm.unpin_page(1), Some(0));
    // Unpinning an unpinned page never goes negative.
    assert_eq!(fm.unpin_page(1), Some(0));
}

#[test]
fn pin_absent_page_reports_unknown_page() {
    let mut fm = FileManager::new("fm_test.db", 2, 2, 0).unwrap();
    let e = fm.pin_page(9).err().unwrap();
    assert!(is_unknown_page(&e));
}

#[test]
fn unpin_absent_page_returns_none() {
    let mut fm = FileManager::new("fm_test.db", 2, 2, 0).unwrap();
    assert_eq!(fm.unpin_page(9), None);
}

#[test]
fn allocation_returns_strictly_increasing_ids() {
    let mut fm = FileManager::new("fm_test.db", 2, 3, 0).unwrap();
    assert_eq!(fm.allocate_page().unwrap(), 1);
    assert_eq!(fm.allocate_page().unwrap(), 2);
    assert_eq!(fm.allocate_page().unwrap(), 3);
    assert_eq!(fm.num_pages(), 3);

    // A fresh page is zero-filled and dirty until flushed.
    assert_eq!(fm.read_page(3).unwrap(), &vec![0u8, 0]);
    assert_eq!(fm.dirty_page_bytes(3), Some(&vec![0u8, 0]));

    // The high-water mark has reached the pool bound: allocation now fails,
    // and the mark does not move, so no id is ever reused.
    let e = fm.allocate_page().err().unwrap();
    assert!(is_buffer_pool_full(&e));
    assert_eq!(fm.num_pages(), 3);
}

#[test]
fn failed_operations_do_not_move_the_high_water_mark() {
    let mut fm = FileManager::new("fm_test.db", 2, 2, 0).unwrap();
    assert_eq!(fm.allocate_page().unwrap(), 1);
    let _ = fm.write_page_to_pool(1, &[1]).err().unwrap();
    let _ = fm.read_page(7).err().unwrap();
    let _ = fm.pin_page(7).err().unwrap();
    assert_eq!(fm.num_pages(), 1);
    assert_eq!(fm.allocate_page().unwrap(), 2);
}

#[test]
fn page_ids_lists_each_resident_page_once() {
    let mut fm = FileManager::new("fm_test.db", 2, 3, 0).unwrap();
    fm.write_page_to_pool(4, &[0, 1]).unwrap();
    fm.write_page_to_pool(2, &[2, 3]).unwrap();
    let mut ids = fm.page_ids();
    ids.sort();
    assert_eq!(ids, vec![2, 4]);
}
