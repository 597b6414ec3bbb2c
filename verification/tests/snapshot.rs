use hyperlight_core::CoreError;
use hyperlight_core::mem::{
    ExclusiveSharedMemory, PAGE_SIZE_USIZE, SandboxMemoryManager, SharedMemory,
    SharedMemorySnapshot,
};

#[test]
fn restore_replace() {
    let mut data1 = vec![b'a', b'b', b'c'];
    data1.resize_with(PAGE_SIZE_USIZE, || 0);
    let data2 = data1.iter().map(|b| b + 1).collect::<Vec<u8>>();
    let mut gm = ExclusiveSharedMemory::new(PAGE_SIZE_USIZE).unwrap();
    gm.copy_from_slice(data1.as_slice(), 0).unwrap();
    let mut snap = SharedMemorySnapshot::new(&mut gm, 0, Vec::new()).unwrap();
    {
        // after the first snapshot is taken, make sure gm has the equivalent
        // of data1
        assert_eq!(data1, gm.copy_all_to_vec().unwrap());
    }

    {
        // modify gm with data2 rather than data1 and restore from
        // snapshot. we should have the equivalent of data1 again
        gm.copy_from_slice(data2.as_slice(), 0).unwrap();
        assert_eq!(data2, gm.copy_all_to_vec().unwrap());
        snap.restore_from_snapshot(&mut gm).unwrap();
        assert_eq!(data1, gm.copy_all_to_vec().unwrap());
    }
    {
        // modify gm with data2, then retake the snapshot and restore
        // from the new snapshot. we should have the equivalent of data2
        gm.copy_from_slice(data2.as_slice(), 0).unwrap();
        assert_eq!(data2, gm.copy_all_to_vec().unwrap());
        snap.replace_snapshot(&mut gm).unwrap();
        assert_eq!(data2, gm.copy_all_to_vec().unwrap());
        snap.restore_from_snapshot(&mut gm).unwrap();
        assert_eq!(data2, gm.copy_all_to_vec().unwrap());
    }
}

#[test]
fn snapshot_round_trip_after_mutation() {
    // A 4096-byte zeroed store holding "abc" followed by zero padding.
    let mut store = ExclusiveSharedMemory::new(4096).unwrap();
    store.copy_from_slice(b"abc", 0).unwrap();
    let mut original = vec![0u8; 4096];
    original[0] = b'a';
    original[1] = b'b';
    original[2] = b'c';
    assert_eq!(store.copy_all_to_vec().unwrap(), original);

    // Capture, then overwrite every byte with byte + 1.
    let snap = SharedMemorySnapshot::new(&mut store, 7, Vec::new()).unwrap();
    let mutated = original.iter().map(|b| b.wrapping_add(1)).collect::<Vec<u8>>();
    store.copy_from_slice(mutated.as_slice(), 0).unwrap();
    assert_eq!(store.copy_all_to_vec().unwrap(), mutated);

    // Restore: the store equals the original "abc" + zeros pattern.
    snap.restore_from_snapshot(&mut store).unwrap();
    assert_eq!(store.copy_all_to_vec().unwrap(), original);
    assert_eq!(snap.sandbox_id(), 7);
    assert_eq!(snap.mem_size(), 4096);
    assert!(snap.regions().is_empty());
}

#[test]
fn restore_twice_is_idempotent() {
    let mut store = ExclusiveSharedMemory::new(4096).unwrap();
    store.copy_from_slice(&[9u8, 8, 7], 100).unwrap();
    let snap = SharedMemorySnapshot::new(&mut store, 1, Vec::new()).unwrap();

    store.copy_from_slice(&[1u8; 4096], 0).unwrap();
    snap.restore_from_snapshot(&mut store).unwrap();
    let first = store.copy_all_to_vec().unwrap();
    snap.restore_from_snapshot(&mut store).unwrap();
    let second = store.copy_all_to_vec().unwrap();
    assert_eq!(first, second);
    assert_eq!(first[100], 9);
    assert_eq!(first[0], 0);
}

#[test]
fn allocation_rounds_to_whole_pages() {
    let store = ExclusiveSharedMemory::new(5000).unwrap();
    assert_eq!(store.mem_size(), 2 * PAGE_SIZE_USIZE);
    assert_eq!(store.copy_all_to_vec().unwrap(), vec![0u8; 2 * PAGE_SIZE_USIZE]);

    let exact = ExclusiveSharedMemory::new(PAGE_SIZE_USIZE).unwrap();
    assert_eq!(exact.mem_size(), PAGE_SIZE_USIZE);
}

#[test]
fn zero_sized_allocation_is_rejected() {
    let r = ExclusiveSharedMemory::new(0);
    assert_eq!(r.err().unwrap(), CoreError::InvalidMemorySize { requested: 0 });
}

#[test]
fn out_of_range_copy_is_a_bounds_error() {
    let mut store = ExclusiveSharedMemory::new(4096).unwrap();
    let before = store.copy_all_to_vec().unwrap();
    let r = store.copy_from_slice(&[1u8, 2, 3], 4095);
    assert_eq!(
        r.err().unwrap(),
        CoreError::OutOfBounds { offset: 4095, len: 3, size: 4096 }
    );
    // the failed copy left the store unchanged
    assert_eq!(store.copy_all_to_vec().unwrap(), before);
}

#[test]
fn manager_reads_and_writes_at_guest_addresses() {
    let store = ExclusiveSharedMemory::new(4096).unwrap();
    let mut mgr = SandboxMemoryManager::new(store, 0x1000);

    mgr.write_guest(0x1010, b"abc").unwrap();
    assert_eq!(mgr.read_guest(0x1010, 3).unwrap(), b"abc".to_vec());
    assert_eq!(mgr.read_guest(0x1013, 2).unwrap(), vec![0u8, 0]);

    // below the base, and past the end of the mapping
    let r = mgr.read_guest(0xFFF, 1);
    assert_eq!(
        r.err().unwrap(),
        CoreError::InvalidGuestAddress { guest_address: 0xFFF, len: 1 }
    );
    let r = mgr.write_guest(0x1000 + 4096, b"x");
    assert_eq!(
        r.err().unwrap(),
        CoreError::InvalidGuestAddress { guest_address: 0x1000 + 4096, len: 1 }
    );
}

#[test]
fn manager_restores_a_clean_slate_for_each_call() {
    let store = ExclusiveSharedMemory::new(4096).unwrap();
    let mut mgr = SandboxMemoryManager::new(store, 0);

    // restore before any capture is an error
    assert_eq!(mgr.restore_snapshot().err().unwrap(), CoreError::NoSnapshotTaken);

    // load the image, capture, let a call scribble, restore, repeat
    mgr.write_guest(0, b"image").unwrap();
    mgr.capture_snapshot(1, Vec::new()).unwrap();
    for _ in 0..2 {
        mgr.write_guest(0, b"SCRIBBLED").unwrap();
        assert_eq!(mgr.read_guest(0, 9).unwrap(), b"SCRIBBLED".to_vec());
        mgr.restore_snapshot().unwrap();
        assert_eq!(mgr.read_guest(0, 5).unwrap(), b"image".to_vec());
        assert_eq!(mgr.read_guest(5, 4).unwrap(), vec![0u8; 4]);
    }
}
