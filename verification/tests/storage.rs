use board_core::storage::Storage;

#[test]
fn storage_reserve_and_finalize_round_trip() {
    let mut block: Storage<u32> = Storage::new(3);
    assert_eq!(block.capacity(), 3);
    assert_eq!(block.reserved(), 0);

    let slot = block.reserve().unwrap();
    assert_eq!(slot.index(), 0);
    assert_eq!(block.reserved(), 1);

    let handle = block.finalize(slot, 42);
    assert_eq!(handle.index(), 0);
    assert!(block.is_filled(handle));
    assert_eq!(*block.get(handle), 42);
}

#[test]
fn storage_block_is_fixed_size() {
    let mut block: Storage<u8> = Storage::new(2);
    assert!(block.reserve().is_some());
    assert!(block.reserve().is_some());
    // The block was built for exactly two drivers: no third slot exists.
    assert!(block.reserve().is_none());
    assert!(block.reserve().is_none());
}

#[test]
fn storage_earlier_cells_survive_later_finalizes() {
    let mut block: Storage<u32> = Storage::new(3);
    let s0 = block.reserve().unwrap();
    let s1 = block.reserve().unwrap();
    let s2 = block.reserve().unwrap();

    let h0 = block.finalize(s0, 10);
    let h1 = block.finalize(s1, 20);
    assert_eq!(*block.get(h0), 10);

    let h2 = block.finalize(s2, 30);
    // The handles still name the same drivers after every later finalize.
    assert_eq!(*block.get(h0), 10);
    assert_eq!(*block.get(h1), 20);
    assert_eq!(*block.get(h2), 30);
    assert_eq!(h0.index(), 0);
    assert_eq!(h1.index(), 1);
    assert_eq!(h2.index(), 2);
}

#[test]
fn storage_out_of_order_finalize() {
    let mut block: Storage<u32> = Storage::new(2);
    let s0 = block.reserve().unwrap();
    let s1 = block.reserve().unwrap();

    // Finalizing the second slot first leaves the first cell untouched.
    let h1 = block.finalize(s1, 7);
    assert_eq!(h1.index(), 1);
    assert_eq!(*block.get(h1), 7);

    let h0 = block.finalize(s0, 3);
    assert_eq!(h0.index(), 0);
    assert_eq!(*block.get(h0), 3);
    assert_eq!(*block.get(h1), 7);
}

#[test]
fn storage_get_mut_changes_only_its_cell() {
    let mut block: Storage<u32> = Storage::new(2);
    let s0 = block.reserve().unwrap();
    let s1 = block.reserve().unwrap();
    let h0 = block.finalize(s0, 1);
    let h1 = block.finalize(s1, 2);

    *block.get_mut(h0) = 100;
    assert_eq!(*block.get(h0), 100);
    assert_eq!(*block.get(h1), 2);
}
