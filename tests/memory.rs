use treasureos::memory::{allocate, init, BumpAllocator, FRAME_BASE};

#[test]
fn allocate_scenario_from_base() {
    let mut a = BumpAllocator::new();
    assert_eq!(a.next_free(), 0x0100_0000);
    assert_eq!(allocate(&mut a, 0x10), 0x0100_0000);
    assert_eq!(allocate(&mut a, 0x20), 0x0100_0010);
    assert_eq!(a.next_free(), 0x0100_0030);
}

#[test]
fn allocate_sequence_is_prefix_sums() {
    init();
    let sizes = [4096usize, 1, 7, 300, 4096];
    let mut a = BumpAllocator::new();
    let mut expected = FRAME_BASE;
    let mut prev: Option<(usize, usize)> = None;
    for &size in sizes.iter() {
        let addr = allocate(&mut a, size);
        assert_eq!(addr, expected);
        if let Some((p, s)) = prev {
            assert!(p < addr);
            assert!(p + s <= addr);
        }
        prev = Some((addr, size));
        expected += size;
    }
    assert_eq!(a.next_free(), FRAME_BASE + 4096 + 1 + 7 + 300 + 4096);
}

#[test]
fn allocate_zero_does_not_move() {
    let mut a = BumpAllocator::new();
    assert_eq!(allocate(&mut a, 0), FRAME_BASE);
    assert_eq!(allocate(&mut a, 0), FRAME_BASE);
    assert_eq!(allocate(&mut a, 8), FRAME_BASE);
    assert_eq!(a.next_free(), FRAME_BASE + 8);
}

#[test]
fn allocate_wraps_past_top_of_address_space() {
    let mut a = BumpAllocator::new();
    let size = usize::MAX - FRAME_BASE + 1;
    assert_eq!(allocate(&mut a, size), FRAME_BASE);
    assert_eq!(a.next_free(), 0);
    assert_eq!(allocate(&mut a, 5), 0);
    assert_eq!(a.next_free(), 5);
}
