use virtio_block::block::{fill_next_descriptor, BlockDevice};
use virtio_block::virtio::{
    next_index, Descriptor, Queue, DESCRIPTOR_SIZE, PAGE_SIZE, VIRTIO_DESC_F_NEXT,
    VIRTIO_DESC_F_WRITE, VIRTIO_RING_SIZE,
};

fn device(capacity: u16, cursor: u16) -> BlockDevice {
    BlockDevice::new(Queue::new(capacity), 0x8020_0000, 0x1000_8000, cursor)
}

fn plain(addr: u64) -> Descriptor {
    Descriptor { addr, len: 7, flags: VIRTIO_DESC_F_WRITE, next: 0 }
}

fn chained(addr: u64) -> Descriptor {
    Descriptor { addr, len: 9, flags: VIRTIO_DESC_F_NEXT, next: 0 }
}

#[test]
fn new_queue_is_zeroed() {
    let q = Queue::new(8);
    assert_eq!(q.capacity(), 8);
    for i in 0..8u16 {
        assert_eq!(q.desc(i), Descriptor { addr: 0, len: 0, flags: 0, next: 0 });
        assert_eq!(q.avail().ring(i), 0);
    }
    assert_eq!(q.avail().idx(), 0);
    assert_eq!(q.avail().flags(), 0);
    assert_eq!(q.avail().event(), 0);
    assert_eq!(q.avail().len(), 8);
}

#[test]
fn new_device_keeps_what_it_was_given() {
    let bd = device(8, 5);
    assert_eq!(bd.idx(), 5);
    assert_eq!(bd.queue_addr(), 0x8020_0000);
    assert_eq!(bd.dev(), 0x1000_8000);
    assert_eq!(bd.queue().capacity(), 8);
}

#[test]
fn next_index_counts_and_wraps() {
    assert_eq!(next_index(0, 8), 1);
    assert_eq!(next_index(6, 8), 7);
    assert_eq!(next_index(7, 8), 0);
    assert_eq!(next_index(0, 1), 0);
    assert_eq!(next_index(65535, 65535), 1);
    assert_eq!(next_index(65534, 65535), 0);
    assert_eq!(next_index(200, 128), 73);
}

#[test]
fn fill_advances_cursor_by_one() {
    let mut bd = device(8, 0);
    assert_eq!(fill_next_descriptor(&mut bd, plain(0x100)), 1);
    assert_eq!(bd.idx(), 1);
    assert_eq!(fill_next_descriptor(&mut bd, plain(0x200)), 2);
    assert_eq!(bd.idx(), 2);
    assert_eq!(bd.queue().desc(1), plain(0x100));
    assert_eq!(bd.queue().desc(2), plain(0x200));
    assert_eq!(bd.queue().desc(0), Descriptor::zero());
    assert_eq!(bd.queue().desc(3), Descriptor::zero());
}

#[test]
fn fill_links_a_chained_descriptor_to_the_next_slot() {
    let mut bd = device(8, 3);
    let idx = fill_next_descriptor(&mut bd, chained(0x4000));
    assert_eq!(idx, 4);
    assert_eq!(
        bd.queue().desc(4),
        Descriptor { addr: 0x4000, len: 9, flags: VIRTIO_DESC_F_NEXT, next: 5 }
    );
}

#[test]
fn fill_leaves_next_of_an_unchained_descriptor() {
    let mut bd = device(8, 3);
    let d = Descriptor { addr: 0x4000, len: 1, flags: VIRTIO_DESC_F_WRITE, next: 77 };
    let idx = fill_next_descriptor(&mut bd, d);
    assert_eq!(idx, 4);
    assert_eq!(bd.queue().desc(4), d);
}

#[test]
fn fill_overwrites_next_of_a_chained_descriptor() {
    let mut bd = device(8, 0);
    let d = Descriptor { addr: 1, len: 1, flags: VIRTIO_DESC_F_NEXT | VIRTIO_DESC_F_WRITE, next: 77 };
    fill_next_descriptor(&mut bd, d);
    assert_eq!(bd.queue().desc(1).next, 2);
    assert_eq!(bd.queue().desc(1).flags, 3);
}

#[test]
fn fill_wraps_at_the_end_of_the_ring() {
    let mut bd = device(8, 6);
    assert_eq!(fill_next_descriptor(&mut bd, chained(0xa)), 7);
    assert_eq!(bd.queue().desc(7).next, 0);
    assert_eq!(fill_next_descriptor(&mut bd, plain(0xb)), 0);
    assert_eq!(bd.idx(), 0);
    assert_eq!(bd.queue().desc(0), plain(0xb));
}

#[test]
fn allocation_comes_round_after_a_full_turn() {
    let mut bd = device(8, 0);
    let first = fill_next_descriptor(&mut bd, plain(0));
    let mut last = first;
    for k in 1..9u64 {
        last = fill_next_descriptor(&mut bd, plain(k));
    }
    assert_eq!(first, 1);
    assert_eq!(last, first);
    assert_eq!(bd.queue().desc(1), plain(8));
}

#[test]
fn allocation_comes_round_from_any_cursor() {
    for capacity in [1u16, 2, 3, 8, 128] {
        for cursor in [0u16, 1, 5, 127, 4000] {
            let mut bd = device(capacity, cursor);
            let first = fill_next_descriptor(&mut bd, plain(0));
            let mut last = first;
            for _ in 0..capacity {
                last = fill_next_descriptor(&mut bd, plain(1));
            }
            assert!(first < capacity);
            assert_eq!(last, first);
        }
    }
}

#[test]
fn ring_of_one_slot_reuses_it() {
    let mut bd = device(1, 0);
    assert_eq!(fill_next_descriptor(&mut bd, chained(0x10)), 0);
    assert_eq!(bd.queue().desc(0).next, 0);
    assert_eq!(fill_next_descriptor(&mut bd, plain(0x20)), 0);
    assert_eq!(bd.queue().desc(0), plain(0x20));
}

#[test]
fn fill_does_not_touch_the_available_ring() {
    let mut bd = device(8, 0);
    fill_next_descriptor(&mut bd, chained(0x10));
    fill_next_descriptor(&mut bd, plain(0x20));
    assert_eq!(bd.queue().avail().idx(), 0);
    for i in 0..8u16 {
        assert_eq!(bd.queue().avail().ring(i), 0);
    }
}

#[test]
fn ring_layout_offsets() {
    assert_eq!(DESCRIPTOR_SIZE, 16);
    assert_eq!(Queue::desc_offset(0), 0);
    assert_eq!(Queue::desc_offset(3), 48);
    assert_eq!(Queue::desc_offset(65535), 1048560);
    assert_eq!(Queue::avail_idx_offset(8), 130);
    assert_eq!(Queue::avail_ring_offset(8, 0), 132);
    assert_eq!(Queue::avail_ring_offset(8, 5), 142);
    assert_eq!(Queue::avail_idx_offset(128), 2050);
    assert_eq!(Queue::avail_ring_offset(128, 127), 2306);
}

#[test]
fn ring_pages() {
    assert_eq!(PAGE_SIZE, 4096);
    assert_eq!(VIRTIO_RING_SIZE, 128);
    // 128 slots: 2310 bytes for the driver's part, the used ring from 4096 to 5126.
    assert_eq!(Queue::pages(128), 2);
    assert_eq!(Queue::pages(8), 2);
    assert_eq!(Queue::pages(1), 2);
    // 227 slots: 4092 bytes for the driver's part; 228 slots: 4110.
    assert_eq!(Queue::pages(227), 2);
    assert_eq!(Queue::pages(228), 3);
    // 511 slots: the used ring takes 4094 bytes; 512 slots: 4102.
    assert_eq!(Queue::pages(511), 4);
    assert_eq!(Queue::pages(512), 5);
    assert_eq!(Queue::pages(65535), 416);
}

#[test]
fn descriptor_flags() {
    assert!(chained(0).is_chained());
    assert!(!chained(0).is_device_writable());
    assert!(!plain(0).is_chained());
    assert!(plain(0).is_device_writable());
    assert!(!Descriptor::zero().is_chained());
    let both = Descriptor { addr: 0, len: 0, flags: 3, next: 0 };
    assert!(both.is_chained() && both.is_device_writable());
    let other = Descriptor { addr: 0, len: 0, flags: 4, next: 0 };
    assert!(!other.is_chained() && !other.is_device_writable());
}
