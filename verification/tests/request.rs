use virtio_block::block::{
    init, read, BlockDevice, Data, Header, Registry, Request, Status, Submission,
    HEADER_SIZE, NOTIFY_QUEUE, REQUEST_SIZE, REQUEST_STATUS_OFFSET, SECTOR_SIZE, VIRTIO_BLK_S_OK,
    VIRTIO_BLK_T_IN, VIRTIO_BLK_T_OUT,
};
use virtio_block::virtio::{
    Action, Descriptor, MmioOffsets, Queue, VIRTIO_DESC_F_NEXT, VIRTIO_DESC_F_WRITE,
};

const RING: u64 = 0x8020_0000;
const REGS: u64 = 0x1000_8000;
const REQ: u64 = 0x8030_0040;
const BUF: u64 = 0x8040_0000;

fn registry_with(devices: Vec<BlockDevice>) -> Registry {
    let mut registry = Registry::new();
    assert!(registry.replace(devices).is_none());
    registry
}

fn one_device(capacity: u16, cursor: u16) -> Registry {
    registry_with(vec![BlockDevice::new(Queue::new(capacity), RING, REGS, cursor)])
}

fn doorbell() -> Action {
    Action::Write { register: MmioOffsets::QueueNotify, value: 0 }
}

#[test]
fn read_of_one_sector_on_a_ring_of_eight() {
    let mut registry = one_device(8, 0);
    let sub = read(&mut registry, 0, REQ, BUF, 512, 1024).expect("the slot is full");

    assert_eq!(sub.request.header.sector, 2);
    assert_eq!(sub.request.header.blktype, VIRTIO_BLK_T_IN);
    assert_eq!(sub.request.header.reserved, 0);
    assert_eq!(sub.request.data.data, BUF);
    assert_eq!(sub.request.head, 1);
    assert_eq!(sub.data_idx, 2);
    assert_eq!(sub.status_idx, 3);
    assert_eq!(sub.avail_slot, 0);
    assert_eq!(sub.notify, doorbell());

    let bd = registry.get(0).unwrap();
    assert_eq!(bd.idx(), 3);
    let q = bd.queue();
    assert_eq!(q.desc(0), Descriptor::zero());
    assert_eq!(
        q.desc(1),
        Descriptor { addr: REQ, len: 16, flags: VIRTIO_DESC_F_NEXT, next: 2 }
    );
    assert_eq!(
        q.desc(2),
        Descriptor {
            addr: BUF,
            len: 512,
            flags: VIRTIO_DESC_F_NEXT | VIRTIO_DESC_F_WRITE,
            next: 3
        }
    );
    assert_eq!(
        q.desc(3),
        Descriptor { addr: REQ + 24, len: 1, flags: VIRTIO_DESC_F_WRITE, next: 0 }
    );
    for i in 4..8u16 {
        assert_eq!(q.desc(i), Descriptor::zero());
    }
    assert_eq!(q.avail().ring(0), 1);
    assert_eq!(q.avail().idx(), 1);
    for i in 1..8u16 {
        assert_eq!(q.avail().ring(i), 0);
    }
}

#[test]
fn read_tells_the_caller_everything() {
    let mut registry = one_device(8, 0);
    let sub = read(&mut registry, 0, REQ, BUF, 512, 1024);
    assert_eq!(
        sub,
        Some(Submission {
            request: Request {
                header: Header { blktype: 0, reserved: 0, sector: 2 },
                data: Data { data: BUF },
                status: Status { status: VIRTIO_BLK_S_OK },
                head: 1,
            },
            data_idx: 2,
            status_idx: 3,
            avail_slot: 0,
            notify: Action::Write { register: MmioOffsets::QueueNotify, value: NOTIFY_QUEUE },
        })
    );
}

#[test]
fn read_chain_has_three_descriptors_linked_from_the_head() {
    let mut registry = one_device(8, 4);
    let sub = read(&mut registry, 0, REQ, BUF, 4096, 0).unwrap();
    let q = registry.get(0).unwrap().queue();
    let mut at = sub.request.head;
    let mut seen = Vec::new();
    loop {
        let d = q.desc(at);
        seen.push(d);
        if !d.is_chained() {
            break;
        }
        at = d.next;
    }
    assert_eq!(seen.len(), 3);
    assert_eq!(sub.request.head, 5);
    assert_eq!((seen[0].addr, seen[0].len), (REQ, HEADER_SIZE));
    assert!(!seen[0].is_device_writable());
    assert_eq!((seen[1].addr, seen[1].len), (BUF, 4096));
    assert!(seen[1].is_device_writable());
    assert_eq!((seen[2].addr, seen[2].len), (REQ + REQUEST_STATUS_OFFSET, 1));
    assert!(seen[2].is_device_writable());
    assert!(!seen[2].is_chained());
}

#[test]
fn read_chain_wraps_round_the_ring() {
    let mut registry = one_device(8, 6);
    let sub = read(&mut registry, 0, REQ, BUF, 512, 512).unwrap();
    assert_eq!(sub.request.head, 7);
    assert_eq!(sub.data_idx, 0);
    assert_eq!(sub.status_idx, 1);
    let bd = registry.get(0).unwrap();
    assert_eq!(bd.idx(), 1);
    assert_eq!(bd.queue().desc(7).next, 0);
    assert_eq!(bd.queue().desc(0).next, 1);
    assert_eq!(bd.queue().desc(1).addr, REQ + 24);
    assert_eq!(bd.queue().avail().ring(0), 7);
}

#[test]
fn sector_is_the_offset_divided_by_512() {
    assert_eq!(SECTOR_SIZE, 512);
    for (offset, sector) in [
        (0usize, 0u64),
        (1, 0),
        (511, 0),
        (512, 1),
        (513, 1),
        (1023, 1),
        (1024, 2),
        (1_000_000, 1953),
        (usize::MAX, (usize::MAX / 512) as u64),
    ] {
        let mut registry = one_device(8, 0);
        let sub = read(&mut registry, 0, REQ, BUF, 512, offset).unwrap();
        assert_eq!(sub.request.header.sector, sector);
        let mut registry = one_device(8, 0);
        let sub = virtio_block::block::write(&mut registry, 0, REQ, BUF, 512, offset).unwrap();
        assert_eq!(sub.request.header.sector, sector);
    }
}

#[test]
fn producer_index_advances_by_one_per_request() {
    let mut registry = one_device(8, 0);
    for k in 0..20u16 {
        let before = registry.get(0).unwrap().queue().avail().idx();
        assert_eq!(before, k % 8);
        let sub = if k % 2 == 0 {
            read(&mut registry, 0, REQ, BUF, 512, 0).unwrap()
        } else {
            virtio_block::block::write(&mut registry, 0, REQ, BUF, 512, 0).unwrap()
        };
        let q = registry.get(0).unwrap().queue();
        assert_eq!(sub.avail_slot, before);
        assert_eq!(q.avail().idx(), (before + 1) % 8);
        assert_eq!(q.avail().ring(before), sub.request.head);
        assert_eq!(sub.request.head, (3 * k + 1) % 8);
        assert_eq!(registry.get(0).unwrap().idx(), (3 * k + 3) % 8);
    }
}

#[test]
fn producer_index_wraps_to_zero() {
    let mut registry = one_device(2, 0);
    read(&mut registry, 0, REQ, BUF, 512, 0).unwrap();
    assert_eq!(registry.get(0).unwrap().queue().avail().idx(), 1);
    read(&mut registry, 0, REQ, BUF, 512, 0).unwrap();
    assert_eq!(registry.get(0).unwrap().queue().avail().idx(), 0);
}

#[test]
fn read_while_the_slot_is_held_does_nothing() {
    let mut registry = one_device(8, 0);
    let held = registry.take().expect("the first caller gets the devices");
    assert!(!registry.is_available());

    let second = read(&mut registry, 0, REQ, BUF, 512, 1024);
    assert_eq!(second, None);
    assert!(!registry.is_available());
    assert!(registry.get(0).is_none());

    let bd = &held[0];
    assert_eq!(bd.idx(), 0);
    assert_eq!(bd.queue().avail().idx(), 0);
    for i in 0..8u16 {
        assert_eq!(bd.queue().desc(i), Descriptor::zero());
        assert_eq!(bd.queue().avail().ring(i), 0);
    }

    assert!(registry.replace(held).is_none());
    assert!(registry.is_available());
    assert_eq!(registry.get(0).unwrap().idx(), 0);
    assert!(read(&mut registry, 0, REQ, BUF, 512, 1024).is_some());
}

#[test]
fn write_while_the_slot_is_held_does_nothing() {
    let mut registry = one_device(8, 0);
    let held = registry.take().unwrap();
    assert_eq!(virtio_block::block::write(&mut registry, 0, REQ, BUF, 512, 1024), None);
    assert!(!registry.is_available());
    assert_eq!(held[0].idx(), 0);
    assert_eq!(held[0].queue().avail().idx(), 0);
}

#[test]
fn read_before_init_does_nothing() {
    let mut registry = Registry::new();
    assert_eq!(read(&mut registry, 0, REQ, BUF, 512, 0), None);
    assert_eq!(virtio_block::block::write(&mut registry, 3, REQ, BUF, 512, 0), None);
    assert!(!registry.is_available());
    assert_eq!(registry.len(), 0);
}

#[test]
fn write_chain_lets_the_device_read_the_buffer() {
    let mut registry = one_device(8, 0);
    let sub = virtio_block::block::write(&mut registry, 0, REQ, BUF, 1536, 2048).unwrap();
    assert_eq!(
        sub,
        Submission {
            request: Request {
                header: Header { blktype: VIRTIO_BLK_T_OUT, reserved: 0, sector: 4 },
                data: Data { data: BUF },
                status: Status { status: 0 },
                head: 1,
            },
            data_idx: 2,
            status_idx: 3,
            avail_slot: 0,
            notify: doorbell(),
        }
    );
    let q = registry.get(0).unwrap().queue();
    assert_eq!(
        q.desc(1),
        Descriptor { addr: REQ, len: 16, flags: VIRTIO_DESC_F_NEXT, next: 2 }
    );
    assert_eq!(
        q.desc(2),
        Descriptor { addr: BUF, len: 1536, flags: VIRTIO_DESC_F_NEXT, next: 3 }
    );
    assert_eq!(q.desc(3), Descriptor { addr: REQ + 24, len: 1, flags: 0, next: 0 });
    assert!(!q.desc(2).is_device_writable());
    assert!(!q.desc(3).is_chained());
    assert_eq!(q.avail().ring(0), 1);
    assert_eq!(q.avail().idx(), 1);
    assert_eq!(registry.get(0).unwrap().idx(), 3);
}

#[test]
fn requests_go_to_the_device_that_was_named() {
    let mut registry = registry_with(vec![
        BlockDevice::new(Queue::new(8), RING, REGS, 0),
        BlockDevice::new(Queue::new(4), RING + 0x2000, REGS + 0x1000, 2),
    ]);
    assert_eq!(registry.len(), 2);
    let sub = read(&mut registry, 1, REQ, BUF, 512, 0).unwrap();
    assert_eq!(sub.request.head, 3);
    assert_eq!(sub.data_idx, 0);
    assert_eq!(sub.status_idx, 1);

    let first = registry.get(0).unwrap();
    assert_eq!(first.idx(), 0);
    assert_eq!(first.queue().avail().idx(), 0);
    assert_eq!(first.queue().desc(1), Descriptor::zero());
    assert_eq!(first.queue_addr(), RING);

    let second = registry.get(1).unwrap();
    assert_eq!(second.idx(), 1);
    assert_eq!(second.queue().avail().idx(), 1);
    assert_eq!(second.queue().avail().ring(0), 3);
    assert_eq!(second.queue_addr(), RING + 0x2000);
    assert_eq!(second.dev(), REGS + 0x1000);
    assert!(registry.get(2).is_none());
}

#[test]
fn chains_collide_on_a_ring_that_is_too_small() {
    // Nothing guards against reuse: on two slots the status descriptor
    // lands on the header's slot.
    let mut registry = one_device(2, 0);
    let sub = read(&mut registry, 0, REQ, BUF, 512, 0).unwrap();
    assert_eq!((sub.request.head, sub.data_idx, sub.status_idx), (1, 0, 1));
    let q = registry.get(0).unwrap().queue();
    assert_eq!(
        q.desc(1),
        Descriptor { addr: REQ + 24, len: 1, flags: VIRTIO_DESC_F_WRITE, next: 0 }
    );
    assert_eq!(q.desc(0).addr, BUF);
    assert_eq!(q.desc(0).next, 1);
}

#[test]
fn init_fills_the_slot_with_no_devices() {
    let mut registry = Registry::new();
    assert!(!registry.is_available());
    init(&mut registry);
    assert!(registry.is_available());
    assert_eq!(registry.len(), 0);
    assert!(registry.get(0).is_none());
}

#[test]
fn init_drops_the_devices_that_were_there() {
    let mut registry = one_device(8, 0);
    assert_eq!(registry.len(), 1);
    init(&mut registry);
    assert!(registry.is_available());
    assert_eq!(registry.len(), 0);
}

#[test]
fn take_and_replace_hand_the_devices_over() {
    let mut registry = one_device(8, 0);
    let devices = registry.take().unwrap();
    assert_eq!(devices.len(), 1);
    assert!(registry.take().is_none());
    let previous = registry.replace(Vec::new());
    assert!(previous.is_none());
    let previous = registry.replace(devices).unwrap();
    assert_eq!(previous.len(), 0);
    assert_eq!(registry.len(), 1);
}

#[test]
fn request_record_constants() {
    assert_eq!(HEADER_SIZE, 16);
    assert_eq!(REQUEST_SIZE, 32);
    assert_eq!(REQUEST_STATUS_OFFSET, 24);
    assert_eq!(NOTIFY_QUEUE, 0);
}

#[test]
fn request_at_the_end_of_the_address_space() {
    let last = u64::MAX - REQUEST_SIZE;
    let mut registry = one_device(8, 0);
    read(&mut registry, 0, last, BUF, 512, 0).unwrap();
    assert_eq!(registry.get(0).unwrap().queue().desc(3).addr, u64::MAX - 8);
}

#[test]
fn write_of_the_largest_size() {
    let mut registry = one_device(8, 0);
    virtio_block::block::write(&mut registry, 0, REQ, BUF, u32::MAX as usize, 0).unwrap();
    assert_eq!(registry.get(0).unwrap().queue().desc(2).len, u32::MAX);
}
