//! The block device: its configuration records, the registry of devices,
//! descriptor allocation and the submission of sector reads and writes.

use crate::virtio::{
    next_index, Action, Descriptor, MmioOffsets, Queue, QueueView, VIRTIO_DESC_F_NEXT,
    VIRTIO_DESC_F_WRITE,
};
use crate::wire::{le_bytes, lemma_le_bytes_len, put_le};
use vstd::prelude::*;

verus! {

// Request types.
pub const VIRTIO_BLK_T_IN: u32 = 0;

pub const VIRTIO_BLK_T_OUT: u32 = 1;

pub const VIRTIO_BLK_T_FLUSH: u32 = 4;

pub const VIRTIO_BLK_T_DISCARD: u32 = 11;

pub const VIRTIO_BLK_T_WRITE_ZEROES: u32 = 13;

// Status values that the device reports.
pub const VIRTIO_BLK_S_OK: u8 = 0;

pub const VIRTIO_BLK_S_IOERR: u8 = 1;

pub const VIRTIO_BLK_S_UNSUPP: u8 = 2;

// Feature bits, by position in the feature word.
pub const VIRTIO_BLK_F_SIZE_MAX: u32 = 1;

pub const VIRTIO_BLK_F_SEG_MAX: u32 = 2;

pub const VIRTIO_BLK_F_GEOMETRY: u32 = 4;

pub const VIRTIO_BLK_F_RO: u32 = 5;

pub const VIRTIO_BLK_F_BLK_SIZE: u32 = 6;

pub const VIRTIO_BLK_F_FLUSH: u32 = 9;

pub const VIRTIO_BLK_F_TOPOLOGY: u32 = 10;

pub const VIRTIO_BLK_F_CONFIG_WCE: u32 = 11;

pub const VIRTIO_BLK_F_DISCARD: u32 = 13;

pub const VIRTIO_BLK_F_WRITE_ZEROES: u32 = 14;

/// Bytes in one sector. Byte offsets are turned into sector numbers with
/// this size, whatever block size the device reports.
pub const SECTOR_SIZE: usize = 512;

/// Bytes that a request header occupies in memory.
pub const HEADER_SIZE: u32 = 16;

/// Bytes that a request record occupies in memory.
pub const REQUEST_SIZE: u64 = 32;

/// Byte offset of the status byte in a request record.
pub const REQUEST_STATUS_OFFSET: u64 = 24;

/// Value that rings the doorbell for the one queue that the driver uses.
pub const NOTIFY_QUEUE: u32 = 0;

#[derive(Clone, Copy, PartialEq, Eq, Structural, Debug)]
pub struct Geometry {
    pub cylinders: u16,
    pub heads: u8,
    pub sectors: u8,
}

#[derive(Clone, Copy, PartialEq, Eq, Structural, Debug)]
pub struct Topology {
    pub physical_block_exp: u8,
    pub alignment_offset: u8,
    pub min_io_size: u16,
    pub opt_io_size: u32,
}

/// The device's configuration space. The driver consults none of it.
#[derive(Clone, Copy, PartialEq, Eq, Debug)]
pub struct Config {
    pub capacity: u64,
    pub size_max: u32,
    pub seg_max: u32,
    pub geometry: Geometry,
    pub blk_size: u32,
    pub topology: Topology,
    pub writeback: u8,
    pub unused0: [u8; 3],
    pub max_discard_sector: u32,
    pub max_discard_seg: u32,
    pub discard_sector_alignment: u32,
    pub max_write_zeroes_sectors: u32,
    pub max_write_zeroes_seg: u32,
    pub write_zeroes_may_unmap: u8,
    pub unused1: [u8; 3],
}

/// What the device reads first of a request: the operation and the sector
/// it starts at.
#[derive(Clone, Copy, PartialEq, Eq, Structural, Debug)]
pub struct Header {
    pub blktype: u32,
    pub reserved: u32,
    pub sector: u64,
}

/// Physical address of the caller's buffer.
#[derive(Clone, Copy, PartialEq, Eq, Structural, Debug)]
pub struct Data {
    pub data: u64,
}

/// The byte in which the device reports how the request ended.
#[derive(Clone, Copy, PartialEq, Eq, Structural, Debug)]
pub struct Status {
    pub status: u8,
}

/// The record of one request. It lives in memory that the device can reach
/// for as long as the request is in flight; `head` names the first
/// descriptor of its chain.
#[derive(Clone, Copy, PartialEq, Eq, Structural, Debug)]
pub struct Request {
    pub header: Header,
    pub data: Data,
    pub status: Status,
    pub head: u16,
}

impl Header {
    /// The header as the device reads it: operation, reserved word and
    /// sector, each little-endian, with nothing in between.
    pub open spec fn wire(self) -> Seq<u8> {
        le_bytes(self.blktype as nat, 4) + le_bytes(self.reserved as nat, 4) + le_bytes(
            self.sector as nat,
            8,
        )
    }

    /// The sixteen bytes that stand for the header in memory.
    pub fn to_bytes(&self) -> (bytes: Vec<u8>)
        ensures
            bytes@ == self.wire(),
            bytes@.len() == HEADER_SIZE,
    {
        let mut bytes: Vec<u8> = Vec::new();
        put_le(&mut bytes, self.blktype as u64, 4);
        put_le(&mut bytes, self.reserved as u64, 4);
        put_le(&mut bytes, self.sector, 8);
        proof {
            lemma_le_bytes_len(self.blktype as nat, 4);
            lemma_le_bytes_len(self.reserved as nat, 4);
            lemma_le_bytes_len(self.sector as nat, 8);
            assert(bytes@ =~= self.wire());
        }
        bytes
    }
}

impl Request {
    /// The record as it lies in memory: the header, the buffer address,
    /// the status byte at `REQUEST_STATUS_OFFSET`, one byte of padding, the
    /// head index and four bytes of padding.
    pub open spec fn wire(self) -> Seq<u8> {
        self.header.wire() + le_bytes(self.data.data as nat, 8) + seq![self.status.status, 0u8]
            + le_bytes(self.head as nat, 2) + seq![0u8, 0u8, 0u8, 0u8]
    }

    /// The bytes that stand for the record in memory.
    pub fn to_bytes(&self) -> (bytes: Vec<u8>)
        ensures
            bytes@ == self.wire(),
            bytes@.len() == REQUEST_SIZE,
            bytes@.subrange(0, HEADER_SIZE as int) == self.header.wire(),
            bytes@[REQUEST_STATUS_OFFSET as int] == self.status.status,
    {
        let mut bytes = self.header.to_bytes();
        put_le(&mut bytes, self.data.data, 8);
        bytes.push(self.status.status);
        bytes.push(0);
        put_le(&mut bytes, self.head as u64, 2);
        put_le(&mut bytes, 0, 4);
        proof {
            lemma_le_bytes_len(self.data.data as nat, 8);
            lemma_le_bytes_len(self.head as nat, 2);
            reveal_with_fuel(le_bytes, 5);
            assert(le_bytes(0, 4) =~= seq![0u8, 0u8, 0u8, 0u8]);
            assert(bytes@ =~= self.wire());
            assert(bytes@.subrange(0, HEADER_SIZE as int) =~= self.header.wire());
        }
        bytes
    }
}

/// One device as the driver knows it.
pub struct BlockDeviceView {
    /// The ring as the driver last wrote it.
    pub queue: QueueView,
    /// Physical address of the ring.
    pub queue_addr: u64,
    /// Physical address of the register block.
    pub dev: u64,
    /// The cursor: the slot that was filled last.
    pub idx: u16,
}

impl BlockDeviceView {
    /// A device is well formed if its ring is. Every `BlockDevice` is.
    pub open spec fn wf(self) -> bool {
        self.queue.wf()
    }

    /// The slot that the next descriptor goes to.
    pub open spec fn next_slot(self) -> u16 {
        next_index(self.idx, self.queue.capacity() as u16)
    }

    /// The device after one descriptor was allocated for `desc`: the cursor
    /// has moved on by one, circularly, and the slot it names holds `desc`,
    /// with its `next` set to the slot after that if `desc` is chained.
    pub open spec fn fill(self, desc: Descriptor) -> BlockDeviceView {
        let slot = self.next_slot();
        let stored = if desc.chained() {
            Descriptor { next: next_index(slot, self.queue.capacity() as u16), ..desc }
        } else {
            desc
        };
        BlockDeviceView { idx: slot, queue: self.queue.store(slot, stored), ..self }
    }

    /// The device after a descriptor was allocated for each entry of
    /// `chain`, in order.
    pub open spec fn fill_all(self, chain: Seq<Descriptor>) -> BlockDeviceView
        decreases chain.len(),
    {
        if chain.len() == 0 {
            self
        } else {
            self.fill_all(chain.drop_last()).fill(chain.last())
        }
    }

    /// The device after `chain` was allocated and handed to the device.
    pub open spec fn submit(self, chain: Seq<Descriptor>) -> BlockDeviceView {
        let filled = self.fill_all(chain);
        BlockDeviceView { queue: filled.queue.publish(self.next_slot()), ..filled }
    }
}

/// One device: the driver's side of its ring, where ring and registers lie,
/// and the cursor that allocates descriptors.
#[derive(Debug)]
pub struct BlockDevice {
    queue: Queue,
    queue_addr: u64,
    dev: u64,
    idx: u16,
}

impl View for BlockDevice {
    type V = BlockDeviceView;

    closed spec fn view(&self) -> BlockDeviceView {
        BlockDeviceView {
            queue: self.queue@,
            queue_addr: self.queue_addr,
            dev: self.dev,
            idx: self.idx,
        }
    }
}

impl BlockDevice {
    /// A device whose ring lies at `queue_addr` and holds `queue`, whose
    /// registers lie at `dev` and whose cursor stands at `idx`.
    pub fn new(queue: Queue, queue_addr: u64, dev: u64, idx: u16) -> (bd: BlockDevice)
        ensures
            bd@ == (BlockDeviceView { queue: queue@, queue_addr, dev, idx }),
            bd@.wf(),
    {
        proof {
            use_type_invariant(&queue);
        }
        BlockDevice { queue, queue_addr, dev, idx }
    }

    /// The ring as the driver last wrote it.
    pub fn queue(&self) -> (queue: &Queue)
        ensures
            queue@ == self@.queue,
    {
        &self.queue
    }

    /// Physical address of the ring.
    pub fn queue_addr(&self) -> (addr: u64)
        ensures
            addr == self@.queue_addr,
    {
        self.queue_addr
    }

    /// Physical address of the register block.
    pub fn dev(&self) -> (addr: u64)
        ensures
            addr == self@.dev,
    {
        self.dev
    }

    /// The cursor: the slot that was filled last.
    pub fn idx(&self) -> (idx: u16)
        ensures
            idx == self@.idx,
    {
        self.idx
    }
}

/// Allocates the next slot of the device's descriptor table for `desc` and
/// returns its index. The cursor moves on by one, circularly; a chained
/// descriptor is linked to the slot after its own. Nothing is checked
/// against chains that the device has not consumed yet.
pub fn fill_next_descriptor(bd: &mut BlockDevice, desc: Descriptor) -> (idx: u16)
    ensures
        final(bd)@ == old(bd)@.fill(desc),
        idx == old(bd)@.next_slot(),
        idx < old(bd)@.queue.capacity(),
        old(bd)@.wf(),
        final(bd)@.wf(),
{
    let capacity = bd.queue.capacity();
    bd.idx = next_index(bd.idx, capacity);
    let mut stored = desc;
    if stored.is_chained() {
        stored.next = next_index(bd.idx, capacity);
    }
    bd.queue.store(bd.idx, stored);
    bd.idx
}

/// The views of the devices in `devices`, in order.
pub open spec fn device_views(devices: Seq<BlockDevice>) -> Seq<BlockDeviceView> {
    Seq::new(devices.len(), |i: int| devices[i]@)
}

/// The view of what a registry's slot holds, if anything.
pub open spec fn slot_view(slot: Option<Vec<BlockDevice>>) -> Option<Seq<BlockDeviceView>> {
    match slot {
        Some(devices) => Some(device_views(devices@)),
        None => None,
    }
}

/// The devices that were found, behind a single slot that is either full
/// or empty. Whoever works on the devices takes them out of the slot and
/// puts them back when done; while the slot is empty nobody else can work
/// on them, and an empty slot cannot be told from one that was never
/// filled.
#[derive(Debug)]
pub struct Registry {
    slot: Option<Vec<BlockDevice>>,
}

impl View for Registry {
    type V = Option<Seq<BlockDeviceView>>;

    closed spec fn view(&self) -> Option<Seq<BlockDeviceView>> {
        slot_view(self.slot)
    }
}

impl Registry {
    /// A registry whose slot is empty.
    pub fn new() -> (registry: Registry)
        ensures
            registry@ is None,
    {
        Registry { slot: None }
    }

    /// Whether the slot is full.
    pub fn is_available(&self) -> (available: bool)
        ensures
            available == (self@ is Some),
    {
        self.slot.is_some()
    }

    /// Number of devices in the slot; zero if it is empty.
    pub fn len(&self) -> (n: usize)
        ensures
            n == match self@ {
                Some(devices) => devices.len(),
                None => 0,
            },
    {
        match &self.slot {
            Some(devices) => devices.len(),
            None => 0,
        }
    }

    /// The device numbered `dev`, if the slot is full and holds that many.
    pub fn get(&self, dev: usize) -> (found: Option<&BlockDevice>)
        ensures
            match found {
                Some(bd) => self@ is Some && dev < self@->0.len() && bd@ == self@->0[dev as int]
                    && bd@.wf(),
                None => self@ is None || dev >= self@->0.len(),
            },
    {
        match &self.slot {
            Some(devices) => if dev < devices.len() {
                let bd = &devices[dev];
                proof {
                    use_type_invariant(&bd.queue);
                }
                Some(bd)
            } else {
                None
            },
            None => None,
        }
    }

    /// Empties the slot and returns what it held.
    pub fn take(&mut self) -> (devices: Option<Vec<BlockDevice>>)
        ensures
            slot_view(devices) == old(self)@,
            final(self)@ is None,
    {
        self.slot.take()
    }

    /// Fills the slot with `devices` and returns what it held before.
    pub fn replace(&mut self, devices: Vec<BlockDevice>) -> (previous: Option<Vec<BlockDevice>>)
        ensures
            slot_view(previous) == old(self)@,
            final(self)@ == Some(device_views(devices@)),
    {
        let previous = self.slot.take();
        self.slot = Some(devices);
        previous
    }
}

/// Fills the slot of `registry` with an empty collection of devices.
/// Devices that it held are dropped.
pub fn init(registry: &mut Registry)
    ensures
        final(registry)@ == Some(Seq::<BlockDeviceView>::empty()),
{
    let devices: Vec<BlockDevice> = Vec::with_capacity(1);
    registry.replace(devices);
    assert(device_views(devices@) =~= Seq::<BlockDeviceView>::empty());
}

/// What is left to the caller once a request stands in the ring: the
/// record goes to the address that was given for it, the slots named here
/// go to the ring in memory, and then the doorbell is rung.
#[derive(Clone, Copy, PartialEq, Eq, Structural, Debug)]
pub struct Submission {
    /// The request record; `request.head` is the slot of the header
    /// descriptor.
    pub request: Request,
    /// Slot of the data descriptor.
    pub data_idx: u16,
    /// Slot of the status descriptor.
    pub status_idx: u16,
    /// Slot of the available ring that names the chain.
    pub avail_slot: u16,
    /// The store that rings the doorbell.
    pub notify: Action,
}

/// The descriptor of the header of the request record at `request`.
pub open spec fn header_descriptor(request: u64) -> Descriptor {
    Descriptor { addr: request, len: HEADER_SIZE, flags: VIRTIO_DESC_F_NEXT, next: 0 }
}

/// The descriptor of the status byte of the request record at `request`,
/// with the given flags.
pub open spec fn status_descriptor(request: u64, flags: u16) -> Descriptor {
    Descriptor { addr: (request + REQUEST_STATUS_OFFSET) as u64, len: 1, flags, next: 0 }
}

/// The chain of a read: the header, then the caller's buffer, which the
/// device fills, then the status byte, which the device writes and which
/// ends the chain.
pub open spec fn read_chain(request: u64, buffer: u64, size: u32) -> Seq<Descriptor> {
    seq![
        header_descriptor(request),
        Descriptor {
            addr: buffer,
            len: size,
            flags: VIRTIO_DESC_F_NEXT | VIRTIO_DESC_F_WRITE,
            next: 0,
        },
        status_descriptor(request, VIRTIO_DESC_F_WRITE),
    ]
}

/// The chain of a write: the header, then the caller's buffer, which the
/// device only reads, then the status byte, which ends the chain and
/// carries no flag.
pub open spec fn write_chain(request: u64, buffer: u64, size: u32) -> Seq<Descriptor> {
    seq![
        header_descriptor(request),
        Descriptor { addr: buffer, len: size, flags: VIRTIO_DESC_F_NEXT, next: 0 },
        status_descriptor(request, 0),
    ]
}

/// What the caller is told after a request of type `blktype` for the
/// bytes from `offset` on was queued on a device that looked like `before`.
pub open spec fn submission(
    before: BlockDeviceView,
    blktype: u32,
    buffer: u64,
    offset: usize,
) -> Submission {
    let capacity = before.queue.capacity() as u16;
    let head = before.next_slot();
    Submission {
        request: Request {
            header: Header { blktype, reserved: 0, sector: (offset / SECTOR_SIZE) as u64 },
            data: Data { data: buffer },
            status: Status { status: VIRTIO_BLK_S_OK },
            head,
        },
        data_idx: next_index(head, capacity),
        status_idx: next_index(next_index(head, capacity), capacity),
        avail_slot: before.queue.avail.idx,
        notify: Action::Write { register: MmioOffsets::QueueNotify, value: NOTIFY_QUEUE },
    }
}

/// Allocating a chain of three descriptors is allocating them one after
/// the other.
proof fn lemma_fill_all_three(before: BlockDeviceView, a: Descriptor, b: Descriptor, c: Descriptor)
    ensures
        before.fill_all(seq![a, b, c]) == before.fill(a).fill(b).fill(c),
{
    reveal_with_fuel(BlockDeviceView::fill_all, 4);
    assert(seq![a, b, c].drop_last() =~= seq![a, b]);
    assert(seq![a, b].drop_last() =~= seq![a]);
    assert(seq![a].drop_last() =~= Seq::<Descriptor>::empty());
}

/// Queues the chain `header`, `data`, `status` on device `dev` and says
/// what is left to the caller; does nothing if the slot of `registry` is
/// empty.
fn submit(
    registry: &mut Registry,
    dev: usize,
    blktype: u32,
    header: Descriptor,
    data: Descriptor,
    status: Descriptor,
    offset: usize,
) -> (sub: Option<Submission>)
    requires
        old(registry)@ matches Some(devices) ==> dev < devices.len(),
    ensures
        match old(registry)@ {
            None => sub is None && final(registry)@ is None,
            Some(devices) => {
                let before = devices[dev as int];
                &&& before.wf()
                &&& final(registry)@ == Some(
                    devices.update(dev as int, before.submit(seq![header, data, status])),
                )
                &&& sub == Some(submission(before, blktype, data.addr, offset))
            },
        },
{
    match registry.slot.take() {
        None => None,
        Some(mut devices) => {
            let ghost before_all = device_views(devices@);
            let ghost before = devices@[dev as int]@;
            let bdev = &mut devices[dev];
            let head_idx = fill_next_descriptor(bdev, header);
            let data_idx = fill_next_descriptor(bdev, data);
            let status_idx = fill_next_descriptor(bdev, status);
            let avail_slot = bdev.queue.publish(head_idx);
            proof {
                lemma_fill_all_three(before, header, data, status);
                assert(devices@[dev as int]@ == before.submit(seq![header, data, status]));
                assert(device_views(devices@) =~= before_all.update(
                    dev as int,
                    before.submit(seq![header, data, status]),
                ));
            }
            registry.slot = Some(devices);
            Some(
                Submission {
                    request: Request {
                        header: Header {
                            blktype,
                            reserved: 0,
                            sector: (offset / SECTOR_SIZE) as u64,
                        },
                        data: Data { data: data.addr },
                        status: Status { status: VIRTIO_BLK_S_OK },
                        head: head_idx,
                    },
                    data_idx,
                    status_idx,
                    avail_slot,
                    notify: Action::Write {
                        register: MmioOffsets::QueueNotify,
                        value: NOTIFY_QUEUE,
                    },
                },
            )
        },
    }
}

/// Queues a read of `size` bytes, starting at byte `offset` of device
/// `dev`, into the buffer at `buffer`. `request` is the address of the
/// `REQUEST_SIZE` bytes that were set aside for the request record.
///
/// The chain of three descriptors is allocated, its head is put into the
/// available ring and the producer index moves on by one. The call does
/// not wait for the device. While the slot of `registry` is empty, nothing
/// happens and nothing is returned.
pub fn read(
    registry: &mut Registry,
    dev: usize,
    request: u64,
    buffer: u64,
    size: u32,
    offset: usize,
) -> (sub: Option<Submission>)
    requires
        request + REQUEST_SIZE <= u64::MAX,
        old(registry)@ matches Some(devices) ==> dev < devices.len(),
    ensures
        match old(registry)@ {
            None => sub is None && final(registry)@ is None,
            Some(devices) => {
                let before = devices[dev as int];
                &&& before.wf()
                &&& final(registry)@ == Some(
                    devices.update(dev as int, before.submit(read_chain(request, buffer, size))),
                )
                &&& sub == Some(submission(before, VIRTIO_BLK_T_IN, buffer, offset))
            },
        },
{
    let header = Descriptor {
        addr: request,
        len: HEADER_SIZE,
        flags: VIRTIO_DESC_F_NEXT,
        next: 0,
    };
    let data = Descriptor {
        addr: buffer,
        len: size,
        flags: VIRTIO_DESC_F_NEXT | VIRTIO_DESC_F_WRITE,
        next: 0,
    };
    let status = Descriptor {
        addr: request + REQUEST_STATUS_OFFSET,
        len: 1,
        flags: VIRTIO_DESC_F_WRITE,
        next: 0,
    };
    submit(registry, dev, VIRTIO_BLK_T_IN, header, data, status, offset)
}

/// Queues a write of `size` bytes from the buffer at `buffer` to device
/// `dev`, starting at byte `offset`. `request` is the address of the
/// `REQUEST_SIZE` bytes that were set aside for the request record.
///
/// The call does what `read` does, with a chain whose data buffer the
/// device only reads. While the slot of `registry` is empty, nothing
/// happens and nothing is returned.
pub fn write(
    registry: &mut Registry,
    dev: usize,
    request: u64,
    buffer: u64,
    size: usize,
    offset: usize,
) -> (sub: Option<Submission>)
    requires
        request + REQUEST_SIZE <= u64::MAX,
        size <= u32::MAX,
        old(registry)@ matches Some(devices) ==> dev < devices.len(),
    ensures
        match old(registry)@ {
            None => sub is None && final(registry)@ is None,
            Some(devices) => {
                let before = devices[dev as int];
                &&& before.wf()
                &&& final(registry)@ == Some(
                    devices.update(
                        dev as int,
                        before.submit(write_chain(request, buffer, size as u32)),
                    ),
                )
                &&& sub == Some(submission(before, VIRTIO_BLK_T_OUT, buffer, offset))
            },
        },
{
    let header = Descriptor {
        addr: request,
        len: HEADER_SIZE,
        flags: VIRTIO_DESC_F_NEXT,
        next: 0,
    };
    let data = Descriptor { addr: buffer, len: size as u32, flags: VIRTIO_DESC_F_NEXT, next: 0 };
    let status = Descriptor { addr: request + REQUEST_STATUS_OFFSET, len: 1, flags: 0, next: 0 };
    submit(registry, dev, VIRTIO_BLK_T_OUT, header, data, status, offset)
}

/// The descriptors that the device visits when it starts at slot `head`
/// and follows `next` for as long as the chain goes on, `limit` of them at
/// most.
pub open spec fn walk(queue: QueueView, head: u16, limit: nat) -> Seq<Descriptor>
    decreases limit,
{
    if limit == 0 || head >= queue.capacity() {
        Seq::empty()
    } else {
        let d = queue.desc[head as int];
        if d.chained() {
            seq![d] + walk(queue, d.next, (limit - 1) as nat)
        } else {
            seq![d]
        }
    }
}

/// Allocating descriptors touches nothing but the cursor and the
/// descriptor table: the device stays well formed, its ring keeps its
/// capacity and its available ring, and ring and registers stay where they
/// are.
pub proof fn lemma_fill_all_frame(before: BlockDeviceView, chain: Seq<Descriptor>)
    requires
        before.wf(),
    ensures
        before.fill_all(chain).wf(),
        before.fill_all(chain).queue.capacity() == before.queue.capacity(),
        before.fill_all(chain).queue.avail == before.queue.avail,
        before.fill_all(chain).queue_addr == before.queue_addr,
        before.fill_all(chain).dev == before.dev,
    decreases chain.len(),
{
    if chain.len() > 0 {
        lemma_fill_all_frame(before, chain.drop_last());
    }
}

/// The cursor counts allocations modulo the capacity: after a chain of
/// `n > 0` descriptors it stands `n` slots after where it stood.
pub proof fn lemma_cursor_after_chain(before: BlockDeviceView, chain: Seq<Descriptor>)
    requires
        before.wf(),
        chain.len() > 0,
    ensures
        before.fill_all(chain).idx == (before.idx + chain.len()) % (before.queue.capacity() as int),
    decreases chain.len(),
{
    let capacity = before.queue.capacity() as int;
    let front = chain.drop_last();
    lemma_fill_all_frame(before, front);
    if front.len() == 0 {
        assert(before.fill_all(front) == before);
    } else {
        lemma_cursor_after_chain(before, front);
        let at = before.fill_all(front).idx as int;
        assert((at + 1) % capacity == (before.idx + front.len() + 1) % capacity) by {
            vstd::arithmetic::div_mod::lemma_add_mod_noop(
                before.idx + front.len(),
                1,
                capacity,
            );
            vstd::arithmetic::div_mod::lemma_add_mod_noop(at, 1, capacity);
            vstd::arithmetic::div_mod::lemma_mod_twice(before.idx + front.len(), capacity);
        }
    }
}

/// Allocation is circular: the allocation that comes a full turn of the
/// ring after the first one returns the index that the first one returned.
pub proof fn lemma_allocation_wraps(before: BlockDeviceView, chain: Seq<Descriptor>)
    requires
        before.wf(),
        chain.len() == before.queue.capacity() + 1,
    ensures
        before.fill_all(chain).idx == before.fill(chain[0]).idx,
{
    let capacity = before.queue.capacity() as int;
    lemma_cursor_after_chain(before, chain);
    assert((before.idx + capacity + 1) % capacity == (before.idx + 1) % capacity) by {
        vstd::arithmetic::div_mod::lemma_mod_add_multiples_vanish(before.idx + 1, capacity);
    }
}

/// Handing a chain to the device moves the producer index on by exactly
/// one, circularly, however many descriptors the chain has; the slot that
/// the producer index named holds the head of the chain, and the rest of
/// the available ring is as it was.
pub proof fn lemma_submit_advances_producer(before: BlockDeviceView, chain: Seq<Descriptor>)
    requires
        before.wf(),
    ensures
        before.submit(chain).wf(),
        before.submit(chain).queue.avail.idx == (before.queue.avail.idx + 1) % (
        before.queue.capacity() as int),
        before.submit(chain).queue.avail.ring == before.queue.avail.ring.update(
            before.queue.avail.idx as int,
            before.next_slot(),
        ),
        before.submit(chain).queue.avail.flags == before.queue.avail.flags,
        before.submit(chain).queue.avail.event == before.queue.avail.event,
        before.submit(chain).queue.desc == before.fill_all(chain).queue.desc,
        before.submit(chain).idx == before.fill_all(chain).idx,
{
    lemma_fill_all_frame(before, chain);
}

/// A chain of three descriptors, of which the first two are chained and
/// the third is not, is what the device finds when it starts at the head:
/// the three descriptors in order, each of the first two linked to the
/// slot after its own. The ring must have room for the three.
pub proof fn lemma_walk_finds_chain(
    before: BlockDeviceView,
    a: Descriptor,
    b: Descriptor,
    c: Descriptor,
    limit: nat,
)
    requires
        before.wf(),
        before.queue.capacity() >= 3,
        a.chained(),
        b.chained(),
        !c.chained(),
        limit >= 3,
    ensures
        ({
            let capacity = before.queue.capacity() as u16;
            let head = before.next_slot();
            let second = next_index(head, capacity);
            let third = next_index(second, capacity);
            walk(before.submit(seq![a, b, c]).queue, head, limit) == seq![
                Descriptor { next: second, ..a },
                Descriptor { next: third, ..b },
                c,
            ]
        }),
{
    let capacity = before.queue.capacity() as u16;
    let head = before.next_slot();
    let second = next_index(head, capacity);
    let third = next_index(second, capacity);
    let after = before.submit(seq![a, b, c]).queue;
    lemma_fill_all_three(before, a, b, c);
    lemma_next_index_steps(before.idx, capacity);
    lemma_next_index_steps(head, capacity);
    lemma_next_index_steps(second, capacity);
    assert(head != second && second != third && head != third);
    assert(after.desc[head as int] == Descriptor { next: second, ..a });
    assert(after.desc[second as int] == Descriptor { next: third, ..b });
    assert(after.desc[third as int] == c);
    assert(Descriptor { next: second, ..a }.chained());
    assert(Descriptor { next: third, ..b }.chained());
    reveal_with_fuel(walk, 4);
    assert(walk(after, head, limit) =~= seq![
        Descriptor { next: second, ..a },
        Descriptor { next: third, ..b },
        c,
    ]);
}

/// The chain of a read has exactly three descriptors: the header, which
/// the device reads; the caller's buffer in its full length, which the
/// device writes; and the status byte, which the device writes and which
/// ends the chain. The head index that the caller is told is the index
/// that was allocated for the header, and the sector is the byte offset
/// divided by the sector size.
pub proof fn lemma_read_chain_shape(
    before: BlockDeviceView,
    request: u64,
    buffer: u64,
    size: u32,
    offset: usize,
)
    ensures
        ({
            let chain = read_chain(request, buffer, size);
            let told = submission(before, VIRTIO_BLK_T_IN, buffer, offset);
            &&& chain.len() == 3
            &&& chain[0].chained() && !chain[0].device_writable()
            &&& chain[1].chained() && chain[1].device_writable()
            &&& !chain[2].chained() && chain[2].device_writable()
            &&& chain[1].addr == buffer && chain[1].len == size
            &&& told.request.head == before.fill(chain[0]).idx
            &&& told.request.header.sector == offset / 512
            &&& told.request.header.blktype == VIRTIO_BLK_T_IN
        }),
{
    lemma_flag_bits();
}

/// The chain of a write has exactly three descriptors: the header and the
/// caller's buffer, which the device reads, and the status byte, which
/// ends the chain and carries no flag.
pub proof fn lemma_write_chain_shape(
    before: BlockDeviceView,
    request: u64,
    buffer: u64,
    size: u32,
    offset: usize,
)
    ensures
        ({
            let chain = write_chain(request, buffer, size);
            let told = submission(before, VIRTIO_BLK_T_OUT, buffer, offset);
            &&& chain.len() == 3
            &&& chain[0].chained() && !chain[0].device_writable()
            &&& chain[1].chained() && !chain[1].device_writable()
            &&& chain[2].flags == 0 && !chain[2].chained() && !chain[2].device_writable()
            &&& chain[1].addr == buffer && chain[1].len == size
            &&& told.request.head == before.fill(chain[0]).idx
            &&& told.request.header.sector == offset / 512
            &&& told.request.header.blktype == VIRTIO_BLK_T_OUT
        }),
{
    lemma_flag_bits();
}

/// The index after `i` names a slot; it is the next number, or zero after
/// the last slot.
proof fn lemma_next_index_steps(i: u16, capacity: u16)
    requires
        capacity > 0,
    ensures
        next_index(i, capacity) < capacity,
        i < capacity ==> next_index(i, capacity) == if i + 1 == capacity {
            0
        } else {
            i + 1
        },
{
    if i < capacity {
        if i + 1 == capacity {
            vstd::arithmetic::div_mod::lemma_mod_self_0(capacity as int);
        } else {
            vstd::arithmetic::div_mod::lemma_small_mod((i + 1) as nat, capacity as nat);
        }
    }
}

/// Which of the two flags each combination that the driver uses holds.
proof fn lemma_flag_bits()
    ensures
        VIRTIO_DESC_F_NEXT & VIRTIO_DESC_F_NEXT != 0,
        VIRTIO_DESC_F_NEXT & VIRTIO_DESC_F_WRITE == 0,
        VIRTIO_DESC_F_WRITE & VIRTIO_DESC_F_NEXT == 0,
        VIRTIO_DESC_F_WRITE & VIRTIO_DESC_F_WRITE != 0,
        (VIRTIO_DESC_F_NEXT | VIRTIO_DESC_F_WRITE) & VIRTIO_DESC_F_NEXT != 0,
        (VIRTIO_DESC_F_NEXT | VIRTIO_DESC_F_WRITE) & VIRTIO_DESC_F_WRITE != 0,
        0u16 & VIRTIO_DESC_F_NEXT == 0,
        0u16 & VIRTIO_DESC_F_WRITE == 0,
{
    assert(1u16 & 1u16 != 0) by (bit_vector);
    assert(1u16 & 2u16 == 0) by (bit_vector);
    assert(2u16 & 1u16 == 0) by (bit_vector);
    assert(2u16 & 2u16 != 0) by (bit_vector);
    assert((1u16 | 2u16) & 1u16 != 0) by (bit_vector);
    assert((1u16 | 2u16) & 2u16 != 0) by (bit_vector);
    assert(0u16 & 1u16 == 0) by (bit_vector);
    assert(0u16 & 2u16 == 0) by (bit_vector);
}

} // verus!
