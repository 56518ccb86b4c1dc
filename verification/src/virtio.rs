//! The transport's vocabulary: registers, status bits, bus operations,
//! descriptors and the driver's side of a descriptor ring.

use crate::wire::{le_bytes, lemma_le_bytes_len, put_le};
use vstd::prelude::*;

verus! {

/// Bytes in one page of physical memory.
pub const PAGE_SIZE: usize = 4096;

/// Ring capacity that the driver asks for unless told otherwise.
pub const VIRTIO_RING_SIZE: u16 = 128;

/// Descriptor flag: the chain continues at the descriptor named by `next`.
pub const VIRTIO_DESC_F_NEXT: u16 = 1;

/// Descriptor flag: the device writes the buffer (otherwise it reads it).
pub const VIRTIO_DESC_F_WRITE: u16 = 2;

/// Bytes that one descriptor occupies in the ring.
pub const DESCRIPTOR_SIZE: usize = 16;

/// The registers of the block that the driver touches.
#[derive(Clone, Copy, PartialEq, Eq, Structural, Debug)]
pub enum MmioOffsets {
    HostFeatures,
    GuestFeatures,
    QueueNumMax,
    QueueNum,
    QueuePfn,
    QueueNotify,
    Status,
}

impl MmioOffsets {
    /// Byte offset of the register from the base of the block.
    pub open spec fn spec_val(self) -> usize {
        match self {
            MmioOffsets::HostFeatures => 0x010,
            MmioOffsets::GuestFeatures => 0x020,
            MmioOffsets::QueueNumMax => 0x034,
            MmioOffsets::QueueNum => 0x038,
            MmioOffsets::QueuePfn => 0x040,
            MmioOffsets::QueueNotify => 0x050,
            MmioOffsets::Status => 0x070,
        }
    }

    /// Byte offset of the register from the base of the block.
    #[verifier::when_used_as_spec(spec_val)]
    pub fn val(self) -> (offset: usize)
        ensures
            offset == self.spec_val(),
    {
        match self {
            MmioOffsets::HostFeatures => 0x010,
            MmioOffsets::GuestFeatures => 0x020,
            MmioOffsets::QueueNumMax => 0x034,
            MmioOffsets::QueueNum => 0x038,
            MmioOffsets::QueuePfn => 0x040,
            MmioOffsets::QueueNotify => 0x050,
            MmioOffsets::Status => 0x070,
        }
    }

    /// Index of the register in a block addressed in units of `scale` bytes.
    pub fn scaled(self, scale: usize) -> (index: usize)
        requires
            scale > 0,
        ensures
            index == self.val() / scale,
    {
        self.val() / scale
    }

    /// Index of the register in a block addressed as 32-bit words. Every
    /// register lies on a word boundary.
    pub fn scale32(self) -> (index: usize)
        ensures
            index * 4 == self.val(),
    {
        self.scaled(4)
    }
}

/// The bits of the status register.
#[derive(Clone, Copy, PartialEq, Eq, Structural, Debug)]
pub enum StatusField {
    Acknowledge,
    Driver,
    DriverOk,
    FeaturesOk,
    Failed,
}

impl StatusField {
    /// The bit as a mask over the status register.
    pub open spec fn spec_val32(self) -> u32 {
        match self {
            StatusField::Acknowledge => 1,
            StatusField::Driver => 2,
            StatusField::DriverOk => 4,
            StatusField::FeaturesOk => 8,
            StatusField::Failed => 128,
        }
    }

    /// The bit as a mask over the status register.
    #[verifier::when_used_as_spec(spec_val32)]
    pub fn val32(self) -> (mask: u32)
        ensures
            mask == self.spec_val32(),
    {
        match self {
            StatusField::Acknowledge => 1,
            StatusField::Driver => 2,
            StatusField::DriverOk => 4,
            StatusField::FeaturesOk => 8,
            StatusField::Failed => 128,
        }
    }

    /// Whether `bit` is set in the status value `sf`.
    pub open spec fn spec_test(sf: u32, bit: StatusField) -> bool {
        sf & bit.val32() != 0
    }

    /// Whether `bit` is set in the status value `sf`.
    #[verifier::when_used_as_spec(spec_test)]
    pub fn test(sf: u32, bit: StatusField) -> (set: bool)
        ensures
            set == Self::spec_test(sf, bit),
    {
        sf & bit.val32() != 0
    }

    /// Whether the status value says that the device kept the features it
    /// was offered.
    pub fn features_ok(sf: u32) -> (set: bool)
        ensures
            set == Self::test(sf, StatusField::FeaturesOk),
    {
        Self::test(sf, StatusField::FeaturesOk)
    }

    /// Whether the status value marks the device as given up on.
    pub fn is_failed(sf: u32) -> (set: bool)
        ensures
            set == Self::test(sf, StatusField::Failed),
    {
        Self::test(sf, StatusField::Failed)
    }
}

/// One access to the outside world that the driver asks its caller to
/// carry out.
#[derive(Clone, Copy, PartialEq, Eq, Structural, Debug)]
pub enum Action {
    /// Store `value` in `register`, as one ordered 32-bit access.
    Write { register: MmioOffsets, value: u32 },
    /// Load `register`, as one ordered 32-bit access.
    Read { register: MmioOffsets },
    /// Obtain `pages` contiguous, page-aligned, zeroed pages for a ring.
    AllocateRing { pages: usize },
    /// Nothing more to do: the operation ended, well (`ok`) or not.
    Finished { ok: bool },
}

/// What came of the action that was carried out last.
#[derive(Clone, Copy, PartialEq, Eq, Structural, Debug)]
pub enum Reply {
    /// Nothing to report: no action was pending, or a store completed.
    Done,
    /// The value that a load returned.
    Value(u32),
    /// The physical address of the region that was obtained.
    Region(u64),
}

impl Reply {
    /// Whether the reply is of the kind that `action` produces. No reply
    /// answers `Finished`.
    pub open spec fn answers(self, action: Action) -> bool {
        match action {
            Action::Write { .. } => self is Done,
            Action::Read { .. } => self is Value,
            Action::AllocateRing { .. } => self is Region,
            Action::Finished { .. } => false,
        }
    }
}

/// One entry of the descriptor table: a buffer in memory that the device
/// may read or write.
#[derive(Clone, Copy, PartialEq, Eq, Structural, Debug)]
pub struct Descriptor {
    pub addr: u64,
    pub len: u32,
    pub flags: u16,
    pub next: u16,
}

impl Descriptor {
    /// Whether the chain goes on after this descriptor.
    pub open spec fn chained(self) -> bool {
        self.flags & VIRTIO_DESC_F_NEXT != 0
    }

    /// Whether the device may write the buffer.
    pub open spec fn device_writable(self) -> bool {
        self.flags & VIRTIO_DESC_F_WRITE != 0
    }

    /// The descriptor as the device reads it: address, length, flags and
    /// next index, each little-endian, with nothing in between.
    pub open spec fn wire(self) -> Seq<u8> {
        le_bytes(self.addr as nat, 8) + le_bytes(self.len as nat, 4) + le_bytes(
            self.flags as nat,
            2,
        ) + le_bytes(self.next as nat, 2)
    }

    /// A descriptor of no buffer, as zeroed memory holds it.
    pub fn zero() -> (d: Descriptor)
        ensures
            d == (Descriptor { addr: 0, len: 0, flags: 0, next: 0 }),
    {
        Descriptor { addr: 0, len: 0, flags: 0, next: 0 }
    }

    /// Whether the chain goes on after this descriptor.
    pub fn is_chained(&self) -> (b: bool)
        ensures
            b == self.chained(),
    {
        self.flags & VIRTIO_DESC_F_NEXT != 0
    }

    /// Whether the device may write the buffer.
    pub fn is_device_writable(&self) -> (b: bool)
        ensures
            b == self.device_writable(),
    {
        self.flags & VIRTIO_DESC_F_WRITE != 0
    }

    /// The sixteen bytes that stand for the descriptor in the ring.
    pub fn to_bytes(&self) -> (bytes: Vec<u8>)
        ensures
            bytes@ == self.wire(),
            bytes@.len() == DESCRIPTOR_SIZE,
    {
        let mut bytes: Vec<u8> = Vec::new();
        put_le(&mut bytes, self.addr, 8);
        put_le(&mut bytes, self.len as u64, 4);
        put_le(&mut bytes, self.flags as u64, 2);
        put_le(&mut bytes, self.next as u64, 2);
        proof {
            lemma_le_bytes_len(self.addr as nat, 8);
            lemma_le_bytes_len(self.len as nat, 4);
            lemma_le_bytes_len(self.flags as nat, 2);
            lemma_le_bytes_len(self.next as nat, 2);
            assert(bytes@ =~= self.wire());
        }
        bytes
    }
}

/// The index that follows `i` in a ring of `capacity` slots.
pub open spec fn spec_next_index(i: u16, capacity: u16) -> u16 {
    ((i + 1) % (capacity as int)) as u16
}

/// The index that follows `i` in a ring of `capacity` slots.
#[verifier::when_used_as_spec(spec_next_index)]
pub fn next_index(i: u16, capacity: u16) -> (n: u16)
    requires
        capacity > 0,
    ensures
        n == spec_next_index(i, capacity),
        n < capacity,
{
    ((i as u32 + 1) % (capacity as u32)) as u16
}

/// The available ring as the driver last wrote it.
pub struct AvailableView {
    pub flags: u16,
    pub idx: u16,
    pub ring: Seq<u16>,
    pub event: u16,
}

/// The driver's side of a ring as the driver last wrote it.
pub struct QueueView {
    pub desc: Seq<Descriptor>,
    pub avail: AvailableView,
}

impl QueueView {
    /// Number of slots in the descriptor table and in the available ring.
    pub open spec fn capacity(self) -> nat {
        self.desc.len()
    }

    /// A ring has at least one slot, its indices fit in sixteen bits, both
    /// tables have the same size and the producer index names a slot.
    pub open spec fn wf(self) -> bool {
        &&& 0 < self.desc.len() <= u16::MAX
        &&& self.avail.ring.len() == self.desc.len()
        &&& self.avail.idx < self.desc.len()
    }

    /// The ring as zeroed memory holds it.
    pub open spec fn zeroed(capacity: nat) -> QueueView {
        QueueView {
            desc: Seq::new(capacity, |i: int| Descriptor { addr: 0, len: 0, flags: 0, next: 0 }),
            avail: AvailableView {
                flags: 0,
                idx: 0,
                ring: Seq::new(capacity, |i: int| 0u16),
                event: 0,
            },
        }
    }

    /// The ring after `d` was written into slot `i`.
    pub open spec fn store(self, i: u16, d: Descriptor) -> QueueView {
        QueueView { desc: self.desc.update(i as int, d), ..self }
    }

    /// The ring after the chain that starts at descriptor `head` was handed
    /// to the device: `head` stands in the slot that the producer index
    /// named, and the producer index has moved on by one, circularly.
    pub open spec fn publish(self, head: u16) -> QueueView {
        QueueView {
            avail: AvailableView {
                ring: self.avail.ring.update(self.avail.idx as int, head),
                idx: next_index(self.avail.idx, self.capacity() as u16),
                ..self.avail
            },
            ..self
        }
    }

    /// Byte offset of descriptor `i` from the base of the ring.
    pub open spec fn desc_offset(i: u16) -> int {
        DESCRIPTOR_SIZE * i
    }

    /// Byte offset of the available ring's producer index.
    pub open spec fn avail_idx_offset(capacity: u16) -> int {
        DESCRIPTOR_SIZE * capacity + 2
    }

    /// Byte offset of slot `slot` of the available ring.
    pub open spec fn avail_ring_offset(capacity: u16, slot: u16) -> int {
        DESCRIPTOR_SIZE * capacity + 4 + 2 * slot
    }

    /// Bytes that the descriptor table and the available ring take
    /// together: sixteen per descriptor, then three 16-bit words and one
    /// more per slot.
    pub open spec fn driver_bytes(capacity: u16) -> int {
        DESCRIPTOR_SIZE * capacity + 6 + 2 * capacity
    }

    /// Byte offset of the used ring: it starts on the first page boundary
    /// after the available ring.
    pub open spec fn used_offset(capacity: u16) -> int {
        (Self::driver_bytes(capacity) + PAGE_SIZE - 1) / (PAGE_SIZE as int) * PAGE_SIZE
    }

    /// Bytes from the base of the ring to the end of the used ring, which
    /// takes three 16-bit words and eight bytes per slot.
    pub open spec fn size_in_bytes(capacity: u16) -> int {
        Self::used_offset(capacity) + 6 + 8 * capacity
    }

    /// Whole pages that hold a ring.
    pub open spec fn pages(capacity: u16) -> int {
        (Self::size_in_bytes(capacity) + PAGE_SIZE - 1) / (PAGE_SIZE as int)
    }
}

/// The available ring: what the driver tells the device about new chains.
#[derive(Debug)]
pub struct Available {
    flags: u16,
    idx: u16,
    ring: Vec<u16>,
    event: u16,
}

impl View for Available {
    type V = AvailableView;

    closed spec fn view(&self) -> AvailableView {
        AvailableView { flags: self.flags, idx: self.idx, ring: self.ring@, event: self.event }
    }
}

impl Available {
    /// The flags word, which the driver leaves at zero.
    pub fn flags(&self) -> (flags: u16)
        ensures
            flags == self@.flags,
    {
        self.flags
    }

    /// The producer index: the slot that the next chain head goes to.
    pub fn idx(&self) -> (idx: u16)
        ensures
            idx == self@.idx,
    {
        self.idx
    }

    /// Number of slots.
    pub fn len(&self) -> (n: usize)
        ensures
            n == self@.ring.len(),
    {
        self.ring.len()
    }

    /// The chain head in slot `slot`.
    pub fn ring(&self, slot: u16) -> (head: u16)
        requires
            slot < self@.ring.len(),
        ensures
            head == self@.ring[slot as int],
    {
        self.ring[slot as usize]
    }

    /// The word after the last slot, which the driver leaves at zero.
    pub fn event(&self) -> (event: u16)
        ensures
            event == self@.event,
    {
        self.event
    }
}

/// The driver's side of one ring: the descriptor table and the available
/// ring, as the driver last wrote them. The used ring belongs to the device
/// and is not held here.
#[derive(Debug)]
pub struct Queue {
    desc: Vec<Descriptor>,
    avail: Available,
}

impl View for Queue {
    type V = QueueView;

    closed spec fn view(&self) -> QueueView {
        QueueView { desc: self.desc@, avail: self.avail@ }
    }
}

impl Queue {
    /// Every ring is well formed.
    #[verifier::type_invariant]
    pub open spec fn inv(self) -> bool {
        self@.wf()
    }

    /// A ring of `capacity` slots as zeroed memory holds it.
    pub fn new(capacity: u16) -> (q: Queue)
        requires
            capacity > 0,
        ensures
            q@ == QueueView::zeroed(capacity as nat),
            q@.wf(),
    {
        let mut desc: Vec<Descriptor> = Vec::new();
        let mut ring: Vec<u16> = Vec::new();
        let mut i: u16 = 0;
        while i < capacity
            invariant
                i <= capacity,
                desc@ == Seq::new(
                    i as nat,
                    |k: int| Descriptor { addr: 0, len: 0, flags: 0, next: 0 },
                ),
                ring@ == Seq::new(i as nat, |k: int| 0u16),
            decreases capacity - i,
        {
            desc.push(Descriptor::zero());
            ring.push(0);
            i += 1;
        }
        Queue { desc, avail: Available { flags: 0, idx: 0, ring, event: 0 } }
    }

    /// Number of slots.
    pub fn capacity(&self) -> (n: u16)
        ensures
            n == self@.capacity(),
            n > 0,
            self@.wf(),
    {
        proof {
            use_type_invariant(self);
        }
        self.desc.len() as u16
    }

    /// The descriptor in slot `i`.
    pub fn desc(&self, i: u16) -> (d: Descriptor)
        requires
            i < self@.capacity(),
        ensures
            d == self@.desc[i as int],
    {
        self.desc[i as usize]
    }

    /// The available ring.
    pub fn avail(&self) -> (a: &Available)
        ensures
            a@ == self@.avail,
    {
        &self.avail
    }

    /// Writes `d` into slot `i`.
    pub(crate) fn store(&mut self, i: u16, d: Descriptor)
        requires
            i < old(self)@.capacity(),
        ensures
            final(self)@ == old(self)@.store(i, d),
    {
        proof {
            use_type_invariant(&*self);
        }
        self.desc[i as usize] = d;
    }

    /// Hands the chain that starts at descriptor `head` to the device and
    /// returns the slot of the available ring that now names it.
    pub(crate) fn publish(&mut self, head: u16) -> (slot: u16)
        ensures
            final(self)@ == old(self)@.publish(head),
            slot == old(self)@.avail.idx,
    {
        proof {
            use_type_invariant(&*self);
        }
        let capacity = self.desc.len() as u16;
        let slot = self.avail.idx;
        self.avail.ring[slot as usize] = head;
        self.avail.idx = next_index(slot, capacity);
        slot
    }

    /// Byte offset of descriptor `i` from the base of the ring.
    pub fn desc_offset(i: u16) -> (offset: usize)
        ensures
            offset == QueueView::desc_offset(i),
    {
        DESCRIPTOR_SIZE * (i as usize)
    }

    /// Byte offset of the available ring's producer index from the base of
    /// a ring of `capacity` slots.
    pub fn avail_idx_offset(capacity: u16) -> (offset: usize)
        ensures
            offset == QueueView::avail_idx_offset(capacity),
    {
        DESCRIPTOR_SIZE * (capacity as usize) + 2
    }

    /// Byte offset of slot `slot` of the available ring from the base of a
    /// ring of `capacity` slots.
    pub fn avail_ring_offset(capacity: u16, slot: u16) -> (offset: usize)
        ensures
            offset == QueueView::avail_ring_offset(capacity, slot),
    {
        DESCRIPTOR_SIZE * (capacity as usize) + 4 + 2 * (slot as usize)
    }

    /// Whole pages that hold a ring of `capacity` slots.
    pub fn pages(capacity: u16) -> (pages: usize)
        ensures
            pages == QueueView::pages(capacity),
            pages >= 1,
    {
        let driver: usize = DESCRIPTOR_SIZE * (capacity as usize) + 6 + 2 * (capacity as usize);
        let used_offset: usize = (driver + PAGE_SIZE - 1) / PAGE_SIZE * PAGE_SIZE;
        let size: usize = used_offset + 6 + 8 * (capacity as usize);
        (size + PAGE_SIZE - 1) / PAGE_SIZE
    }
}

} // verus!
