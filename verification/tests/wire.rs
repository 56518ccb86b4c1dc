use virtio_block::block::{Data, Header, Request, Status, VIRTIO_BLK_T_IN, VIRTIO_BLK_T_OUT};
use virtio_block::virtio::{Descriptor, MmioOffsets, StatusField};
use virtio_block::wire::put_le;

#[test]
fn put_le_writes_least_significant_byte_first() {
    let mut out = vec![0xaa];
    put_le(&mut out, 0x0102_0304_0506_0708, 8);
    assert_eq!(out, vec![0xaa, 8, 7, 6, 5, 4, 3, 2, 1]);

    let mut out = Vec::new();
    put_le(&mut out, 0x0102_0304_0506_0708, 2);
    assert_eq!(out, vec![8, 7]);

    let mut out = Vec::new();
    put_le(&mut out, 0x1234, 4);
    assert_eq!(out, vec![0x34, 0x12, 0, 0]);

    let mut out = vec![1, 2];
    put_le(&mut out, 0xffff, 0);
    assert_eq!(out, vec![1, 2]);

    let mut out = Vec::new();
    put_le(&mut out, u64::MAX, 10);
    assert_eq!(out, vec![255, 255, 255, 255, 255, 255, 255, 255, 0, 0]);
}

#[test]
fn put_le_agrees_with_the_standard_encoding() {
    for x in [0u64, 1, 255, 256, 0xdead_beef, u64::MAX, 0x8000_0000_0000_0000] {
        let mut out = Vec::new();
        put_le(&mut out, x, 8);
        assert_eq!(out, x.to_le_bytes().to_vec());
        let mut out = Vec::new();
        put_le(&mut out, x, 4);
        assert_eq!(out, (x as u32).to_le_bytes().to_vec());
    }
}

#[test]
fn descriptor_bytes() {
    let d = Descriptor { addr: 0x0102_0304_0506_0708, len: 0x1112_1314, flags: 3, next: 0x0105 };
    assert_eq!(
        d.to_bytes(),
        vec![
            0x08, 0x07, 0x06, 0x05, 0x04, 0x03, 0x02, 0x01, // address
            0x14, 0x13, 0x12, 0x11, // length
            0x03, 0x00, // flags
            0x05, 0x01, // next
        ]
    );
    assert_eq!(Descriptor::zero().to_bytes(), vec![0u8; 16]);
}

#[test]
fn header_bytes() {
    let h = Header { blktype: VIRTIO_BLK_T_OUT, reserved: 0, sector: 0x0000_0001_0000_0002 };
    assert_eq!(
        h.to_bytes(),
        vec![
            1, 0, 0, 0, // operation
            0, 0, 0, 0, // reserved
            2, 0, 0, 0, 1, 0, 0, 0, // sector
        ]
    );
    let h = Header { blktype: 13, reserved: 0xa1b2_c3d4, sector: 2 };
    assert_eq!(
        h.to_bytes(),
        vec![13, 0, 0, 0, 0xd4, 0xc3, 0xb2, 0xa1, 2, 0, 0, 0, 0, 0, 0, 0]
    );
}

#[test]
fn request_bytes() {
    let r = Request {
        header: Header { blktype: VIRTIO_BLK_T_IN, reserved: 0, sector: 2 },
        data: Data { data: 0x8040_0000 },
        status: Status { status: 0x6f },
        head: 0x0201,
    };
    let bytes = r.to_bytes();
    assert_eq!(bytes.len(), 32);
    assert_eq!(&bytes[0..16], &r.header.to_bytes()[..]);
    assert_eq!(&bytes[16..24], &[0, 0, 0x40, 0x80, 0, 0, 0, 0]);
    assert_eq!(bytes[24], 0x6f);
    assert_eq!(bytes[25], 0);
    assert_eq!(&bytes[26..28], &[0x01, 0x02]);
    assert_eq!(&bytes[28..32], &[0, 0, 0, 0]);
}

#[test]
fn register_offsets() {
    assert_eq!(MmioOffsets::HostFeatures.val(), 0x010);
    assert_eq!(MmioOffsets::GuestFeatures.val(), 0x020);
    assert_eq!(MmioOffsets::QueueNumMax.val(), 0x034);
    assert_eq!(MmioOffsets::QueueNum.val(), 0x038);
    assert_eq!(MmioOffsets::QueuePfn.val(), 0x040);
    assert_eq!(MmioOffsets::QueueNotify.val(), 0x050);
    assert_eq!(MmioOffsets::Status.val(), 0x070);
    assert_eq!(MmioOffsets::Status.scale32(), 0x1c);
    assert_eq!(MmioOffsets::HostFeatures.scale32(), 4);
    assert_eq!(MmioOffsets::QueueNotify.scaled(2), 0x28);
    assert_eq!(MmioOffsets::QueueNotify.scaled(1), 0x50);
}

#[test]
fn status_bits() {
    assert_eq!(StatusField::Acknowledge.val32(), 1);
    assert_eq!(StatusField::Driver.val32(), 2);
    assert_eq!(StatusField::DriverOk.val32(), 4);
    assert_eq!(StatusField::FeaturesOk.val32(), 8);
    assert_eq!(StatusField::Failed.val32(), 128);
    assert!(StatusField::test(11, StatusField::FeaturesOk));
    assert!(!StatusField::test(3, StatusField::FeaturesOk));
    assert!(StatusField::features_ok(8));
    assert!(!StatusField::features_ok(0xffff_fff7));
    assert!(StatusField::is_failed(139));
    assert!(!StatusField::is_failed(15));
    assert!(!StatusField::test(0, StatusField::Acknowledge));
}
