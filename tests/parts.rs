use e1000::desc::{RxDesc, TxDesc};
use e1000::fs::DirEntryType;
use e1000::ring::{is_power_of_two, pages_needed, ring_size_ok};
use e1000::Volatile;

#[test]
fn volatile_cell_round_trip() {
    let mut v = Volatile::new(21u32);
    assert_eq!(v.read(), 21);
    v.update(|x| *x *= 2);
    assert_eq!(v.read(), 42);
    v.write(7);
    assert_eq!(v.read(), 7);
    assert_eq!(v.clone().read(), 7);
}

#[test]
fn ring_geometry_checks() {
    assert!(is_power_of_two(1));
    assert!(is_power_of_two(256));
    assert!(!is_power_of_two(0));
    assert!(!is_power_of_two(96));
    assert!(!ring_size_ok(4));
    assert!(ring_size_ok(8));
    assert!(ring_size_ok(256));
    assert!(ring_size_ok(32768));
    assert!(!ring_size_ok(65536));
    assert_eq!(pages_needed(4096), 1);
    assert_eq!(pages_needed(4097), 2);
    assert_eq!(pages_needed(256 * 2048), 128);
    assert_eq!(pages_needed(0), 0);
}

#[test]
fn descriptor_done_bits() {
    let mut t = TxDesc::zeroed();
    assert!(!t.is_done());
    t.status = 0x03;
    assert!(t.is_done());
    t.status = 0x02;
    assert!(!t.is_done());
    let mut r = RxDesc::zeroed();
    assert!(!r.is_done());
    r.status = 0x01;
    assert!(r.is_done());
}

#[test]
fn dir_entry_codes() {
    assert_eq!(DirEntryType::Unknown.value(), 0);
    assert_eq!(DirEntryType::Dir.value(), 4);
    assert_eq!(DirEntryType::Reg.value(), 8);
    assert_eq!(DirEntryType::Wht.value(), 14);
}

#[test]
fn tx_descriptor_layout() {
    let d = TxDesc {
        addr: 0x1122_3344_5566_7788,
        length: 0x0102,
        cso: 3,
        cmd: 9,
        status: 1,
        css: 4,
        special: 0xABCD,
    };
    let b = d.to_bytes();
    assert_eq!(
        b,
        [0x88, 0x77, 0x66, 0x55, 0x44, 0x33, 0x22, 0x11, 0x02, 0x01, 3, 9, 1, 4, 0xCD, 0xAB]
    );
    assert_eq!(TxDesc::from_bytes(&b), d);
}

#[test]
fn rx_descriptor_layout() {
    let b: [u8; 16] = [1, 2, 3, 4, 5, 6, 7, 8, 0x40, 0x00, 0x34, 0x12, 0x03, 0x00, 0x00, 0x80];
    let d = RxDesc::from_bytes(&b);
    assert_eq!(d.addr, 0x0807_0605_0403_0201);
    assert_eq!(d.length, 64);
    assert_eq!(d.csum, 0x1234);
    assert_eq!(d.status, 3);
    assert_eq!(d.errors, 0);
    assert_eq!(d.special, 0x8000);
    assert!(d.is_done());
    assert_eq!(d.to_bytes(), b);
}
