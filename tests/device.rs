use e1000::regs::{
    E1000_CTL, E1000_CTL_RST, E1000_ICR, E1000_ICS, E1000_IMC, E1000_IMS, E1000_MTA, E1000_RCTL,
    E1000_RDBAH, E1000_RDBAL, E1000_RDH, E1000_RDLEN, E1000_RDT, E1000_REG_COUNT, E1000_TCTL,
    E1000_TDBAH, E1000_TDBAL, E1000_TDH, E1000_TDLEN, E1000_TDT, E1000_TIPG,
};
use e1000::ring::{MBUF_SIZE, RX_RING_SIZE, TX_RING_SIZE};
use e1000::{DmaRegion, E1000Device, E1000Error, SimPlatform, Volatile};

fn reg_block(fill: u32) -> Vec<Volatile<u32>> {
    (0..E1000_REG_COUNT).map(|_| Volatile::new(fill)).collect()
}

fn platform() -> SimPlatform {
    SimPlatform::new(0x4000_0000, 0x8000_0000)
}

fn device() -> E1000Device<SimPlatform> {
    E1000Device::new(platform(), reg_block(0)).unwrap()
}

fn ping_frame() -> Vec<u8> {
    let mut f = vec![0xffu8; 6];
    f.extend_from_slice(&[0x52, 0x54, 0x00, 0x12, 0x34, 0x56, 0x08, 0x06]);
    while f.len() < 60 {
        f.push(f.len() as u8);
    }
    f
}

#[test]
fn it_works() {}

#[test]
fn four_transmits_advance_tail_and_complete() {
    let mut dev = device();
    let frame = ping_frame();
    assert_eq!(frame.len(), 60);
    for _ in 0..4 {
        assert_eq!(dev.e1000_transmit(&frame), 60);
    }
    assert_eq!(dev.register(E1000_TDT), 4);
    for i in 0..4 {
        assert_eq!(dev.tx_desc(i).status, 0);
        assert_eq!(dev.tx_desc(i).length, 60);
        assert_eq!(dev.tx_desc(i).cmd, 0x09);
        assert_eq!(&dev.tx_buffer(i)[..60], &frame[..]);
    }
    for _ in 0..4 {
        assert!(dev.hw_complete_transmit());
    }
    assert!(!dev.hw_complete_transmit());
    assert_eq!(dev.register(E1000_TDH), 4);
    for i in 0..4 {
        assert!(dev.tx_desc(i).is_done());
    }
}

#[test]
fn receive_one_frame_in_slot_zero() {
    let mut dev = device();
    let frame: Vec<u8> = (0..64u8).collect();
    let addr = dev.rx_desc(0).addr;
    assert!(dev.hw_deliver_frame(&frame));
    assert!(dev.rx_desc(0).is_done());
    let packets = dev.e1000_recv().unwrap();
    assert_eq!(packets.len(), 1);
    assert_eq!(packets[0].len(), 64);
    assert_eq!(packets[0], frame);
    assert_eq!(dev.register(E1000_RDT), 0);
    assert_eq!(dev.rx_desc(0).status, 0);
    assert_eq!(dev.rx_desc(0).addr, addr);
    assert!(dev.rx_buffer(0)[..64].iter().all(|b| *b == 0));
}

#[test]
fn receive_twice_without_traffic_is_empty() {
    let mut dev = device();
    assert_eq!(dev.e1000_recv().unwrap().len(), 0);
    assert_eq!(dev.e1000_recv().unwrap().len(), 0);
    assert!(dev.hw_deliver_frame(&[1, 2, 3]));
    assert!(dev.hw_deliver_frame(&[4, 5]));
    let first = dev.e1000_recv().unwrap();
    assert_eq!(first, vec![vec![1u8, 2, 3], vec![4u8, 5]]);
    assert_eq!(dev.register(E1000_RDT), 1);
    assert_eq!(dev.e1000_recv().unwrap().len(), 0);
    assert_eq!(dev.e1000_recv().unwrap().len(), 0);
    assert_eq!(dev.register(E1000_RDT), 1);
}

#[test]
fn no_packet_before_device_marks_done() {
    let mut dev = device();
    assert_eq!(dev.e1000_recv().unwrap().len(), 0);
    assert!(dev.hw_deliver_frame(&[9u8; 10]));
    let got = dev.e1000_recv().unwrap();
    assert_eq!(got, vec![vec![9u8; 10]]);
}

#[test]
fn receive_cuts_long_frames_and_clears_64_bytes() {
    let mut dev = device();
    let frame: Vec<u8> = (0..3000usize).map(|i| (i % 251) as u8 + 1).collect();
    assert!(dev.hw_deliver_frame(&frame));
    assert_eq!(dev.rx_desc(0).length as usize, MBUF_SIZE);
    let got = dev.e1000_recv().unwrap();
    assert_eq!(got.len(), 1);
    assert_eq!(got[0], frame[..MBUF_SIZE].to_vec());
    let buf = dev.rx_buffer(0);
    assert!(buf[..64].iter().all(|b| *b == 0));
    assert_eq!(buf[64], frame[64]);
}

#[test]
fn device_fills_at_most_all_but_one_slot() {
    let mut dev = device();
    for i in 0..RX_RING_SIZE - 1 {
        assert!(dev.hw_deliver_frame(&[i as u8]));
    }
    assert!(!dev.hw_deliver_frame(&[0xAA]));
    let got = dev.e1000_recv().unwrap();
    assert_eq!(got.len(), RX_RING_SIZE - 1);
    assert_eq!(got[7], vec![7u8]);
    assert_eq!(dev.register(E1000_RDT) as usize, RX_RING_SIZE - 2);
    assert!(dev.hw_deliver_frame(&[0xBB]));
    let again = dev.e1000_recv().unwrap();
    assert_eq!(again, vec![vec![0xBBu8]]);
    assert_eq!(dev.register(E1000_RDT) as usize, RX_RING_SIZE - 1);
}

#[test]
fn transmit_exact_buffer_size_is_unmodified() {
    let mut dev = device();
    let packet: Vec<u8> = (0..MBUF_SIZE).map(|i| (i % 256) as u8).collect();
    assert_eq!(dev.e1000_transmit(&packet), MBUF_SIZE as i32);
    assert_eq!(dev.tx_buffer(0), &packet);
    assert_eq!(dev.tx_desc(0).length as usize, MBUF_SIZE);
}

#[test]
fn transmit_one_byte_over_is_truncated() {
    let mut dev = device();
    let packet: Vec<u8> = (0..MBUF_SIZE + 1).map(|i| (i % 253) as u8).collect();
    assert_eq!(dev.e1000_transmit(&packet), MBUF_SIZE as i32);
    assert_eq!(dev.tx_buffer(0)[..], packet[..MBUF_SIZE]);
    assert_eq!(dev.tx_desc(0).length as usize, MBUF_SIZE);
}

#[test]
fn transmit_busy_when_ring_full() {
    let mut dev = device();
    for i in 0..TX_RING_SIZE {
        assert_eq!(dev.e1000_transmit(&[i as u8]), 1);
    }
    assert_eq!(dev.register(E1000_TDT), 0);
    let before = dev.tx_buffer(0).clone();
    for _ in 0..3 {
        assert_eq!(dev.e1000_transmit(&[0xEE, 0xEE]), -1);
    }
    assert_eq!(dev.register(E1000_TDT), 0);
    assert_eq!(dev.tx_buffer(0), &before);
    assert_eq!(dev.tx_desc(0).length, 1);
    // Head and tail meet: the device sees no queued packet, the ring stays stuck.
    assert!(!dev.hw_complete_transmit());
    assert_eq!(dev.e1000_transmit(&[0xEE]), -1);
}

#[test]
fn transmit_and_complete_in_turn() {
    let mut dev = device();
    for i in 0..300usize {
        assert_eq!(dev.e1000_transmit(&[i as u8, 0, 1]), 3);
        assert!(dev.hw_complete_transmit());
    }
    assert_eq!(dev.register(E1000_TDT) as usize, 300 % TX_RING_SIZE);
    assert_eq!(dev.register(E1000_TDH) as usize, 300 % TX_RING_SIZE);
    assert_eq!(dev.tx_buffer(299 % TX_RING_SIZE)[0], (299usize % 256) as u8);
}

#[test]
fn transmit_touches_only_tail_buffer() {
    let mut dev = device();
    dev.e1000_transmit(&[1, 1, 1]);
    let others: Vec<Vec<u8>> = (0..TX_RING_SIZE).map(|i| dev.tx_buffer(i).clone()).collect();
    let rx_before = dev.rx_buffer(1).clone();
    dev.e1000_transmit(&[2, 2]);
    for i in 0..TX_RING_SIZE {
        if i != 1 {
            assert_eq!(dev.tx_buffer(i), &others[i]);
        }
    }
    assert_eq!(&dev.tx_buffer(1)[..3], &[2, 2, 0]);
    assert_eq!(dev.rx_buffer(1), &rx_before);
}

#[test]
fn bring_up_programs_registers() {
    let dev = E1000Device::new(SimPlatform::new(0x1000, 0x1_2345_6000), reg_block(0x5A5A_5A5A)).unwrap();
    assert_eq!(dev.register(E1000_CTL), 0x5A5A_5A5A | E1000_CTL_RST);
    assert_eq!(dev.register(E1000_CTL) & 0x0400_0000, 0x0400_0000);
    assert_eq!(dev.register(E1000_TCTL), 0x0004_010A);
    assert_eq!(dev.register(E1000_TIPG), 0x0060_200A);
    assert_eq!(dev.register(E1000_RCTL), 0x0400_8002);
    assert_eq!(dev.register(E1000_IMS), 0x80);
    assert_eq!(dev.register(E1000_TDBAL), 0x2345_6000);
    assert_eq!(dev.register(E1000_TDBAH), 0x1);
    assert_eq!(dev.register(E1000_TDLEN), 4096);
    assert_eq!(dev.register(E1000_RDBAL), 0x2345_7000);
    assert_eq!(dev.register(E1000_RDBAH), 0x1);
    assert_eq!(dev.register(E1000_RDLEN), 4096);
    assert_eq!(dev.register(E1000_TDT), 0);
    assert_eq!(dev.register(E1000_TDH), 0);
    assert_eq!(dev.register(E1000_RDH), 0);
    assert_eq!(dev.register(E1000_RDT), 255);
    for i in 0..128 {
        assert_eq!(dev.register(E1000_MTA + i), 0);
    }
    assert_eq!(dev.register(E1000_MTA + 128), 0x5A5A_5A5A);
    assert_eq!(dev.register(E1000_ICR), 0x5A5A_5A5A);
}

#[test]
fn bring_up_binds_buffers_to_slots() {
    let dev = device();
    assert_eq!(dev.tx_ring_len(), 256);
    assert_eq!(dev.rx_ring_len(), 256);
    // Rings take one page each, buffers follow.
    let tx_buf = 0x8000_0000u64 + 2 * 4096;
    let rx_buf = tx_buf + 128 * 4096;
    for i in [0usize, 1, 100, 255] {
        assert_eq!(dev.tx_desc(i).addr, tx_buf + (i * MBUF_SIZE) as u64);
        assert!(dev.tx_desc(i).is_done());
        assert_eq!(dev.rx_desc(i).addr, rx_buf + (i * MBUF_SIZE) as u64);
        assert!(!dev.rx_desc(i).is_done());
        assert_eq!(dev.tx_buffer(i).len(), MBUF_SIZE);
        assert!(dev.rx_buffer(i).iter().all(|b| *b == 0));
    }
}

#[test]
fn ring_sizes_are_checked() {
    for bad in [0usize, 3, 4, 100, 65536, 1 << 20] {
        let r = E1000Device::with_ring_sizes(platform(), reg_block(0), bad, 256);
        assert_eq!(r.err(), Some(E1000Error::InvalidRingSize));
        let r = E1000Device::with_ring_sizes(platform(), reg_block(0), 256, bad);
        assert_eq!(r.err(), Some(E1000Error::InvalidRingSize));
    }
    let dev = E1000Device::with_ring_sizes(platform(), reg_block(0), 8, 32768).unwrap();
    assert_eq!(dev.tx_ring_len(), 8);
    assert_eq!(dev.rx_ring_len(), 32768);
    assert_eq!(dev.register(E1000_TDLEN), 128);
    assert_eq!(dev.register(E1000_RDT), 32767);
}

#[test]
fn release_frees_all_regions() {
    let dev = device();
    assert_eq!(dev.kernel_func().allocation_log().len(), 4);
    assert!(dev.kernel_func().release_log().is_empty());
    let pool = dev.release();
    let allocated: Vec<(usize, usize)> = pool.allocation_log().iter().map(|a| (a.1 .0, a.0)).collect();
    assert_eq!(pool.release_log(), &allocated);
    let pages: Vec<usize> = pool.allocation_log().iter().map(|a| a.0).collect();
    assert_eq!(pages, vec![1, 1, 128, 128]);
}

#[test]
fn allocations_that_do_not_fit_are_returned() {
    let region = |v: usize, p: usize, pages: usize| DmaRegion { vaddr: v, paddr: p, pages };
    let r = E1000Device::from_allocations(
        platform(),
        reg_block(0),
        8,
        8,
        region(0x1000, 0x1000, 1),
        region(0, 0, 1),
        region(0x3000, 0x3000, 4),
        region(0x9000, 0, 4),
    );
    let k = match r {
        Ok(_) => panic!("a region at device address zero was accepted"),
        Err(k) => k,
    };
    assert_eq!(k.release_log(), &vec![(0x1000, 1), (0x3000, 4), (0x9000, 4)]);
    let ok = E1000Device::from_allocations(
        platform(),
        reg_block(0),
        8,
        8,
        region(0x1000, 0x1000, 1),
        region(0x2000, 0x2000, 1),
        region(0x3000, 0x3000, 4),
        region(0x9000, 0x9000, 4),
    );
    let dev = ok.ok().unwrap();
    assert_eq!(dev.rx_desc(1).addr, 0x9000 + 2048);
    assert!(dev.kernel_func().release_log().is_empty());
}

#[test]
fn platform_running_out_of_addresses_fails_construction() {
    let r = E1000Device::new(SimPlatform::new(usize::MAX - 0x10_0000, 0x1000), reg_block(0));
    assert_eq!(r.err(), Some(E1000Error::DmaAllocFailed));
}

#[test]
fn receive_clears_64_bytes_of_a_short_packet() {
    let mut dev = device();
    let long: Vec<u8> = vec![0x77; 100];
    assert!(dev.hw_deliver_frame(&long));
    assert_eq!(dev.e1000_recv().unwrap().len(), 1);
    assert!(dev.hw_deliver_frame(&[5u8; 10]));
    assert!(dev.hw_deliver_frame(&long));
    assert!(dev.hw_deliver_frame(&[6u8; 10]));
    let got = dev.e1000_recv().unwrap();
    assert_eq!(got, vec![vec![5u8; 10], vec![0x77; 100], vec![6u8; 10]]);
    assert!(dev.rx_buffer(2)[..64].iter().all(|b| *b == 0));
    assert_eq!(dev.rx_buffer(2)[64], 0x77);
    assert!(dev.rx_buffer(3)[..64].iter().all(|b| *b == 0));
}

#[test]
fn interrupt_controls() {
    let mut regs = reg_block(0);
    regs[E1000_ICR] = Volatile::new(0x84);
    let mut dev = E1000Device::new(platform(), regs).unwrap();
    dev.e1000_irq_enable();
    assert_eq!(dev.register(E1000_IMS), 0x9D);
    dev.e1000_irq_disable();
    assert_eq!(dev.register(E1000_IMC), 0xFFFF_FFFF);
    dev.e1000_cause_lsc_int();
    assert_eq!(dev.register(E1000_ICS), 0x4);
    assert_eq!(dev.e1000_intr(), 0x84);
    dev.e1000_write_flush();
    assert_eq!(dev.register(E1000_IMS), 0x9D);
}
