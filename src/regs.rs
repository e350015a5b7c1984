//! Register map of the 8254x controller: indices into the register block (byte
//! offset divided by four) and the bit values the driver programs.
use vstd::prelude::*;

verus! {

/// Number of 32-bit registers in the mapped window (bytes 0x00000 to 0x1FFFF).
pub const E1000_REG_COUNT: usize = 0x7FFF;

/// Device control (byte offset 0x00000).
pub const E1000_CTL: usize = 0x0;

/// Device status (0x00008); read to flush posted writes.
pub const E1000_STAT: usize = 0x2;

/// Interrupt cause read (0x000C0).
pub const E1000_ICR: usize = 0x30;

/// Interrupt throttling (0x000C4).
pub const E1000_ITR: usize = 0x31;

/// Interrupt cause set (0x000C8).
pub const E1000_ICS: usize = 0x32;

/// Interrupt mask set / read (0x000D0).
pub const E1000_IMS: usize = 0x34;

/// Interrupt mask clear (0x000D8).
pub const E1000_IMC: usize = 0x36;

/// Receive control (0x00100).
pub const E1000_RCTL: usize = 0x40;

/// Transmit control (0x00400).
pub const E1000_TCTL: usize = 0x100;

/// Transmit inter-packet gap (0x00410).
pub const E1000_TIPG: usize = 0x104;

/// Receive descriptor base address, low half (0x02800).
pub const E1000_RDBAL: usize = 0xA00;

/// Receive descriptor base address, high half (0x02804).
pub const E1000_RDBAH: usize = 0xA01;

/// Receive descriptor ring length in bytes (0x02808).
pub const E1000_RDLEN: usize = 0xA02;

/// Receive descriptor head (0x02810).
pub const E1000_RDH: usize = 0xA04;

/// Receive descriptor tail (0x02818).
pub const E1000_RDT: usize = 0xA06;

/// Receive delay timer (0x02820).
pub const E1000_RDTR: usize = 0xA08;

/// Receive absolute delay timer (0x0282C).
pub const E1000_RADV: usize = 0xA0B;

/// Transmit descriptor base address, low half (0x03800).
pub const E1000_TDBAL: usize = 0xE00;

/// Transmit descriptor base address, high half (0x03804).
pub const E1000_TDBAH: usize = 0xE01;

/// Transmit descriptor ring length in bytes (0x03808).
pub const E1000_TDLEN: usize = 0xE02;

/// Transmit descriptor head (0x03810).
pub const E1000_TDH: usize = 0xE04;

/// Transmit descriptor tail (0x03818).
pub const E1000_TDT: usize = 0xE06;

/// Transmit interrupt delay (0x03820).
pub const E1000_TIDV: usize = 0xE08;

/// Transmit absolute interrupt delay (0x0382C).
pub const E1000_TADV: usize = 0xE0B;

/// Receive filter control (0x05008).
pub const E1000_RFCTL: usize = 0x1402;

/// First entry of the multicast table array (0x05200).
pub const E1000_MTA: usize = 0x1480;

/// Number of entries of the multicast table array (4096 bits).
pub const E1000_MTA_LEN: usize = 128;

/// CTL: software reset.
pub const E1000_CTL_RST: u32 = 0x0400_0000;

/// TCTL: transmit enable.
pub const E1000_TCTL_EN: u32 = 0x0000_0002;

/// TCTL: pad short packets.
pub const E1000_TCTL_PSP: u32 = 0x0000_0008;

/// TCTL: shift of the collision threshold field.
pub const E1000_TCTL_CT_SHIFT: u32 = 4;

/// TCTL: shift of the collision distance field.
pub const E1000_TCTL_COLD_SHIFT: u32 = 12;

/// RCTL: receive enable.
pub const E1000_RCTL_EN: u32 = 0x0000_0002;

/// RCTL: accept broadcast packets.
pub const E1000_RCTL_BAM: u32 = 0x0000_8000;

/// RCTL: 2048-byte receive buffers (buffer-size field zero).
pub const E1000_RCTL_SZ_2048: u32 = 0x0000_0000;

/// RCTL: strip the Ethernet CRC.
pub const E1000_RCTL_SECRC: u32 = 0x0400_0000;

/// ICR / IMS: transmit descriptor written back.
pub const E1000_ICR_TXDW: u32 = 0x0000_0001;

/// ICR / IMS: link status change.
pub const E1000_ICR_LSC: u32 = 0x0000_0004;

/// ICR / IMS: receive sequence error.
pub const E1000_ICR_RXSEQ: u32 = 0x0000_0008;

/// ICR / IMS: receive descriptor minimum threshold reached.
pub const E1000_ICR_RXDMT0: u32 = 0x0000_0010;

/// ICR / IMS: receiver timer interrupt.
pub const E1000_ICR_RXT0: u32 = 0x0000_0080;

/// The interrupt classes unmasked by `e1000_irq_enable`.
pub const IMS_ENABLE_MASK: u32 = E1000_ICR_RXT0 | E1000_ICR_TXDW | E1000_ICR_RXDMT0 | E1000_ICR_RXSEQ
    | E1000_ICR_LSC;

/// Value programmed into TCTL: enabled, short packets padded, collision threshold
/// 0x10, collision distance 0x40.
pub const TCTL_INIT: u32 = E1000_TCTL_EN | E1000_TCTL_PSP | (0x10 << E1000_TCTL_CT_SHIFT) | (0x40
    << E1000_TCTL_COLD_SHIFT);

/// Value programmed into TIPG: the IEEE 802.3 inter-packet gap timing.
pub const TIPG_INIT: u32 = 10 | (8 << 10) | (6 << 20);

/// Value programmed into RCTL: enabled, broadcast accepted, 2048-byte buffers,
/// CRC stripped, legacy descriptor type (bits 11:10 clear).
pub const RCTL_INIT: u32 = (E1000_RCTL_EN | E1000_RCTL_BAM | E1000_RCTL_SZ_2048 | E1000_RCTL_SECRC)
    & !(0b11 << 10);

/// Transmit descriptor command: end of packet.
pub const E1000_TXD_CMD_EOP: u8 = 0x01;

/// Transmit descriptor command: report status.
pub const E1000_TXD_CMD_RS: u8 = 0x08;

/// Transmit descriptor status: descriptor done.
pub const E1000_TXD_STAT_DD: u8 = 0x01;

/// Receive descriptor status: descriptor done.
pub const E1000_RXD_STAT_DD: u8 = 0x01;

/// Receive descriptor status: end of packet.
pub const E1000_RXD_STAT_EOP: u8 = 0x02;

} // verus!
