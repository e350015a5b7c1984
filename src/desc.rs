//! The legacy transmit and receive descriptor records shared with the device.
use vstd::prelude::*;
use crate::regs::{E1000_RXD_STAT_DD, E1000_TXD_STAT_DD};

verus! {

/// Size in bytes of one descriptor of either kind, as the device lays it out.
pub const DESC_SIZE: usize = 16;

/// A legacy transmit descriptor: buffer address, packet length, checksum offset,
/// command, status, checksum start and special field, in the device's field order.
#[derive(Clone, Copy, Debug, PartialEq, Eq, Structural)]
pub struct TxDesc {
    pub addr: u64,
    pub length: u16,
    pub cso: u8,
    pub cmd: u8,
    pub status: u8,
    pub css: u8,
    pub special: u16,
}

/// A legacy receive descriptor: buffer address, received length, packet
/// checksum, status, errors and special field, in the device's field order.
#[derive(Clone, Copy, Debug, PartialEq, Eq, Structural)]
pub struct RxDesc {
    pub addr: u64,
    pub length: u16,
    pub csum: u16,
    pub status: u8,
    pub errors: u8,
    pub special: u16,
}

/// The device has finished with this transmit descriptor (status bit DD).
pub open spec fn tx_done(d: TxDesc) -> bool {
    d.status & E1000_TXD_STAT_DD != 0
}

/// The device has filled this receive descriptor (status bit DD).
pub open spec fn rx_done(d: RxDesc) -> bool {
    d.status & E1000_RXD_STAT_DD != 0
}

/// A cleared status byte has no DD bit.
pub proof fn lemma_zero_status_not_done()
    ensures
        0u8 & E1000_TXD_STAT_DD == 0,
        0u8 & E1000_RXD_STAT_DD == 0,
{
    assert(0u8 & 1u8 == 0u8) by (bit_vector);
}

impl TxDesc {
    /// A descriptor with every field zero.
    pub fn zeroed() -> (r: TxDesc)
        ensures
            r == (TxDesc { addr: 0, length: 0, cso: 0, cmd: 0, status: 0, css: 0, special: 0 }),
    {
        TxDesc { addr: 0, length: 0, cso: 0, cmd: 0, status: 0, css: 0, special: 0 }
    }

    /// Whether the device reports this descriptor done.
    pub fn is_done(&self) -> (r: bool)
        ensures
            r == tx_done(*self),
    {
        self.status & E1000_TXD_STAT_DD != 0
    }
}

impl RxDesc {
    /// A descriptor with every field zero.
    pub fn zeroed() -> (r: RxDesc)
        ensures
            r == (RxDesc { addr: 0, length: 0, csum: 0, status: 0, errors: 0, special: 0 }),
    {
        RxDesc { addr: 0, length: 0, csum: 0, status: 0, errors: 0, special: 0 }
    }

    /// Whether the device reports this descriptor filled.
    pub fn is_done(&self) -> (r: bool)
        ensures
            r == rx_done(*self),
    {
        self.status & E1000_RXD_STAT_DD != 0
    }
}

/// The 16 bytes the device reads for a transmit descriptor: each field in order,
/// least significant byte first.
pub open spec fn tx_desc_bytes(d: TxDesc) -> Seq<u8> {
    seq![
        d.addr as u8, (d.addr >> 8u64) as u8, (d.addr >> 16u64) as u8, (d.addr >> 24u64) as u8,
        (d.addr >> 32u64) as u8, (d.addr >> 40u64) as u8, (d.addr >> 48u64) as u8, (d.addr >> 56u64) as u8,
        d.length as u8, (d.length >> 8u16) as u8, d.cso, d.cmd, d.status, d.css,
        d.special as u8, (d.special >> 8u16) as u8,
    ]
}

/// The 16 bytes the device reads for a receive descriptor: each field in order,
/// least significant byte first.
pub open spec fn rx_desc_bytes(d: RxDesc) -> Seq<u8> {
    seq![
        d.addr as u8, (d.addr >> 8u64) as u8, (d.addr >> 16u64) as u8, (d.addr >> 24u64) as u8,
        (d.addr >> 32u64) as u8, (d.addr >> 40u64) as u8, (d.addr >> 48u64) as u8, (d.addr >> 56u64) as u8,
        d.length as u8, (d.length >> 8u16) as u8, d.csum as u8, (d.csum >> 8u16) as u8, d.status, d.errors,
        d.special as u8, (d.special >> 8u16) as u8,
    ]
}

/// The little-endian 64-bit value of eight bytes.
pub open spec fn le_u64(b0: u8, b1: u8, b2: u8, b3: u8, b4: u8, b5: u8, b6: u8, b7: u8) -> u64 {
    (b0 as u64) | ((b1 as u64) << 8u64) | ((b2 as u64) << 16u64) | ((b3 as u64) << 24u64) | ((b4 as u64)
        << 32u64) | ((b5 as u64) << 40u64) | ((b6 as u64) << 48u64) | ((b7 as u64) << 56u64)
}

/// The little-endian 16-bit value of two bytes.
pub open spec fn le_u16(b0: u8, b1: u8) -> u16 {
    (b0 as u16) | ((b1 as u16) << 8u16)
}

/// The transmit descriptor laid out in 16 bytes.
pub open spec fn tx_desc_from(b: Seq<u8>) -> TxDesc {
    TxDesc {
        addr: le_u64(b[0], b[1], b[2], b[3], b[4], b[5], b[6], b[7]),
        length: le_u16(b[8], b[9]),
        cso: b[10],
        cmd: b[11],
        status: b[12],
        css: b[13],
        special: le_u16(b[14], b[15]),
    }
}

/// The receive descriptor laid out in 16 bytes.
pub open spec fn rx_desc_from(b: Seq<u8>) -> RxDesc {
    RxDesc {
        addr: le_u64(b[0], b[1], b[2], b[3], b[4], b[5], b[6], b[7]),
        length: le_u16(b[8], b[9]),
        csum: le_u16(b[10], b[11]),
        status: b[12],
        errors: b[13],
        special: le_u16(b[14], b[15]),
    }
}

fn read_le_u64(b: &[u8; 16]) -> (r: u64)
    ensures
        r == le_u64(b@[0], b@[1], b@[2], b@[3], b@[4], b@[5], b@[6], b@[7]),
{
    (b[0] as u64) | ((b[1] as u64) << 8u64) | ((b[2] as u64) << 16u64) | ((b[3] as u64) << 24u64) | ((
    b[4] as u64) << 32u64) | ((b[5] as u64) << 40u64) | ((b[6] as u64) << 48u64) | ((b[7] as u64)
        << 56u64)
}

fn read_le_u16(b: &[u8; 16], i: usize) -> (r: u16)
    requires
        i + 1 < 16,
    ensures
        r == le_u16(b@[i as int], b@[i + 1]),
{
    (b[i] as u16) | ((b[i + 1] as u16) << 8u16)
}

impl TxDesc {
    /// The descriptor as the device lays it out in memory.
    pub fn to_bytes(&self) -> (r: [u8; 16])
        ensures
            r@ == tx_desc_bytes(*self),
    {
        let a = self.addr;
        let r = [
            a as u8, (a >> 8u64) as u8, (a >> 16u64) as u8, (a >> 24u64) as u8, (a >> 32u64) as u8,
            (a >> 40u64) as u8, (a >> 48u64) as u8, (a >> 56u64) as u8, self.length as u8,
            (self.length >> 8u16) as u8, self.cso, self.cmd, self.status, self.css, self.special as u8,
            (self.special >> 8u16) as u8,
        ];
        assert(r@ =~= tx_desc_bytes(*self));
        r
    }

    /// The descriptor the device would read from these bytes.
    pub fn from_bytes(b: &[u8; 16]) -> (r: TxDesc)
        ensures
            r == tx_desc_from(b@),
    {
        TxDesc {
            addr: read_le_u64(b),
            length: read_le_u16(b, 8),
            cso: b[10],
            cmd: b[11],
            status: b[12],
            css: b[13],
            special: read_le_u16(b, 14),
        }
    }
}

impl RxDesc {
    /// The descriptor as the device lays it out in memory.
    pub fn to_bytes(&self) -> (r: [u8; 16])
        ensures
            r@ == rx_desc_bytes(*self),
    {
        let a = self.addr;
        let r = [
            a as u8, (a >> 8u64) as u8, (a >> 16u64) as u8, (a >> 24u64) as u8, (a >> 32u64) as u8,
            (a >> 40u64) as u8, (a >> 48u64) as u8, (a >> 56u64) as u8, self.length as u8,
            (self.length >> 8u16) as u8, self.csum as u8, (self.csum >> 8u16) as u8, self.status,
            self.errors, self.special as u8, (self.special >> 8u16) as u8,
        ];
        assert(r@ =~= rx_desc_bytes(*self));
        r
    }

    /// The descriptor the device would read from these bytes.
    pub fn from_bytes(b: &[u8; 16]) -> (r: RxDesc)
        ensures
            r == rx_desc_from(b@),
    {
        RxDesc {
            addr: read_le_u64(b),
            length: read_le_u16(b, 8),
            csum: read_le_u16(b, 10),
            status: b[12],
            errors: b[13],
            special: read_le_u16(b, 14),
        }
    }
}

proof fn lemma_u64_bytes(x: u64)
    ensures
        le_u64(
            x as u8,
            (x >> 8u64) as u8,
            (x >> 16u64) as u8,
            (x >> 24u64) as u8,
            (x >> 32u64) as u8,
            (x >> 40u64) as u8,
            (x >> 48u64) as u8,
            (x >> 56u64) as u8,
        ) == x,
{
    assert(((x as u8) as u64) | ((((x >> 8u64) as u8) as u64) << 8u64) | ((((x >> 16u64) as u8) as u64)
        << 16u64) | ((((x >> 24u64) as u8) as u64) << 24u64) | ((((x >> 32u64) as u8) as u64) << 32u64)
        | ((((x >> 40u64) as u8) as u64) << 40u64) | ((((x >> 48u64) as u8) as u64) << 48u64) | ((((x
        >> 56u64) as u8) as u64) << 56u64) == x) by (bit_vector);
}

proof fn lemma_u16_bytes(x: u16)
    ensures
        le_u16(x as u8, (x >> 8u16) as u8) == x,
{
    assert(((x as u8) as u16) | ((((x >> 8u16) as u8) as u16) << 8u16) == x) by (bit_vector);
}

proof fn lemma_bytes_u64(b0: u8, b1: u8, b2: u8, b3: u8, b4: u8, b5: u8, b6: u8, b7: u8)
    ensures
        ({
            let x = le_u64(b0, b1, b2, b3, b4, b5, b6, b7);
            &&& x as u8 == b0
            &&& (x >> 8u64) as u8 == b1
            &&& (x >> 16u64) as u8 == b2
            &&& (x >> 24u64) as u8 == b3
            &&& (x >> 32u64) as u8 == b4
            &&& (x >> 40u64) as u8 == b5
            &&& (x >> 48u64) as u8 == b6
            &&& (x >> 56u64) as u8 == b7
        }),
{
    let x = le_u64(b0, b1, b2, b3, b4, b5, b6, b7);
    assert(x == (b0 as u64) | ((b1 as u64) << 8u64) | ((b2 as u64) << 16u64) | ((b3 as u64) << 24u64)
        | ((b4 as u64) << 32u64) | ((b5 as u64) << 40u64) | ((b6 as u64) << 48u64) | ((b7 as u64)
        << 56u64));
    assert(x as u8 == b0 && (x >> 8u64) as u8 == b1 && (x >> 16u64) as u8 == b2 && (x >> 24u64) as u8
        == b3 && (x >> 32u64) as u8 == b4 && (x >> 40u64) as u8 == b5 && (x >> 48u64) as u8 == b6 && (x
        >> 56u64) as u8 == b7) by (bit_vector)
        requires
            x == (b0 as u64) | ((b1 as u64) << 8u64) | ((b2 as u64) << 16u64) | ((b3 as u64) << 24u64)
                | ((b4 as u64) << 32u64) | ((b5 as u64) << 40u64) | ((b6 as u64) << 48u64) | ((
            b7 as u64) << 56u64),
    ;
}

proof fn lemma_bytes_u16(b0: u8, b1: u8)
    ensures
        le_u16(b0, b1) as u8 == b0,
        (le_u16(b0, b1) >> 8u16) as u8 == b1,
{
    let x = le_u16(b0, b1);
    assert(x as u8 == b0 && (x >> 8u16) as u8 == b1) by (bit_vector)
        requires
            x == (b0 as u16) | ((b1 as u16) << 8u16),
    ;
}

/// Reading back the bytes of a descriptor gives the same descriptor, for both
/// kinds.
pub proof fn lemma_desc_round_trip(t: TxDesc, r: RxDesc)
    ensures
        tx_desc_from(tx_desc_bytes(t)) == t,
        rx_desc_from(rx_desc_bytes(r)) == r,
{
    lemma_u64_bytes(t.addr);
    lemma_u16_bytes(t.length);
    lemma_u16_bytes(t.special);
    lemma_u64_bytes(r.addr);
    lemma_u16_bytes(r.length);
    lemma_u16_bytes(r.csum);
    lemma_u16_bytes(r.special);
}

/// Laying out the descriptor read from 16 bytes gives those bytes back, for both
/// kinds.
pub proof fn lemma_bytes_round_trip(b: Seq<u8>)
    requires
        b.len() == 16,
    ensures
        tx_desc_bytes(tx_desc_from(b)) == b,
        rx_desc_bytes(rx_desc_from(b)) == b,
{
    lemma_bytes_u64(b[0], b[1], b[2], b[3], b[4], b[5], b[6], b[7]);
    lemma_bytes_u16(b[8], b[9]);
    lemma_bytes_u16(b[10], b[11]);
    lemma_bytes_u16(b[14], b[15]);
    assert(tx_desc_bytes(tx_desc_from(b)) =~= b);
    assert(rx_desc_bytes(rx_desc_from(b)) =~= b);
}

} // verus!
