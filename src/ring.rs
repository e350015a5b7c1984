//! Ring geometry: which slot counts the device accepts, how many pages a ring
//! and its buffers take, and index arithmetic modulo the slot count.
use vstd::prelude::*;
use crate::desc::DESC_SIZE;

verus! {

/// Bytes in one page of DMA memory.
pub const PAGE_SIZE: usize = 4096;

/// Bytes in one packet buffer; each ring slot owns one.
pub const MBUF_SIZE: usize = 2048;

/// Slots of the transmit ring built by `E1000Device::new`.
pub const TX_RING_SIZE: usize = 256;

/// Slots of the receive ring built by `E1000Device::new`.
pub const RX_RING_SIZE: usize = 256;

/// The descriptor length registers hold a byte count below this bound (bits 19:7).
pub const RING_BYTES_LIMIT: usize = 0x10_0000;

/// The device requires a ring's byte size to be a multiple of this.
pub const RING_ALIGN: usize = 128;

/// `n` is a power of two.
pub open spec fn is_pow2(n: nat) -> bool
    decreases n,
{
    if n == 1 {
        true
    } else if n == 0 || n % 2 == 1 {
        false
    } else {
        is_pow2(n / 2)
    }
}

/// A ring of `slots` descriptors is accepted: the count is a power of two, the
/// ring's byte size is a multiple of 128 and fits the length register.
pub open spec fn ring_size_valid(slots: nat) -> bool {
    &&& is_pow2(slots)
    &&& (slots * DESC_SIZE) % (RING_ALIGN as int) == 0
    &&& slots * DESC_SIZE < RING_BYTES_LIMIT
}

/// Pages needed to hold `bytes` bytes.
pub open spec fn pages_for(bytes: nat) -> nat {
    ((bytes + PAGE_SIZE - 1) / (PAGE_SIZE as int)) as nat
}

/// The slot after `i` in a ring of `cap` slots.
pub open spec fn next_slot(i: int, cap: int) -> int {
    (i + 1) % cap
}

/// The slot `j` places after `start` in a ring of `cap` slots (`j <= cap`).
pub open spec fn slot_at(start: int, j: int, cap: int) -> int {
    if start + j < cap {
        start + j
    } else {
        start + j - cap
    }
}

/// How many places slot `s` lies after `start` in a ring of `cap` slots.
pub open spec fn offset_of(s: int, start: int, cap: int) -> int {
    if s >= start {
        s - start
    } else {
        s + cap - start
    }
}

/// Whether `n` is a power of two.
pub fn is_power_of_two(n: usize) -> (r: bool)
    ensures
        r == is_pow2(n as nat),
{
    let mut m = n;
    while m > 1 && m % 2 == 0
        invariant
            is_pow2(m as nat) == is_pow2(n as nat),
        decreases m,
    {
        m = m / 2;
    }
    m == 1
}

/// Whether the device accepts a ring of `slots` descriptors.
pub fn ring_size_ok(slots: usize) -> (r: bool)
    ensures
        r == ring_size_valid(slots as nat),
{
    if slots >= RING_BYTES_LIMIT / DESC_SIZE {
        return false;
    }
    is_power_of_two(slots) && (slots * DESC_SIZE) % RING_ALIGN == 0
}

/// Pages needed to hold `bytes` bytes.
pub fn pages_needed(bytes: usize) -> (r: usize)
    requires
        bytes + PAGE_SIZE <= usize::MAX,
    ensures
        r == pages_for(bytes as nat),
{
    (bytes + (PAGE_SIZE - 1)) / PAGE_SIZE
}

/// The slot after `i` equals `i + 1`, or zero at the end of the ring.
pub proof fn lemma_next_slot(i: int, cap: int)
    requires
        0 <= i < cap,
    ensures
        next_slot(i, cap) == if i + 1 == cap { 0 } else { i + 1 },
        0 <= next_slot(i, cap) < cap,
{
    if i + 1 == cap {
        vstd::arithmetic::div_mod::lemma_mod_self_0(cap);
    } else {
        vstd::arithmetic::div_mod::lemma_small_mod((i + 1) as nat, cap as nat);
    }
}

} // verus!
