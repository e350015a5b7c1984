//! The device controller: register block, both descriptor rings, their packet
//! buffers and the DMA memory they came from.
use vstd::prelude::*;
use crate::desc::{RxDesc, TxDesc, DESC_SIZE};
use crate::control::{init_trace, programmed_regs};
use crate::regs::{E1000_CTL, E1000_RDH, E1000_RDT, E1000_REG_COUNT, E1000_TDH, E1000_TDT, E1000_TXD_STAT_DD};
use crate::ring::{
    is_pow2, pages_for, pages_needed, ring_size_ok, ring_size_valid, MBUF_SIZE, RX_RING_SIZE, TX_RING_SIZE,
};
use crate::volatile::Volatile;

verus! {

/// Platform services the driver is built on. An implementation keeps, as
/// specification state, the record of the calls made to it.
pub trait KernelFunc: Sized {
    /// Every allocation so far, oldest first: the pages asked for and the
    /// (virtual, physical) address pair returned.
    spec fn allocations(&self) -> Seq<(usize, (usize, usize))>;

    /// Every release so far, oldest first: (virtual address, pages).
    spec fn releases(&self) -> Seq<(usize, usize)>;

    /// Allocates `pages` pages of zeroed, physically contiguous, page-aligned memory
    /// that the device can reach by DMA. Returns (cpu virtual address, device
    /// physical address); a virtual address of zero means the allocation failed.
    fn dma_alloc_coherent(&mut self, pages: usize) -> (r: (usize, usize))
        ensures
            final(self).allocations() == old(self).allocations().push((pages, r)),
            final(self).releases() == old(self).releases(),
    ;

    /// Returns memory obtained from `dma_alloc_coherent`, named by its virtual address.
    fn dma_free_coherent(&mut self, vaddr: usize, pages: usize)
        ensures
            final(self).releases() == old(self).releases().push((vaddr, pages)),
            final(self).allocations() == old(self).allocations(),
    ;
}

/// One access of the driver to the device or to memory the device reads, in the
/// order the driver makes them.
#[derive(Clone, Copy, Debug, PartialEq, Eq, Structural)]
pub enum Access {
    /// Read of a register.
    RegRead(usize),
    /// Write of a value to a register.
    RegWrite(usize, u32),
    /// Write of a transmit descriptor.
    TxDescWrite(usize),
    /// Write into the packet buffer of a transmit slot.
    TxBufWrite(usize),
    /// Write of a receive descriptor.
    RxDescWrite(usize),
    /// Read of the packet buffer of a receive slot.
    RxBufRead(usize),
    /// Write into the packet buffer of a receive slot.
    RxBufWrite(usize),
    /// A memory barrier.
    Fence,
}

/// Relies on core::sync::atomic::fence: orders the memory accesses before it
/// against those after it, for the device as for other cpus.
#[verifier::external_body]
fn memory_fence() {
    core::sync::atomic::fence(core::sync::atomic::Ordering::SeqCst)
}

/// Why a device could not be brought up.
#[derive(Clone, Copy, Debug, PartialEq, Eq, Structural)]
pub enum E1000Error {
    /// A ring's slot count is not a power of two, or its byte size is not a
    /// multiple of 128 or does not fit the length register.
    InvalidRingSize,
    /// The platform could not provide a DMA region.
    DmaAllocFailed,
}

/// One region of DMA memory: where the cpu sees it, where the device sees it, and
/// how many pages it spans.
#[derive(Clone, Copy, Debug, PartialEq, Eq, Structural)]
pub struct DmaRegion {
    pub vaddr: usize,
    pub paddr: usize,
    pub pages: usize,
}

/// The region was allocated, the device sees it at a non-zero address, and
/// `bytes` bytes from either of its addresses stay within the address space.
pub open spec fn region_fits(r: DmaRegion, bytes: int) -> bool {
    &&& r.vaddr != 0
    &&& r.paddr != 0
    &&& r.vaddr + bytes <= usize::MAX
    &&& r.paddr + bytes <= usize::MAX
}

impl DmaRegion {
    /// Whether the region was allocated and can hold `bytes` bytes without its
    /// addresses wrapping.
    pub fn fits(&self, bytes: usize) -> (r: bool)
        ensures
            r == region_fits(*self, bytes as int),
    {
        self.vaddr != 0 && self.paddr != 0 && self.vaddr <= usize::MAX - bytes && self.paddr
            <= usize::MAX - bytes
    }
}

/// The state of a device as the contracts speak of it.
pub struct DeviceView {
    /// The register block, one 32-bit value per register.
    pub regs: Seq<u32>,
    pub tx_ring: Seq<TxDesc>,
    pub rx_ring: Seq<RxDesc>,
    /// Contents of the packet buffer of each transmit slot.
    pub tx_bufs: Seq<Seq<u8>>,
    /// Contents of the packet buffer of each receive slot.
    pub rx_bufs: Seq<Seq<u8>>,
    /// Virtual address of the packet buffer of each transmit slot.
    pub tx_mbufs: Seq<usize>,
    /// Virtual address of the packet buffer of each receive slot.
    pub rx_mbufs: Seq<usize>,
    pub tx_ring_mem: DmaRegion,
    pub rx_ring_mem: DmaRegion,
    pub tx_buf_mem: DmaRegion,
    pub rx_buf_mem: DmaRegion,
    pub mbuf_size: usize,
}

/// Device address of the buffer of slot `i` in a buffer region.
pub open spec fn slot_buffer_addr(mem: DmaRegion, i: int) -> int {
    mem.paddr + i * MBUF_SIZE
}

impl DeviceView {
    pub open spec fn tx_len(self) -> int {
        self.tx_ring.len() as int
    }

    pub open spec fn rx_len(self) -> int {
        self.rx_ring.len() as int
    }

    /// Register `i` as an integer.
    pub open spec fn reg(self, i: usize) -> int {
        self.regs[i as int] as int
    }

    /// The invariant of a device: ring geometry, one buffer per slot bound to its
    /// descriptor for the ring's lifetime, and ring indices within the rings.
    pub open spec fn wf(self) -> bool {
        &&& self.regs.len() == E1000_REG_COUNT
        &&& ring_size_valid(self.tx_ring.len())
        &&& ring_size_valid(self.rx_ring.len())
        &&& self.tx_bufs.len() == self.tx_ring.len()
        &&& self.rx_bufs.len() == self.rx_ring.len()
        &&& self.tx_mbufs.len() == self.tx_ring.len()
        &&& self.rx_mbufs.len() == self.rx_ring.len()
        &&& self.mbuf_size == MBUF_SIZE
        &&& forall|i: int| 0 <= i < self.tx_bufs.len() ==> (#[trigger] self.tx_bufs[i]).len() == MBUF_SIZE
        &&& forall|i: int| 0 <= i < self.rx_bufs.len() ==> (#[trigger] self.rx_bufs[i]).len() == MBUF_SIZE
        &&& forall|i: int|
            0 <= i < self.tx_ring.len() ==> (#[trigger] self.tx_ring[i]).addr == slot_buffer_addr(
                self.tx_buf_mem,
                i,
            )
        &&& forall|i: int|
            0 <= i < self.rx_ring.len() ==> (#[trigger] self.rx_ring[i]).addr == slot_buffer_addr(
                self.rx_buf_mem,
                i,
            )
        &&& region_fits(self.tx_ring_mem, self.tx_len() * DESC_SIZE)
        &&& region_fits(self.rx_ring_mem, self.rx_len() * DESC_SIZE)
        &&& region_fits(self.tx_buf_mem, self.tx_len() * MBUF_SIZE)
        &&& region_fits(self.rx_buf_mem, self.rx_len() * MBUF_SIZE)
        &&& self.reg(E1000_TDT) < self.tx_len()
        &&& self.reg(E1000_TDH) < self.tx_len()
        &&& self.reg(E1000_RDT) < self.rx_len()
        &&& self.reg(E1000_RDH) < self.rx_len()
    }
}

/// Main structure of the driver: the register block, both rings with their
/// buffers, and the platform that supplied the DMA memory.
pub struct E1000Device<K: KernelFunc> {
    regs: Vec<Volatile<u32>>,
    rx_ring: Vec<RxDesc>,
    tx_ring: Vec<TxDesc>,
    rx_mbufs: Vec<usize>,
    tx_mbufs: Vec<usize>,
    rx_bufs: Vec<Vec<u8>>,
    tx_bufs: Vec<Vec<u8>>,
    tx_ring_mem: DmaRegion,
    rx_ring_mem: DmaRegion,
    tx_buf_mem: DmaRegion,
    rx_buf_mem: DmaRegion,
    mbuf_size: usize,
    kfn: K,
    trace: Ghost<Seq<Access>>,
}

impl<K: KernelFunc> View for E1000Device<K> {
    type V = DeviceView;

    closed spec fn view(&self) -> DeviceView {
        DeviceView {
            regs: Seq::new(self.regs@.len(), |i: int| self.regs@[i]@),
            tx_ring: self.tx_ring@,
            rx_ring: self.rx_ring@,
            tx_bufs: Seq::new(self.tx_bufs@.len(), |i: int| self.tx_bufs@[i]@),
            rx_bufs: Seq::new(self.rx_bufs@.len(), |i: int| self.rx_bufs@[i]@),
            tx_mbufs: self.tx_mbufs@,
            rx_mbufs: self.rx_mbufs@,
            tx_ring_mem: self.tx_ring_mem,
            rx_ring_mem: self.rx_ring_mem,
            tx_buf_mem: self.tx_buf_mem,
            rx_buf_mem: self.rx_buf_mem,
            mbuf_size: self.mbuf_size,
        }
    }
}

/// `buf` with its first `data.len()` bytes replaced by `data`.
pub open spec fn fill_prefix(buf: Seq<u8>, data: Seq<u8>) -> Seq<u8> {
    data + buf.skip(data.len() as int)
}

/// `buf` with its first `n` bytes set to zero.
pub open spec fn zero_prefix(buf: Seq<u8>, n: int) -> Seq<u8> {
    Seq::new(buf.len(), |i: int| if i < n { 0u8 } else { buf[i] })
}

/// A buffer of `n` zero bytes.
fn zeroed_buffer(n: usize) -> (r: Vec<u8>)
    ensures
        r@ == Seq::new(n as nat, |i: int| 0u8),
{
    let mut v: Vec<u8> = Vec::with_capacity(n);
    let mut i: usize = 0;
    while i < n
        invariant
            i <= n,
            v@ == Seq::new(i as nat, |k: int| 0u8),
        decreases n - i,
    {
        v.push(0u8);
        i = i + 1;
        assert(v@ =~= Seq::new(i as nat, |k: int| 0u8));
    }
    v
}

/// Copies `data[..n]` over the start of `buf`.
fn copy_into(buf: &mut Vec<u8>, data: &[u8], n: usize)
    requires
        n <= data@.len(),
        n <= old(buf)@.len(),
    ensures
        final(buf)@ == fill_prefix(old(buf)@, data@.take(n as int)),
{
    let mut i: usize = 0;
    while i < n
        invariant
            i <= n,
            n <= data@.len(),
            n <= old(buf)@.len(),
            buf@.len() == old(buf)@.len(),
            forall|k: int| 0 <= k < i ==> buf@[k] == data@[k],
            forall|k: int| i <= k < buf@.len() ==> buf@[k] == old(buf)@[k],
        decreases n - i,
    {
        buf.set(i, data[i]);
        i = i + 1;
    }
    assert(buf@ =~= fill_prefix(old(buf)@, data@.take(n as int)));
}

/// Sets the first `n` bytes of `buf` to zero.
fn zero_out(buf: &mut Vec<u8>, n: usize)
    requires
        n <= old(buf)@.len(),
    ensures
        final(buf)@ == zero_prefix(old(buf)@, n as int),
{
    let mut i: usize = 0;
    while i < n
        invariant
            i <= n,
            n <= old(buf)@.len(),
            buf@.len() == old(buf)@.len(),
            forall|k: int| 0 <= k < i ==> buf@[k] == 0u8,
            forall|k: int| i <= k < buf@.len() ==> buf@[k] == old(buf)@[k],
        decreases n - i,
    {
        buf.set(i, 0u8);
        i = i + 1;
    }
    assert(buf@ =~= zero_prefix(old(buf)@, n as int));
}

/// The first `n` bytes of `buf`, as a new vector.
fn copy_prefix(buf: &Vec<u8>, n: usize) -> (r: Vec<u8>)
    requires
        n <= buf@.len(),
    ensures
        r@ == buf@.take(n as int),
{
    let mut v: Vec<u8> = Vec::with_capacity(n);
    let mut i: usize = 0;
    while i < n
        invariant
            i <= n,
            n <= buf@.len(),
            v@ == buf@.take(i as int),
        decreases n - i,
    {
        v.push(buf[i]);
        i = i + 1;
        assert(v@ =~= buf@.take(i as int));
    }
    v
}

impl<K: KernelFunc> E1000Device<K> {
    /// The device invariant.
    pub open spec fn wf(&self) -> bool {
        self@.wf()
    }

    /// The accesses the driver has made to the device, oldest first.
    pub closed spec fn trace(&self) -> Seq<Access> {
        self.trace@
    }

    /// The platform the device was built on.
    pub closed spec fn platform(&self) -> K {
        self.kfn
    }

    /// The value register `idx` holds, looked at without a device access.
    pub fn register(&self, idx: usize) -> (r: u32)
        requires
            idx < self@.regs.len(),
        ensures
            r == self@.regs[idx as int],
    {
        self.regs[idx].read()
    }

    /// Number of transmit slots.
    pub fn tx_ring_len(&self) -> (r: usize)
        ensures
            r == self@.tx_len(),
    {
        self.tx_ring.len()
    }

    /// Number of receive slots.
    pub fn rx_ring_len(&self) -> (r: usize)
        ensures
            r == self@.rx_len(),
    {
        self.rx_ring.len()
    }

    /// The transmit descriptor of slot `i`.
    pub fn tx_desc(&self, i: usize) -> (r: TxDesc)
        requires
            i < self@.tx_len(),
        ensures
            r == self@.tx_ring[i as int],
    {
        self.tx_ring[i]
    }

    /// The receive descriptor of slot `i`.
    pub fn rx_desc(&self, i: usize) -> (r: RxDesc)
        requires
            i < self@.rx_len(),
        ensures
            r == self@.rx_ring[i as int],
    {
        self.rx_ring[i]
    }

    /// The packet buffer of transmit slot `i`.
    pub fn tx_buffer(&self, i: usize) -> (r: &Vec<u8>)
        requires
            i < self@.tx_bufs.len(),
        ensures
            r@ == self@.tx_bufs[i as int],
    {
        &self.tx_bufs[i]
    }

    /// The packet buffer of receive slot `i`.
    pub fn rx_buffer(&self, i: usize) -> (r: &Vec<u8>)
        requires
            i < self@.rx_bufs.len(),
        ensures
            r@ == self@.rx_bufs[i as int],
    {
        &self.rx_bufs[i]
    }

    /// Size in bytes of each packet buffer.
    pub fn mbuf_size(&self) -> (r: usize)
        ensures
            r == self@.mbuf_size,
    {
        self.mbuf_size
    }

    /// The platform the device was built on.
    pub fn kernel_func(&self) -> (r: &K)
        ensures
            *r == self.platform(),
    {
        &self.kfn
    }

    fn note(&mut self, a: Access)
        ensures
            final(self)@ == old(self)@,
            final(self).trace() == old(self).trace().push(a),
            final(self).platform() == old(self).platform(),
    {
        self.trace = Ghost(self.trace@.push(a));
    }

    /// Issues a memory barrier.
    pub(crate) fn fence(&mut self)
        ensures
            final(self)@ == old(self)@,
            final(self).trace() == old(self).trace().push(Access::Fence),
            final(self).platform() == old(self).platform(),
    {
        memory_fence();
        self.note(Access::Fence);
    }

    /// Reads register `idx`.
    pub(crate) fn read_reg(&mut self, idx: usize) -> (r: u32)
        requires
            idx < old(self)@.regs.len(),
        ensures
            r == old(self)@.regs[idx as int],
            final(self)@ == old(self)@,
            final(self).trace() == old(self).trace().push(Access::RegRead(idx)),
            final(self).platform() == old(self).platform(),
    {
        let r = self.regs[idx].read();
        self.note(Access::RegRead(idx));
        r
    }

    /// Writes `val` to register `idx`.
    pub(crate) fn write_reg(&mut self, idx: usize, val: u32)
        requires
            idx < old(self)@.regs.len(),
        ensures
            final(self)@ == (DeviceView { regs: old(self)@.regs.update(idx as int, val), ..old(self)@ }),
            final(self).trace() == old(self).trace().push(Access::RegWrite(idx, val)),
            final(self).platform() == old(self).platform(),
    {
        self.device_write_reg(idx, val);
        self.note(Access::RegWrite(idx, val));
    }

    /// Stores descriptor `d` in transmit slot `i`.
    pub(crate) fn store_tx_desc(&mut self, i: usize, d: TxDesc)
        requires
            i < old(self)@.tx_len(),
        ensures
            final(self)@ == (DeviceView { tx_ring: old(self)@.tx_ring.update(i as int, d), ..old(self)@ }),
            final(self).trace() == old(self).trace().push(Access::TxDescWrite(i)),
            final(self).platform() == old(self).platform(),
    {
        self.device_set_tx_desc(i, d);
        self.note(Access::TxDescWrite(i));
    }

    /// Stores descriptor `d` in receive slot `i`.
    pub(crate) fn store_rx_desc(&mut self, i: usize, d: RxDesc)
        requires
            i < old(self)@.rx_len(),
        ensures
            final(self)@ == (DeviceView { rx_ring: old(self)@.rx_ring.update(i as int, d), ..old(self)@ }),
            final(self).trace() == old(self).trace().push(Access::RxDescWrite(i)),
            final(self).platform() == old(self).platform(),
    {
        self.device_set_rx_desc(i, d);
        self.note(Access::RxDescWrite(i));
    }

    /// Copies `data[..n]` to the start of the buffer of transmit slot `i`.
    pub(crate) fn fill_tx_buf(&mut self, i: usize, data: &[u8], n: usize)
        requires
            i < old(self)@.tx_bufs.len(),
            n <= data@.len(),
            n <= old(self)@.tx_bufs[i as int].len(),
        ensures
            final(self)@ == (DeviceView {
                tx_bufs: old(self)@.tx_bufs.update(
                    i as int,
                    fill_prefix(old(self)@.tx_bufs[i as int], data@.take(n as int)),
                ),
                ..old(self)@
            }),
            final(self).trace() == old(self).trace().push(Access::TxBufWrite(i)),
            final(self).platform() == old(self).platform(),
    {
        copy_into(&mut self.tx_bufs[i], data, n);
        assert(self@.tx_bufs =~= old(self)@.tx_bufs.update(
            i as int,
            fill_prefix(old(self)@.tx_bufs[i as int], data@.take(n as int)),
        ));
        self.note(Access::TxBufWrite(i));
    }

    /// Zeroes the first `n` bytes of the buffer of receive slot `i`.
    pub(crate) fn zero_rx_buf(&mut self, i: usize, n: usize)
        requires
            i < old(self)@.rx_bufs.len(),
            n <= old(self)@.rx_bufs[i as int].len(),
        ensures
            final(self)@ == (DeviceView {
                rx_bufs: old(self)@.rx_bufs.update(i as int, zero_prefix(old(self)@.rx_bufs[i as int], n as int)),
                ..old(self)@
            }),
            final(self).trace() == old(self).trace().push(Access::RxBufWrite(i)),
            final(self).platform() == old(self).platform(),
    {
        zero_out(&mut self.rx_bufs[i], n);
        assert(self@.rx_bufs =~= old(self)@.rx_bufs.update(
            i as int,
            zero_prefix(old(self)@.rx_bufs[i as int], n as int),
        ));
        self.note(Access::RxBufWrite(i));
    }

    /// The first `n` bytes of the buffer of receive slot `i`.
    pub(crate) fn copy_rx_buf(&mut self, i: usize, n: usize) -> (r: Vec<u8>)
        requires
            i < old(self)@.rx_bufs.len(),
            n <= old(self)@.rx_bufs[i as int].len(),
        ensures
            r@ == old(self)@.rx_bufs[i as int].take(n as int),
            final(self)@ == old(self)@,
            final(self).trace() == old(self).trace().push(Access::RxBufRead(i)),
            final(self).platform() == old(self).platform(),
    {
        let r = copy_prefix(&self.rx_bufs[i], n);
        self.note(Access::RxBufRead(i));
        r
    }

    /// The device's own write of `val` to register `idx`.
    pub(crate) fn device_write_reg(&mut self, idx: usize, val: u32)
        requires
            idx < old(self)@.regs.len(),
        ensures
            final(self)@ == (DeviceView { regs: old(self)@.regs.update(idx as int, val), ..old(self)@ }),
            final(self).trace() == old(self).trace(),
            final(self).platform() == old(self).platform(),
    {
        self.regs[idx].write(val);
        assert(self@.regs =~= old(self)@.regs.update(idx as int, val));
    }

    /// The device's own write of transmit descriptor `i`.
    pub(crate) fn device_set_tx_desc(&mut self, i: usize, d: TxDesc)
        requires
            i < old(self)@.tx_len(),
        ensures
            final(self)@ == (DeviceView { tx_ring: old(self)@.tx_ring.update(i as int, d), ..old(self)@ }),
            final(self).trace() == old(self).trace(),
            final(self).platform() == old(self).platform(),
    {
        self.tx_ring.set(i, d);
    }

    /// The device's own write of receive descriptor `i`.
    pub(crate) fn device_set_rx_desc(&mut self, i: usize, d: RxDesc)
        requires
            i < old(self)@.rx_len(),
        ensures
            final(self)@ == (DeviceView { rx_ring: old(self)@.rx_ring.update(i as int, d), ..old(self)@ }),
            final(self).trace() == old(self).trace(),
            final(self).platform() == old(self).platform(),
    {
        self.rx_ring.set(i, d);
    }

    /// The device's own copy of `data[..n]` to the start of the buffer of receive
    /// slot `i`.
    pub(crate) fn device_fill_rx_buf(&mut self, i: usize, data: &[u8], n: usize)
        requires
            i < old(self)@.rx_bufs.len(),
            n <= data@.len(),
            n <= old(self)@.rx_bufs[i as int].len(),
        ensures
            final(self)@ == (DeviceView {
                rx_bufs: old(self)@.rx_bufs.update(
                    i as int,
                    fill_prefix(old(self)@.rx_bufs[i as int], data@.take(n as int)),
                ),
                ..old(self)@
            }),
            final(self).trace() == old(self).trace(),
            final(self).platform() == old(self).platform(),
    {
        copy_into(&mut self.rx_bufs[i], data, n);
        assert(self@.rx_bufs =~= old(self)@.rx_bufs.update(
            i as int,
            fill_prefix(old(self)@.rx_bufs[i as int], data@.take(n as int)),
        ));
    }
}

/// The values held by a register block.
pub open spec fn reg_values(regs: Seq<Volatile<u32>>) -> Seq<u32> {
    Seq::new(regs.len(), |i: int| regs[i]@)
}

/// Transmit descriptor `i` as bring-up leaves it: bound to its buffer and marked
/// done, so that the slot is free for software.
pub open spec fn initial_tx_desc(mem: DmaRegion, i: int) -> TxDesc {
    TxDesc {
        addr: slot_buffer_addr(mem, i) as u64,
        length: 0,
        cso: 0,
        cmd: 0,
        status: E1000_TXD_STAT_DD,
        css: 0,
        special: 0,
    }
}

/// Receive descriptor `i` as bring-up leaves it: bound to its buffer, not filled.
pub open spec fn initial_rx_desc(mem: DmaRegion, i: int) -> RxDesc {
    RxDesc { addr: slot_buffer_addr(mem, i) as u64, length: 0, csum: 0, status: 0, errors: 0, special: 0 }
}

/// An empty packet buffer.
pub open spec fn empty_buffer() -> Seq<u8> {
    Seq::new(MBUF_SIZE as nat, |k: int| 0u8)
}

/// `v` is a device just brought up with `tx_slots` and `rx_slots` slots from the
/// register values `regs0`, on the DMA regions that `v` records.
pub open spec fn is_initial(v: DeviceView, regs0: Seq<u32>, tx_slots: int, rx_slots: int) -> bool {
    &&& v.tx_ring == Seq::new(tx_slots as nat, |i: int| initial_tx_desc(v.tx_buf_mem, i))
    &&& v.rx_ring == Seq::new(rx_slots as nat, |i: int| initial_rx_desc(v.rx_buf_mem, i))
    &&& v.tx_bufs == Seq::new(tx_slots as nat, |i: int| empty_buffer())
    &&& v.rx_bufs == Seq::new(rx_slots as nat, |i: int| empty_buffer())
    &&& v.tx_mbufs == Seq::new(tx_slots as nat, |i: int| (v.tx_buf_mem.vaddr + i * MBUF_SIZE) as usize)
    &&& v.rx_mbufs == Seq::new(rx_slots as nat, |i: int| (v.rx_buf_mem.vaddr + i * MBUF_SIZE) as usize)
    &&& v.mbuf_size == MBUF_SIZE
    &&& v.regs == programmed_regs(
        regs0,
        v.tx_ring_mem.paddr,
        tx_slots * DESC_SIZE,
        v.rx_ring_mem.paddr,
        rx_slots * DESC_SIZE,
        rx_slots,
    )
}

/// Descriptors, buffer addresses and buffers of a transmit ring of `slots`
/// slots whose buffers lie in `mem`.
fn build_tx_ring(mem: DmaRegion, slots: usize) -> (r: (Vec<TxDesc>, Vec<usize>, Vec<Vec<u8>>))
    requires
        region_fits(mem, slots * MBUF_SIZE),
    ensures
        r.0@ == Seq::new(slots as nat, |i: int| initial_tx_desc(mem, i)),
        r.1@ == Seq::new(slots as nat, |i: int| (mem.vaddr + i * MBUF_SIZE) as usize),
        r.2@.len() == slots,
        forall|i: int| 0 <= i < slots ==> (#[trigger] r.2@[i])@ == empty_buffer(),
{
    let mut ring: Vec<TxDesc> = Vec::with_capacity(slots);
    let mut mbufs: Vec<usize> = Vec::with_capacity(slots);
    let mut bufs: Vec<Vec<u8>> = Vec::with_capacity(slots);
    let mut i: usize = 0;
    while i < slots
        invariant
            i <= slots,
            region_fits(mem, slots * MBUF_SIZE),
            ring@ == Seq::new(i as nat, |k: int| initial_tx_desc(mem, k)),
            mbufs@ == Seq::new(i as nat, |k: int| (mem.vaddr + k * MBUF_SIZE) as usize),
            bufs@.len() == i,
            forall|k: int| 0 <= k < i ==> (#[trigger] bufs@[k])@ == empty_buffer(),
        decreases slots - i,
    {
        let off = i * MBUF_SIZE;
        ring.push(TxDesc { addr: (mem.paddr + off) as u64, status: E1000_TXD_STAT_DD, ..TxDesc::zeroed() });
        mbufs.push(mem.vaddr + off);
        bufs.push(zeroed_buffer(MBUF_SIZE));
        i = i + 1;
        assert(ring@ =~= Seq::new(i as nat, |k: int| initial_tx_desc(mem, k)));
        assert(mbufs@ =~= Seq::new(i as nat, |k: int| (mem.vaddr + k * MBUF_SIZE) as usize));
    }
    (ring, mbufs, bufs)
}

/// Descriptors, buffer addresses and buffers of a receive ring of `slots` slots
/// whose buffers lie in `mem`.
fn build_rx_ring(mem: DmaRegion, slots: usize) -> (r: (Vec<RxDesc>, Vec<usize>, Vec<Vec<u8>>))
    requires
        region_fits(mem, slots * MBUF_SIZE),
    ensures
        r.0@ == Seq::new(slots as nat, |i: int| initial_rx_desc(mem, i)),
        r.1@ == Seq::new(slots as nat, |i: int| (mem.vaddr + i * MBUF_SIZE) as usize),
        r.2@.len() == slots,
        forall|i: int| 0 <= i < slots ==> (#[trigger] r.2@[i])@ == empty_buffer(),
{
    let mut ring: Vec<RxDesc> = Vec::with_capacity(slots);
    let mut mbufs: Vec<usize> = Vec::with_capacity(slots);
    let mut bufs: Vec<Vec<u8>> = Vec::with_capacity(slots);
    let mut i: usize = 0;
    while i < slots
        invariant
            i <= slots,
            region_fits(mem, slots * MBUF_SIZE),
            ring@ == Seq::new(i as nat, |k: int| initial_rx_desc(mem, k)),
            mbufs@ == Seq::new(i as nat, |k: int| (mem.vaddr + k * MBUF_SIZE) as usize),
            bufs@.len() == i,
            forall|k: int| 0 <= k < i ==> (#[trigger] bufs@[k])@ == empty_buffer(),
        decreases slots - i,
    {
        let off = i * MBUF_SIZE;
        ring.push(RxDesc { addr: (mem.paddr + off) as u64, ..RxDesc::zeroed() });
        mbufs.push(mem.vaddr + off);
        bufs.push(zeroed_buffer(MBUF_SIZE));
        i = i + 1;
        assert(ring@ =~= Seq::new(i as nat, |k: int| initial_rx_desc(mem, k)));
        assert(mbufs@ =~= Seq::new(i as nat, |k: int| (mem.vaddr + k * MBUF_SIZE) as usize));
    }
    (ring, mbufs, bufs)
}

/// What goes back to the platform for a region when construction is abandoned:
/// the region itself if it was allocated, nothing otherwise.
pub open spec fn release_of(r: DmaRegion) -> Seq<(usize, usize)> {
    if r.vaddr != 0 {
        seq![(r.vaddr, r.pages)]
    } else {
        seq![]
    }
}

/// The four allocations made to build a device with `tx_slots` and `rx_slots`
/// slots, in order (transmit ring, receive ring, transmit buffers, receive
/// buffers), each with the addresses the device `v` records for that region.
pub open spec fn construction_allocations(v: DeviceView, tx_slots: int, rx_slots: int) -> Seq<
    (usize, (usize, usize)),
> {
    seq![
        (pages_for((tx_slots * DESC_SIZE) as nat) as usize, (v.tx_ring_mem.vaddr, v.tx_ring_mem.paddr)),
        (pages_for((rx_slots * DESC_SIZE) as nat) as usize, (v.rx_ring_mem.vaddr, v.rx_ring_mem.paddr)),
        (pages_for((tx_slots * MBUF_SIZE) as nat) as usize, (v.tx_buf_mem.vaddr, v.tx_buf_mem.paddr)),
        (pages_for((rx_slots * MBUF_SIZE) as nat) as usize, (v.rx_buf_mem.vaddr, v.rx_buf_mem.paddr)),
    ]
}

/// The four regions of a device go back to the platform in this order.
pub open spec fn teardown_releases(v: DeviceView) -> Seq<(usize, usize)> {
    seq![
        (v.tx_ring_mem.vaddr, v.tx_ring_mem.pages),
        (v.rx_ring_mem.vaddr, v.rx_ring_mem.pages),
        (v.tx_buf_mem.vaddr, v.tx_buf_mem.pages),
        (v.rx_buf_mem.vaddr, v.rx_buf_mem.pages),
    ]
}

impl<K: KernelFunc> E1000Device<K> {
    /// Builds a device on DMA regions that fit: every descriptor bound to its
    /// slot's buffer (transmit slots marked done, receive slots armed), then the
    /// register block put through the bring-up sequence.
    fn from_regions(
        kfn: K,
        regs: Vec<Volatile<u32>>,
        tx_slots: usize,
        rx_slots: usize,
        tx_ring_mem: DmaRegion,
        rx_ring_mem: DmaRegion,
        tx_buf_mem: DmaRegion,
        rx_buf_mem: DmaRegion,
    ) -> (dev: Self)
        requires
            regs@.len() == E1000_REG_COUNT,
            ring_size_valid(tx_slots as nat),
            ring_size_valid(rx_slots as nat),
            region_fits(tx_ring_mem, tx_slots * DESC_SIZE),
            region_fits(rx_ring_mem, rx_slots * DESC_SIZE),
            region_fits(tx_buf_mem, tx_slots * MBUF_SIZE),
            region_fits(rx_buf_mem, rx_slots * MBUF_SIZE),
        ensures
            dev.wf(),
            is_initial(dev@, reg_values(regs@), tx_slots as int, rx_slots as int),
            dev.trace() == init_trace(
                reg_values(regs@)[E1000_CTL as int],
                tx_ring_mem.paddr,
                tx_slots * DESC_SIZE,
                rx_ring_mem.paddr,
                rx_slots * DESC_SIZE,
                rx_slots as int,
            ),
            dev.platform() == kfn,
            dev@.tx_ring_mem == tx_ring_mem,
            dev@.rx_ring_mem == rx_ring_mem,
            dev@.tx_buf_mem == tx_buf_mem,
            dev@.rx_buf_mem == rx_buf_mem,
    {
        let (tx_ring, tx_mbufs, tx_bufs) = build_tx_ring(tx_buf_mem, tx_slots);
        let (rx_ring, rx_mbufs, rx_bufs) = build_rx_ring(rx_buf_mem, rx_slots);
        let ghost regs0 = reg_values(regs@);
        let mut dev = E1000Device {
            regs,
            rx_ring,
            tx_ring,
            rx_mbufs,
            tx_mbufs,
            rx_bufs,
            tx_bufs,
            tx_ring_mem,
            rx_ring_mem,
            tx_buf_mem,
            rx_buf_mem,
            mbuf_size: MBUF_SIZE,
            kfn,
            trace: Ghost(Seq::empty()),
        };
        assert(dev@.regs =~= regs0);
        assert(dev@.tx_bufs =~= Seq::new(tx_slots as nat, |i: int| empty_buffer()));
        assert(dev@.rx_bufs =~= Seq::new(rx_slots as nat, |i: int| empty_buffer()));
        dev.e1000_init(tx_ring_mem.paddr, tx_slots * DESC_SIZE, rx_ring_mem.paddr, rx_slots * DESC_SIZE);
        assert(dev.trace() =~= init_trace(
            regs0[E1000_CTL as int],
            tx_ring_mem.paddr,
            tx_slots * DESC_SIZE,
            rx_ring_mem.paddr,
            rx_slots * DESC_SIZE,
            rx_slots as int,
        ));
        dev
    }

    /// Builds a device on the four regions the platform returned for rings of
    /// `tx_slots` and `rx_slots` slots. Succeeds exactly when all four fit; the
    /// device then keeps the platform. Otherwise every region that was allocated
    /// goes back to the platform, in order, and the platform is handed back.
    pub fn from_allocations(
        kfn: K,
        regs: Vec<Volatile<u32>>,
        tx_slots: usize,
        rx_slots: usize,
        tx_ring_mem: DmaRegion,
        rx_ring_mem: DmaRegion,
        tx_buf_mem: DmaRegion,
        rx_buf_mem: DmaRegion,
    ) -> (r: Result<Self, K>)
        requires
            regs@.len() == E1000_REG_COUNT,
            ring_size_valid(tx_slots as nat),
            ring_size_valid(rx_slots as nat),
        ensures
            r is Ok <==> (region_fits(tx_ring_mem, tx_slots * DESC_SIZE) && region_fits(
                rx_ring_mem,
                rx_slots * DESC_SIZE,
            ) && region_fits(tx_buf_mem, tx_slots * MBUF_SIZE) && region_fits(
                rx_buf_mem,
                rx_slots * MBUF_SIZE,
            )),
            r matches Ok(dev) ==> {
                &&& dev.wf()
                &&& is_initial(dev@, reg_values(regs@), tx_slots as int, rx_slots as int)
                &&& dev.trace() == init_trace(
                    reg_values(regs@)[E1000_CTL as int],
                    tx_ring_mem.paddr,
                    tx_slots * DESC_SIZE,
                    rx_ring_mem.paddr,
                    rx_slots * DESC_SIZE,
                    rx_slots as int,
                )
                &&& dev.platform() == kfn
                &&& dev@.tx_ring_mem == tx_ring_mem
                &&& dev@.rx_ring_mem == rx_ring_mem
                &&& dev@.tx_buf_mem == tx_buf_mem
                &&& dev@.rx_buf_mem == rx_buf_mem
            },
            r matches Err(k) ==> {
                &&& k.allocations() == kfn.allocations()
                &&& k.releases() == kfn.releases() + release_of(tx_ring_mem) + release_of(rx_ring_mem)
                    + release_of(tx_buf_mem) + release_of(rx_buf_mem)
            },
    {
        if tx_ring_mem.fits(tx_slots * DESC_SIZE) && rx_ring_mem.fits(rx_slots * DESC_SIZE)
            && tx_buf_mem.fits(tx_slots * MBUF_SIZE) && rx_buf_mem.fits(rx_slots * MBUF_SIZE) {
            Ok(Self::from_regions(kfn, regs, tx_slots, rx_slots, tx_ring_mem, rx_ring_mem, tx_buf_mem, rx_buf_mem))
        } else {
            let mut kfn = kfn;
            free_region(&mut kfn, tx_ring_mem);
            free_region(&mut kfn, rx_ring_mem);
            free_region(&mut kfn, tx_buf_mem);
            free_region(&mut kfn, rx_buf_mem);
            Err(kfn)
        }
    }

    /// Allocates DMA memory for rings of `tx_slots` and `rx_slots` slots from
    /// `kfn` and brings the device up on `regs`. Fails with `InvalidRingSize`
    /// exactly when a slot count is refused, before anything is allocated. Else it
    /// asks the platform for the transmit ring, the receive ring, the transmit
    /// buffers and the receive buffers, in that order, and fails with
    /// `DmaAllocFailed` when a region does not fit (whatever was allocated is
    /// returned to the platform). A device keeps the four regions it was given and
    /// has released nothing.
    pub fn with_ring_sizes(mut kfn: K, regs: Vec<Volatile<u32>>, tx_slots: usize, rx_slots: usize) -> (r:
        Result<Self, E1000Error>)
        requires
            regs@.len() == E1000_REG_COUNT,
        ensures
            (r == Err::<Self, E1000Error>(E1000Error::InvalidRingSize)) <==> !(ring_size_valid(
                tx_slots as nat,
            ) && ring_size_valid(rx_slots as nat)),
            r matches Ok(dev) ==> {
                &&& dev.wf()
                &&& is_initial(dev@, reg_values(regs@), tx_slots as int, rx_slots as int)
                &&& dev.trace() == init_trace(
                    reg_values(regs@)[E1000_CTL as int],
                    dev@.tx_ring_mem.paddr,
                    tx_slots * DESC_SIZE,
                    dev@.rx_ring_mem.paddr,
                    rx_slots * DESC_SIZE,
                    rx_slots as int,
                )
                &&& dev.platform().allocations() == kfn.allocations() + construction_allocations(
                    dev@,
                    tx_slots as int,
                    rx_slots as int,
                )
                &&& dev.platform().releases() == kfn.releases()
                &&& dev@.tx_ring_mem.pages == pages_for((tx_slots * DESC_SIZE) as nat)
                &&& dev@.rx_ring_mem.pages == pages_for((rx_slots * DESC_SIZE) as nat)
                &&& dev@.tx_buf_mem.pages == pages_for((tx_slots * MBUF_SIZE) as nat)
                &&& dev@.rx_buf_mem.pages == pages_for((rx_slots * MBUF_SIZE) as nat)
            },
    {
        if !ring_size_ok(tx_slots) || !ring_size_ok(rx_slots) {
            return Err(E1000Error::InvalidRingSize);
        }
        let ghost k0 = kfn;
        let tx_ring_mem = alloc_region(&mut kfn, pages_needed(tx_slots * DESC_SIZE));
        let rx_ring_mem = alloc_region(&mut kfn, pages_needed(rx_slots * DESC_SIZE));
        let tx_buf_mem = alloc_region(&mut kfn, pages_needed(tx_slots * MBUF_SIZE));
        let rx_buf_mem = alloc_region(&mut kfn, pages_needed(rx_slots * MBUF_SIZE));
        let ghost k1 = kfn;
        match Self::from_allocations(kfn, regs, tx_slots, rx_slots, tx_ring_mem, rx_ring_mem, tx_buf_mem, rx_buf_mem) {
            Ok(dev) => {
                assert(k1.allocations() =~= k0.allocations() + construction_allocations(
                    dev@,
                    tx_slots as int,
                    rx_slots as int,
                ));
                Ok(dev)
            },
            Err(_) => Err(E1000Error::DmaAllocFailed),
        }
    }

    /// Brings up a device with rings of 256 slots on `regs`, allocating DMA
    /// memory from `kfn` as `with_ring_sizes` does: one page for each ring and
    /// 128 pages for each ring's buffers.
    pub fn new(kfn: K, regs: Vec<Volatile<u32>>) -> (r: Result<Self, E1000Error>)
        requires
            regs@.len() == E1000_REG_COUNT,
        ensures
            r != Err::<Self, E1000Error>(E1000Error::InvalidRingSize),
            r matches Ok(dev) ==> {
                &&& dev.wf()
                &&& is_initial(dev@, reg_values(regs@), TX_RING_SIZE as int, RX_RING_SIZE as int)
                &&& dev.trace() == init_trace(
                    reg_values(regs@)[E1000_CTL as int],
                    dev@.tx_ring_mem.paddr,
                    TX_RING_SIZE * DESC_SIZE,
                    dev@.rx_ring_mem.paddr,
                    RX_RING_SIZE * DESC_SIZE,
                    RX_RING_SIZE as int,
                )
                &&& dev.platform().allocations() == kfn.allocations() + construction_allocations(
                    dev@,
                    TX_RING_SIZE as int,
                    RX_RING_SIZE as int,
                )
                &&& dev.platform().releases() == kfn.releases()
                &&& dev@.tx_ring_mem.pages == 1
                &&& dev@.rx_ring_mem.pages == 1
                &&& dev@.tx_buf_mem.pages == 128
                &&& dev@.rx_buf_mem.pages == 128
            },
    {
        proof {
            reveal_with_fuel(is_pow2, 10);
        }
        Self::with_ring_sizes(kfn, regs, TX_RING_SIZE, RX_RING_SIZE)
    }

    /// Tears the device down: returns the transmit ring, the receive ring, the
    /// transmit buffers and the receive buffers to the platform, in that order,
    /// each once with the pages it was allocated with, then hands the platform
    /// back.
    pub fn release(self) -> (kfn: K)
        requires
            self.wf(),
        ensures
            kfn.releases() == self.platform().releases() + teardown_releases(self@),
            kfn.allocations() == self.platform().allocations(),
    {
        let ghost v = self@;
        let mut kfn = self.kfn;
        let ghost k0 = kfn;
        free_region(&mut kfn, self.tx_ring_mem);
        free_region(&mut kfn, self.rx_ring_mem);
        free_region(&mut kfn, self.tx_buf_mem);
        free_region(&mut kfn, self.rx_buf_mem);
        assert(kfn.releases() =~= k0.releases() + teardown_releases(v));
        kfn
    }
}

/// Asks the platform for `pages` pages of DMA memory.
fn alloc_region<K: KernelFunc>(kfn: &mut K, pages: usize) -> (r: DmaRegion)
    ensures
        r.pages == pages,
        final(kfn).allocations() == old(kfn).allocations().push((pages, (r.vaddr, r.paddr))),
        final(kfn).releases() == old(kfn).releases(),
{
    let (vaddr, paddr) = kfn.dma_alloc_coherent(pages);
    DmaRegion { vaddr, paddr, pages }
}

/// Returns a region to the platform, unless its allocation failed.
fn free_region<K: KernelFunc>(kfn: &mut K, r: DmaRegion)
    ensures
        final(kfn).releases() == old(kfn).releases() + release_of(r),
        final(kfn).allocations() == old(kfn).allocations(),
{
    if r.vaddr != 0 {
        kfn.dma_free_coherent(r.vaddr, r.pages);
        assert(final(kfn).releases() =~= old(kfn).releases() + release_of(r));
    } else {
        assert(old(kfn).releases() =~= old(kfn).releases() + release_of(r));
    }
}

} // verus!
