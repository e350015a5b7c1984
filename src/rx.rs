//! The receive path: collecting the packets the device has filled in.
use vstd::prelude::*;
use crate::desc::{rx_done, lemma_zero_status_not_done, RxDesc};
use crate::device::{zero_prefix, Access, DeviceView, E1000Device, KernelFunc};
use crate::regs::{E1000_RDT, E1000_STAT};
use crate::ring::{lemma_next_slot, next_slot, offset_of, slot_at};

verus! {

/// Bytes of a buffer that are cleared when its slot is handed back to the device.
pub const RX_CLEAR_LEN: usize = 64;

/// The first slot a receive poll looks at: the one after the receive tail.
pub open spec fn rx_start(v: DeviceView) -> int {
    next_slot(v.reg(E1000_RDT), v.rx_len())
}

/// The slot `j` places into a receive poll.
pub open spec fn rx_slot(v: DeviceView, j: int) -> int {
    slot_at(rx_start(v), j, v.rx_len())
}

/// A poll of `v` takes `k` packets: the `k` slots from the start are filled, and
/// the slot after them is not (or the whole ring was taken).
pub open spec fn rx_batch(v: DeviceView, k: int) -> bool {
    &&& 0 <= k <= v.rx_len()
    &&& forall|j: int| 0 <= j < k ==> rx_done(#[trigger] v.rx_ring[rx_slot(v, j)])
    &&& k < v.rx_len() ==> !rx_done(v.rx_ring[rx_slot(v, k)])
}

/// Length of the packet in a filled slot: the length the device reported, cut
/// to the buffer size.
pub open spec fn rx_packet_len(v: DeviceView, s: int) -> int {
    let n = v.rx_ring[s].length as int;
    if n > v.mbuf_size {
        v.mbuf_size as int
    } else {
        n
    }
}

/// The `j`-th packet a poll of `v` returns.
pub open spec fn rx_packet(v: DeviceView, j: int) -> Seq<u8> {
    let s = rx_slot(v, j);
    v.rx_bufs[s].take(rx_packet_len(v, s))
}

/// The device after a poll took the first `k` filled slots: each of them has its
/// status cleared and the first 64 bytes of its buffer zeroed, and the receive tail names
/// the last of them, which hands them back to the device.
pub open spec fn after_receive(v: DeviceView, k: int) -> DeviceView {
    let st = rx_start(v);
    let cap = v.rx_len();
    DeviceView {
        regs: if k == 0 {
            v.regs
        } else {
            v.regs.update(E1000_RDT as int, slot_at(st, k - 1, cap) as u32)
        },
        rx_ring: Seq::new(
            v.rx_ring.len(),
            |s: int|
                if offset_of(s, st, cap) < k {
                    RxDesc { status: 0, ..v.rx_ring[s] }
                } else {
                    v.rx_ring[s]
                },
        ),
        rx_bufs: Seq::new(
            v.rx_bufs.len(),
            |s: int|
                if offset_of(s, st, cap) < k {
                    zero_prefix(v.rx_bufs[s], RX_CLEAR_LEN as int)
                } else {
                    v.rx_bufs[s]
                },
        ),
        ..v
    }
}

/// What a receive poll of `v` leaves and returns. When the start slot has no
/// buffer address the poll fails and nothing changes. Otherwise it returns the
/// packets of the run of filled slots from the start, in ring order.
pub open spec fn receive_result(v: DeviceView, w: DeviceView, r: Option<Seq<Seq<u8>>>) -> bool {
    match r {
        None => v.rx_ring[rx_start(v)].addr == 0 && w == v,
        Some(ps) => {
            &&& v.rx_ring[rx_start(v)].addr != 0
            &&& rx_batch(v, ps.len() as int)
            &&& forall|j: int| 0 <= j < ps.len() ==> #[trigger] ps[j] == rx_packet(v, j)
            &&& w == after_receive(v, ps.len() as int)
        },
    }
}

/// The packets of a batch, each as a byte sequence.
pub open spec fn packets_view(p: Seq<Vec<u8>>) -> Seq<Seq<u8>> {
    Seq::new(p.len(), |j: int| p[j]@)
}

/// The accesses for one slot a poll takes: a barrier after DD was seen, the
/// packet copied out, the start of the buffer zeroed, the status cleared, a
/// barrier, the tail moved to the slot, and a status read flushing that write.
pub open spec fn rx_slot_trace(s: int) -> Seq<Access> {
    seq![
        Access::Fence,
        Access::RxBufRead(s as usize),
        Access::RxBufWrite(s as usize),
        Access::RxDescWrite(s as usize),
        Access::Fence,
        Access::RegWrite(E1000_RDT, s as u32),
        Access::RegRead(E1000_STAT),
    ]
}

/// The accesses for the first `k` slots a poll of `v` takes, slot by slot.
pub open spec fn rx_batch_trace(v: DeviceView, k: int) -> Seq<Access>
    decreases k,
{
    if k <= 0 {
        seq![]
    } else {
        rx_batch_trace(v, k - 1) + rx_slot_trace(rx_slot(v, k - 1))
    }
}

/// The accesses of a poll of `v` that took `k` slots: the tail register is read,
/// then each slot is handled in turn.
pub open spec fn receive_trace(v: DeviceView, k: int) -> Seq<Access> {
    seq![Access::RegRead(E1000_RDT)] + rx_batch_trace(v, k)
}

impl<K: KernelFunc> E1000Device<K> {
    /// Collects every packet the device has filled in, from the slot after the
    /// receive tail on, stopping at the first slot not filled. Each slot taken is
    /// cleared and handed back to the device at once. Returns `None` when the first
    /// slot looked at has no buffer address, which a device never has; an empty
    /// batch means nothing arrived.
    pub fn e1000_recv(&mut self) -> (r: Option<Vec<Vec<u8>>>)
        requires
            old(self).wf(),
        ensures
            final(self).wf(),
            r is Some,
            receive_result(
                old(self)@,
                final(self)@,
                match r {
                    Some(p) => Some(packets_view(p@)),
                    None => None,
                },
            ),
            final(self).trace() == old(self).trace() + receive_trace(
                old(self)@,
                match r {
                    Some(p) => p@.len() as int,
                    None => 0,
                },
            ),
            final(self).platform() == old(self).platform(),
    {
        let ghost v0 = self@;
        let ghost t0 = self.trace();
        let cap = self.rx_ring_len();
        let tail = self.read_reg(E1000_RDT) as usize;
        proof {
            lemma_next_slot(tail as int, cap as int);
            lemma_zero_status_not_done();
        }
        let start = (tail + 1) % cap;
        if self.rx_desc(start).addr == 0 {
            return None;
        }
        let mut packets: Vec<Vec<u8>> = Vec::new();
        let mut rindex = start;
        let mut j: usize = 0;
        assert(self@ == after_receive(v0, 0)) by {
            assert(self@.rx_ring =~= after_receive(v0, 0).rx_ring);
            assert(self@.rx_bufs =~= after_receive(v0, 0).rx_bufs);
        }
        assert(self.trace() =~= t0 + receive_trace(v0, 0));
        while j < cap && self.rx_desc(rindex).is_done()
            invariant
                v0.wf(),
                self.wf(),
                cap == v0.rx_len(),
                start == rx_start(v0),
                0 <= j <= cap,
                rindex == slot_at(start as int, j as int, cap as int),
                self@ == after_receive(v0, j as int),
                self.trace() == t0 + receive_trace(v0, j as int),
                self.platform() == old(self).platform(),
                forall|i: int| 0 <= i < j ==> rx_done(#[trigger] v0.rx_ring[rx_slot(v0, i)]),
                packets@.len() == j,
                forall|i: int| 0 <= i < j ==> (#[trigger] packets@[i])@ == rx_packet(v0, i),
            decreases cap - j,
        {
            let ghost tj = self.trace();
            let d = self.rx_desc(rindex);
            self.fence();
            let mut len = d.length as usize;
            if len > self.mbuf_size() {
                len = self.mbuf_size();
            }
            let packet = self.copy_rx_buf(rindex, len);
            packets.push(packet);
            self.zero_rx_buf(rindex, RX_CLEAR_LEN);
            self.store_rx_desc(rindex, RxDesc { status: 0, ..d });
            self.fence();
            self.write_reg(E1000_RDT, rindex as u32);
            self.e1000_write_flush();
            proof {
                lemma_next_slot(rindex as int, cap as int);
                assert(self.trace() =~= tj + rx_slot_trace(rindex as int));
                assert(receive_trace(v0, j + 1) =~= receive_trace(v0, j as int) + rx_slot_trace(
                    rindex as int,
                ));
            }
            rindex = (rindex + 1) % cap;
            j = j + 1;
            assert(self@.rx_ring =~= after_receive(v0, j as int).rx_ring);
            assert(self@.rx_bufs =~= after_receive(v0, j as int).rx_bufs);
            assert(self@.regs =~= after_receive(v0, j as int).regs);
        }
        proof {
            assert(packets_view(packets@) =~= Seq::new(j as nat, |i: int| rx_packet(v0, i)));
        }
        Some(packets)
    }
}

} // verus!
