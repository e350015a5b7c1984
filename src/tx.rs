//! The transmit path: handing one packet to the device.
use vstd::prelude::*;
use crate::desc::{tx_done, lemma_zero_status_not_done, TxDesc};
use crate::device::{fill_prefix, Access, DeviceView, E1000Device, KernelFunc};
use crate::regs::{E1000_STAT, E1000_TDT, E1000_TXD_CMD_EOP, E1000_TXD_CMD_RS};
use crate::ring::{lemma_next_slot, next_slot};

verus! {

/// Command bits of a queued packet: report status, end of packet.
pub const TX_CMD: u8 = E1000_TXD_CMD_RS | E1000_TXD_CMD_EOP;

/// The slot the next packet goes to: the transmit tail register.
pub open spec fn tx_slot(v: DeviceView) -> int {
    v.reg(E1000_TDT)
}

/// Bytes of `packet` that fit one buffer.
pub open spec fn tx_queued_len(v: DeviceView, packet: Seq<u8>) -> int {
    if packet.len() > v.mbuf_size {
        v.mbuf_size as int
    } else {
        packet.len() as int
    }
}

/// The device after `packet` is queued in the tail slot, and the byte count
/// returned; or the device unchanged and -1 when the device still owns that slot.
/// Queuing copies the packet, cut to the buffer size, into the slot's buffer,
/// sets the descriptor's length and command, clears its status, and moves the
/// tail register one slot on.
pub open spec fn transmit_spec(v: DeviceView, packet: Seq<u8>) -> (DeviceView, i32) {
    let t = tx_slot(v);
    if !tx_done(v.tx_ring[t]) {
        (v, -1i32)
    } else {
        let n = tx_queued_len(v, packet);
        let d = TxDesc { length: n as u16, status: 0, cmd: TX_CMD, ..v.tx_ring[t] };
        (
            DeviceView {
                regs: v.regs.update(E1000_TDT as int, next_slot(t, v.tx_len()) as u32),
                tx_ring: v.tx_ring.update(t, d),
                tx_bufs: v.tx_bufs.update(t, fill_prefix(v.tx_bufs[t], packet.take(n))),
                ..v
            },
            n as i32,
        )
    }
}

/// The accesses of a transmit call: the tail register is read; when the slot is
/// free, the packet goes into its buffer and the descriptor is written, a barrier
/// orders both before the one write that moves the tail, and a status read
/// flushes that write.
pub open spec fn transmit_trace(v: DeviceView, packet: Seq<u8>) -> Seq<Access> {
    let t = tx_slot(v);
    if !tx_done(v.tx_ring[t]) {
        seq![Access::RegRead(E1000_TDT)]
    } else {
        seq![
            Access::RegRead(E1000_TDT),
            Access::TxBufWrite(t as usize),
            Access::TxDescWrite(t as usize),
            Access::Fence,
            Access::RegWrite(E1000_TDT, next_slot(t, v.tx_len()) as u32),
            Access::RegRead(E1000_STAT),
        ]
    }
}

impl<K: KernelFunc> E1000Device<K> {
    /// Queues `packet` for transmission in the slot at the transmit tail. Returns
    /// the number of bytes queued (the packet cut to the buffer size), or -1
    /// without changing anything when the device has not finished with that slot.
    pub fn e1000_transmit(&mut self, packet: &[u8]) -> (r: i32)
        requires
            old(self).wf(),
        ensures
            final(self).wf(),
            (final(self)@, r) == transmit_spec(old(self)@, packet@),
            final(self).trace() == old(self).trace() + transmit_trace(old(self)@, packet@),
            final(self).platform() == old(self).platform(),
    {
        let tindex = self.read_reg(E1000_TDT) as usize;
        let d = self.tx_desc(tindex);
        if !d.is_done() {
            assert(self.trace() =~= old(self).trace() + transmit_trace(old(self)@, packet@));
            return -1;
        }
        let mut length = packet.len();
        if length > self.mbuf_size() {
            length = self.mbuf_size();
        }
        self.fill_tx_buf(tindex, packet, length);
        self.store_tx_desc(tindex, TxDesc { length: length as u16, status: 0, cmd: TX_CMD, ..d });
        let cap = self.tx_ring_len();
        proof {
            lemma_next_slot(tindex as int, cap as int);
            lemma_zero_status_not_done();
        }
        self.fence();
        self.write_reg(E1000_TDT, ((tindex + 1) % cap) as u32);
        self.e1000_write_flush();
        assert(self.trace() =~= old(self).trace() + transmit_trace(old(self)@, packet@));
        length as i32
    }
}

} // verus!
