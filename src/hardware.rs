//! A software model of the device's side of the ring protocol. The device owns
//! the transmit slots from the head register up to the tail register and the
//! receive slots from the head up to (not including) the tail; it works on the
//! slot at its head and hands it back by setting DD and moving the head on.
use vstd::prelude::*;
use crate::desc::{RxDesc, TxDesc};
use crate::device::{fill_prefix, DeviceView, E1000Device, KernelFunc};
use crate::regs::{E1000_RDH, E1000_RDT, E1000_RXD_STAT_DD, E1000_RXD_STAT_EOP, E1000_TDH, E1000_TDT, E1000_TXD_STAT_DD};
use crate::ring::{lemma_next_slot, next_slot};

verus! {

/// Status the device writes back into a filled receive descriptor.
pub const RX_FILLED_STATUS: u8 = E1000_RXD_STAT_DD | E1000_RXD_STAT_EOP;

/// The device sends the packet at its transmit head, if it holds one: the
/// descriptor's status becomes DD and the head moves one slot on. Returns whether
/// there was a packet.
pub open spec fn hw_transmit_spec(v: DeviceView) -> (DeviceView, bool) {
    let h = v.reg(E1000_TDH);
    if h == v.reg(E1000_TDT) {
        (v, false)
    } else {
        (
            DeviceView {
                regs: v.regs.update(E1000_TDH as int, next_slot(h, v.tx_len()) as u32),
                tx_ring: v.tx_ring.update(h, TxDesc { status: E1000_TXD_STAT_DD, ..v.tx_ring[h] }),
                ..v
            },
            true,
        )
    }
}

/// Bytes of `frame` that fit one receive buffer.
pub open spec fn hw_frame_len(v: DeviceView, frame: Seq<u8>) -> int {
    if frame.len() > v.mbuf_size {
        v.mbuf_size as int
    } else {
        frame.len() as int
    }
}

/// The device stores `frame` in the receive slot at its head, if it owns one:
/// the frame (cut to the buffer size) goes to the start of the slot's buffer, the
/// descriptor gets its length and status DD and end-of-packet, and the head moves
/// one slot on. Returns whether a slot was free.
pub open spec fn hw_receive_spec(v: DeviceView, frame: Seq<u8>) -> (DeviceView, bool) {
    let h = v.reg(E1000_RDH);
    if h == v.reg(E1000_RDT) {
        (v, false)
    } else {
        let n = hw_frame_len(v, frame);
        (
            DeviceView {
                regs: v.regs.update(E1000_RDH as int, next_slot(h, v.rx_len()) as u32),
                rx_ring: v.rx_ring.update(
                    h,
                    RxDesc { length: n as u16, csum: 0, status: RX_FILLED_STATUS, errors: 0, ..v.rx_ring[h] },
                ),
                rx_bufs: v.rx_bufs.update(h, fill_prefix(v.rx_bufs[h], frame.take(n))),
                ..v
            },
            true,
        )
    }
}

impl<K: KernelFunc> E1000Device<K> {
    /// Plays the device sending one queued packet.
    pub fn hw_complete_transmit(&mut self) -> (r: bool)
        requires
            old(self).wf(),
        ensures
            final(self).wf(),
            (final(self)@, r) == hw_transmit_spec(old(self)@),
            final(self).trace() == old(self).trace(),
            final(self).platform() == old(self).platform(),
    {
        let h = self.register(E1000_TDH) as usize;
        if h == self.register(E1000_TDT) as usize {
            return false;
        }
        let d = self.tx_desc(h);
        self.device_set_tx_desc(h, TxDesc { status: E1000_TXD_STAT_DD, ..d });
        let cap = self.tx_ring_len();
        proof {
            lemma_next_slot(h as int, cap as int);
        }
        self.device_write_reg(E1000_TDH, ((h + 1) % cap) as u32);
        true
    }

    /// Plays the device receiving `frame` from the wire.
    pub fn hw_deliver_frame(&mut self, frame: &[u8]) -> (r: bool)
        requires
            old(self).wf(),
        ensures
            final(self).wf(),
            (final(self)@, r) == hw_receive_spec(old(self)@, frame@),
            final(self).trace() == old(self).trace(),
            final(self).platform() == old(self).platform(),
    {
        let h = self.register(E1000_RDH) as usize;
        if h == self.register(E1000_RDT) as usize {
            return false;
        }
        let mut n = frame.len();
        if n > self.mbuf_size() {
            n = self.mbuf_size();
        }
        self.device_fill_rx_buf(h, frame, n);
        let d = self.rx_desc(h);
        self.device_set_rx_desc(
            h,
            RxDesc { length: n as u16, csum: 0, status: RX_FILLED_STATUS, errors: 0, ..d },
        );
        let cap = self.rx_ring_len();
        proof {
            lemma_next_slot(h as int, cap as int);
        }
        self.device_write_reg(E1000_RDH, ((h + 1) % cap) as u32);
        true
    }
}

} // verus!
