//! Which side owns each ring slot. The device holds the slots from a ring's head
//! register up to, not including, its tail register; software holds the rest.
//! The protocol invariant: no slot the device holds shows DD, and neither does
//! the receive tail slot. Every operation of the driver and of the device keeps
//! it, software only reads or writes slots it holds, and the device only slots
//! it holds.
use vstd::prelude::*;
use crate::desc::{lemma_zero_status_not_done, rx_done, tx_done};
use crate::device::{is_initial, DeviceView};
use crate::hardware::{hw_receive_spec, hw_transmit_spec};
use crate::regs::{E1000_RDH, E1000_RDT, E1000_TDH, E1000_TDT};
use crate::ring::{lemma_next_slot, offset_of, slot_at};
use crate::rx::{receive_result, rx_slot, rx_start};
use crate::tx::{transmit_spec, tx_slot};

verus! {

/// Slot `s` lies from head `h` up to, not including, tail `t`.
pub open spec fn between(h: int, t: int, s: int, cap: int) -> bool {
    offset_of(s, h, cap) < offset_of(t, h, cap)
}

/// The device holds transmit slot `s`.
pub open spec fn tx_held_by_device(v: DeviceView, s: int) -> bool {
    between(v.reg(E1000_TDH), v.reg(E1000_TDT), s, v.tx_len())
}

/// The device holds receive slot `s`.
pub open spec fn rx_held_by_device(v: DeviceView, s: int) -> bool {
    between(v.reg(E1000_RDH), v.reg(E1000_RDT), s, v.rx_len())
}

/// No slot the device holds shows DD, and the receive tail slot does not either.
pub open spec fn ownership_inv(v: DeviceView) -> bool {
    &&& forall|s: int| 0 <= s < v.tx_len() && tx_held_by_device(v, s) ==> !tx_done(#[trigger] v.tx_ring[s])
    &&& forall|s: int| 0 <= s < v.rx_len() && rx_held_by_device(v, s) ==> !rx_done(#[trigger] v.rx_ring[s])
    &&& !rx_done(v.rx_ring[v.reg(E1000_RDT)])
}

/// A device just brought up keeps the protocol invariant.
pub proof fn lemma_initial_ownership(v: DeviceView, regs0: Seq<u32>, tx_slots: int, rx_slots: int)
    requires
        v.wf(),
        is_initial(v, regs0, tx_slots, rx_slots),
    ensures
        ownership_inv(v),
{
    lemma_zero_status_not_done();
    assert(v.reg(E1000_TDH) == 0 && v.reg(E1000_TDT) == 0);
    assert(v.rx_ring[v.reg(E1000_RDT)].status == 0);
    assert forall|s: int| 0 <= s < v.rx_len() && rx_held_by_device(v, s) implies !rx_done(
        #[trigger] v.rx_ring[s],
    ) by {
        assert(v.rx_ring[s].status == 0);
    }
}

/// Queuing a packet keeps the protocol invariant, and writes only the tail slot,
/// which software holds.
pub proof fn lemma_transmit_ownership(v: DeviceView, packet: Seq<u8>)
    requires
        v.wf(),
        ownership_inv(v),
    ensures
        ownership_inv(transmit_spec(v, packet).0),
        !tx_held_by_device(v, tx_slot(v)),
{
    lemma_zero_status_not_done();
    let w = transmit_spec(v, packet).0;
    let cap = v.tx_len();
    let h = v.reg(E1000_TDH);
    let t = v.reg(E1000_TDT);
    lemma_next_slot(t, cap);
    if transmit_spec(v, packet).1 >= 0 {
        assert forall|s: int| 0 <= s < w.tx_len() && tx_held_by_device(w, s) implies !tx_done(
            #[trigger] w.tx_ring[s],
        ) by {
            if s != t {
                assert(tx_held_by_device(v, s));
            }
        }
    }
}

/// The device sending a packet keeps the protocol invariant; the slot it marks
/// done is one it held.
pub proof fn lemma_device_transmit_ownership(v: DeviceView)
    requires
        v.wf(),
        ownership_inv(v),
    ensures
        ownership_inv(hw_transmit_spec(v).0),
        hw_transmit_spec(v).1 ==> tx_held_by_device(v, v.reg(E1000_TDH)),
{
    let w = hw_transmit_spec(v).0;
    let cap = v.tx_len();
    let h = v.reg(E1000_TDH);
    lemma_next_slot(h, cap);
    if hw_transmit_spec(v).1 {
        assert forall|s: int| 0 <= s < w.tx_len() && tx_held_by_device(w, s) implies !tx_done(
            #[trigger] w.tx_ring[s],
        ) by {
            assert(s != h);
            assert(tx_held_by_device(v, s));
        }
    }
}

/// The device storing a frame keeps the protocol invariant; the slot it fills is
/// one it held.
pub proof fn lemma_device_receive_ownership(v: DeviceView, frame: Seq<u8>)
    requires
        v.wf(),
        ownership_inv(v),
    ensures
        ownership_inv(hw_receive_spec(v, frame).0),
        hw_receive_spec(v, frame).1 ==> rx_held_by_device(v, v.reg(E1000_RDH)),
{
    let w = hw_receive_spec(v, frame).0;
    let cap = v.rx_len();
    let h = v.reg(E1000_RDH);
    lemma_next_slot(h, cap);
    if hw_receive_spec(v, frame).1 {
        assert forall|s: int| 0 <= s < w.rx_len() && rx_held_by_device(w, s) implies !rx_done(
            #[trigger] w.rx_ring[s],
        ) by {
            assert(s != h);
            assert(rx_held_by_device(v, s));
        }
    }
}

/// A receive poll keeps the protocol invariant, and every slot it takes is one
/// software held.
pub proof fn lemma_receive_ownership(v: DeviceView, w: DeviceView, r: Option<Seq<Seq<u8>>>)
    requires
        v.wf(),
        ownership_inv(v),
        receive_result(v, w, r),
    ensures
        ownership_inv(w),
        r matches Some(ps) ==> forall|j: int|
            0 <= j < ps.len() ==> !rx_held_by_device(v, #[trigger] rx_slot(v, j)),
{
    lemma_zero_status_not_done();
    let cap = v.rx_len();
    let h = v.reg(E1000_RDH);
    let t = v.reg(E1000_RDT);
    lemma_next_slot(t, cap);
    let st = rx_start(v);
    if let Some(ps) = r {
        let k = ps.len() as int;
        if k == cap {
            assert(rx_slot(v, cap - 1) == t);
            assert(rx_done(v.rx_ring[rx_slot(v, cap - 1)]));
        }
        assert(k < cap);
        if k > 0 {
            let m = offset_of(t, h, cap);
            let last = rx_slot(v, k - 1);
            assert(rx_done(v.rx_ring[last]));
            assert(!rx_held_by_device(v, last));
            // The run of taken slots stops before the device's head.
            assert(m + k < cap);
            assert(w.reg(E1000_RDT) == last);
            assert forall|s: int| 0 <= s < w.rx_len() && rx_held_by_device(w, s) implies !rx_done(
                #[trigger] w.rx_ring[s],
            ) by {
                if offset_of(s, st, cap) < k {
                    assert(w.rx_ring[s].status == 0);
                } else if s == t {
                    assert(offset_of(s, st, cap) == cap - 1);
                } else {
                    assert(rx_held_by_device(v, s));
                }
            }
            assert(w.rx_ring[last].status == 0);
        } else {
            assert forall|s: int| 0 <= s < w.rx_len() && rx_held_by_device(w, s) implies !rx_done(
                #[trigger] w.rx_ring[s],
            ) by {
                assert(rx_held_by_device(v, s));
            }
        }
    }
}

} // verus!
