//! Properties that hold across the operations of the driver and of the device.
use vstd::prelude::*;
use crate::desc::{lemma_zero_status_not_done, rx_done, tx_done, DESC_SIZE};
use crate::device::DeviceView;
use crate::hardware::{hw_receive_spec, hw_transmit_spec};
use crate::ownership::rx_held_by_device;
use crate::regs::{E1000_RDH, E1000_RDT};
use crate::ring::{is_pow2, lemma_next_slot, offset_of, slot_at, MBUF_SIZE, RING_ALIGN};
use crate::rx::{after_receive, receive_result, rx_packet_len, rx_slot, rx_start};
use crate::tx::{transmit_spec, tx_slot};

verus! {

/// Every ring of a device has a power-of-two slot count and a byte size that is a
/// multiple of 128.
pub proof fn lemma_ring_geometry(v: DeviceView)
    requires
        v.wf(),
    ensures
        is_pow2(v.tx_ring.len()),
        is_pow2(v.rx_ring.len()),
        (v.tx_len() * DESC_SIZE) % (RING_ALIGN as int) == 0,
        (v.rx_len() * DESC_SIZE) % (RING_ALIGN as int) == 0,
{
}

/// A poll that takes nothing leaves the device as it was.
proof fn lemma_after_receive_none(v: DeviceView)
    requires
        0 <= rx_start(v) < v.rx_len(),
    ensures
        after_receive(v, 0) == v,
{
    assert(after_receive(v, 0).rx_ring =~= v.rx_ring);
    assert(after_receive(v, 0).rx_bufs =~= v.rx_bufs);
}

/// Each slot of the ring lies some number of places after the start.
proof fn lemma_slot_offset(s: int, st: int, cap: int)
    requires
        0 <= s < cap,
        0 <= st < cap,
    ensures
        0 <= offset_of(s, st, cap) < cap,
        slot_at(st, offset_of(s, st, cap), cap) == s,
{
}

/// Polling again with no device activity in between returns an empty batch and
/// changes nothing.
pub proof fn lemma_receive_idempotent(
    v0: DeviceView,
    v1: DeviceView,
    r1: Option<Seq<Seq<u8>>>,
    v2: DeviceView,
    r2: Option<Seq<Seq<u8>>>,
)
    requires
        v0.wf(),
        receive_result(v0, v1, r1),
        receive_result(v1, v2, r2),
    ensures
        r1 is Some,
        v2 == v1,
        r2 == Some(Seq::<Seq<u8>>::empty()),
{
    lemma_zero_status_not_done();
    let cap = v0.rx_len();
    lemma_next_slot(v0.reg(E1000_RDT), cap);
    assert(v0.rx_ring[rx_start(v0)].addr != 0);
    let ps1 = r1->Some_0;
    let k = ps1.len() as int;
    let st0 = rx_start(v0);
    assert(v1.rx_len() == cap);
    if k == 0 {
        assert(rx_start(v1) == st0);
    } else {
        assert(v1.reg(E1000_RDT) == slot_at(st0, k - 1, cap));
        lemma_next_slot(slot_at(st0, k - 1, cap), cap);
        assert(rx_start(v1) == slot_at(st0, k, cap));
    }
    let s1 = rx_start(v1);
    if k < cap {
        assert(offset_of(s1, st0, cap) == k);
    } else {
        assert(offset_of(s1, st0, cap) == 0);
    }
    assert(!rx_done(v1.rx_ring[s1]));
    assert(v1.rx_ring[s1].addr == v0.rx_ring[s1].addr);
    let ps2 = r2->Some_0;
    assert(rx_slot(v1, 0) == s1);
    lemma_after_receive_none(v1);
    assert(ps2 =~= Seq::<Seq<u8>>::empty());
}

/// A poll returns packets only from slots the device had marked done before the
/// poll, each read from that slot's buffer as the device left it.
pub proof fn lemma_receive_reads_done_slots(v0: DeviceView, v1: DeviceView, ps: Seq<Seq<u8>>)
    requires
        v0.wf(),
        receive_result(v0, v1, Some(ps)),
    ensures
        forall|j: int|
            0 <= j < ps.len() ==> rx_done(v0.rx_ring[rx_slot(v0, j)]) && #[trigger] ps[j]
                == v0.rx_bufs[rx_slot(v0, j)].take(rx_packet_len(v0, rx_slot(v0, j))),
{
}

/// While the device has marked no receive slot done, a poll returns an empty
/// batch and changes nothing.
pub proof fn lemma_no_packet_before_done(v0: DeviceView, v1: DeviceView, r: Option<Seq<Seq<u8>>>)
    requires
        v0.wf(),
        forall|s: int| 0 <= s < v0.rx_len() ==> !rx_done(#[trigger] v0.rx_ring[s]),
        receive_result(v0, v1, r),
    ensures
        v1 == v0,
        r == Some(Seq::<Seq<u8>>::empty()),
{
    lemma_next_slot(v0.reg(E1000_RDT), v0.rx_len());
    assert(v0.rx_ring[rx_start(v0)].addr != 0);
    let ps = r->Some_0;
    if ps.len() > 0 {
        assert(rx_done(v0.rx_ring[rx_slot(v0, 0)]));
    }
    lemma_after_receive_none(v0);
    assert(ps =~= Seq::<Seq<u8>>::empty());
}

/// Software writes a transmit slot only when the device has marked it done, and
/// the slot it writes is not done afterwards, so it is refused until the device
/// has sent its packet.
pub proof fn lemma_transmit_needs_done(v0: DeviceView, packet: Seq<u8>)
    requires
        v0.wf(),
    ensures
        transmit_spec(v0, packet).1 >= 0 ==> tx_done(v0.tx_ring[tx_slot(v0)]),
        transmit_spec(v0, packet).1 >= 0 ==> !tx_done(transmit_spec(v0, packet).0.tx_ring[tx_slot(v0)]),
        transmit_spec(v0, packet).1 < 0 ==> transmit_spec(v0, packet).0 == v0,
{
    lemma_zero_status_not_done();
}

/// Transmit changes no buffer but that of the tail slot, and that one only when
/// the device had marked the slot done, that is, when it belonged to software.
pub proof fn lemma_transmit_buffer_ownership(v0: DeviceView, packet: Seq<u8>)
    requires
        v0.wf(),
    ensures
        forall|s: int|
            0 <= s < v0.tx_len() && #[trigger] transmit_spec(v0, packet).0.tx_bufs[s] != v0.tx_bufs[s]
                ==> s == tx_slot(v0) && tx_done(v0.tx_ring[s]),
        transmit_spec(v0, packet).0.rx_bufs == v0.rx_bufs,
{
}

/// A poll changes only the buffers of slots the device had marked done, and no
/// transmit buffer.
pub proof fn lemma_receive_buffer_ownership(v0: DeviceView, v1: DeviceView, r: Option<Seq<Seq<u8>>>)
    requires
        v0.wf(),
        receive_result(v0, v1, r),
    ensures
        forall|s: int|
            0 <= s < v0.rx_len() && #[trigger] v1.rx_bufs[s] != v0.rx_bufs[s] ==> rx_done(v0.rx_ring[s]),
        v1.tx_bufs == v0.tx_bufs,
{
    let cap = v0.rx_len();
    lemma_next_slot(v0.reg(E1000_RDT), cap);
    let st = rx_start(v0);
    assert forall|s: int| 0 <= s < cap && #[trigger] v1.rx_bufs[s] != v0.rx_bufs[s] implies rx_done(
        v0.rx_ring[s],
    ) by {
        lemma_slot_offset(s, st, cap);
        assert(rx_slot(v0, offset_of(s, st, cap)) == s);
    }
}

/// The device changes no transmit buffer, and of the receive buffers only the one
/// at its head, which it holds.
pub proof fn lemma_device_buffer_ownership(v0: DeviceView, frame: Seq<u8>)
    requires
        v0.wf(),
    ensures
        hw_transmit_spec(v0).0.tx_bufs == v0.tx_bufs,
        hw_transmit_spec(v0).0.rx_bufs == v0.rx_bufs,
        hw_receive_spec(v0, frame).0.tx_bufs == v0.tx_bufs,
        forall|s: int|
            0 <= s < v0.rx_len() && #[trigger] hw_receive_spec(v0, frame).0.rx_bufs[s] != v0.rx_bufs[s]
                ==> s == v0.reg(E1000_RDH) && rx_held_by_device(v0, s),
{
    lemma_next_slot(v0.reg(E1000_RDH), v0.rx_len());
}

/// A packet of exactly one buffer's size is queued whole; with one byte more it
/// is cut to the buffer size.
pub proof fn lemma_transmit_boundary(v0: DeviceView, packet: Seq<u8>)
    requires
        v0.wf(),
        tx_done(v0.tx_ring[tx_slot(v0)]),
        packet.len() == MBUF_SIZE || packet.len() == MBUF_SIZE + 1,
    ensures
        transmit_spec(v0, packet).1 == MBUF_SIZE,
        transmit_spec(v0, packet).0.tx_ring[tx_slot(v0)].length == MBUF_SIZE,
        transmit_spec(v0, packet).0.tx_bufs[tx_slot(v0)] == packet.take(MBUF_SIZE as int),
        packet.len() == MBUF_SIZE ==> transmit_spec(v0, packet).0.tx_bufs[tx_slot(v0)] == packet,
{
    let t = tx_slot(v0);
    let b = transmit_spec(v0, packet).0.tx_bufs[t];
    assert(b =~= packet.take(MBUF_SIZE as int));
    if packet.len() == MBUF_SIZE {
        assert(packet.take(MBUF_SIZE as int) =~= packet);
    }
}

} // verus!
