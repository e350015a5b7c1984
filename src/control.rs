//! Bring-up sequence and interrupt control of the device.
use vstd::prelude::*;
use crate::device::{Access, DeviceView, E1000Device, KernelFunc};
use crate::regs::{
    E1000_CTL, E1000_CTL_RST, E1000_ICR, E1000_ICR_LSC, E1000_ICR_RXT0, E1000_ICS, E1000_IMC,
    E1000_IMS, E1000_ITR, E1000_MTA, E1000_MTA_LEN, E1000_RADV, E1000_RCTL, E1000_RDBAH,
    E1000_RDBAL, E1000_RDH, E1000_RDLEN, E1000_RDT, E1000_RDTR, E1000_REG_COUNT, E1000_RFCTL,
    E1000_STAT, E1000_TADV, E1000_TCTL, E1000_TDBAH, E1000_TDBAL, E1000_TDH, E1000_TDLEN,
    E1000_TDT, E1000_TIDV, E1000_TIPG, IMS_ENABLE_MASK, RCTL_INIT, TCTL_INIT, TIPG_INIT,
};

verus! {

/// The register block after bring-up, starting from `r`: reset requested on top
/// of the old control value, transmitter and receiver programmed with their ring
/// addresses and byte lengths, transmit head and tail at zero, receive head at
/// zero and receive tail at the last slot, multicast table and interrupt timers
/// cleared, and only the receive-timer interrupt unmasked. Other registers keep
/// their values.
pub open spec fn programmed_regs(
    r: Seq<u32>,
    tx_dma: usize,
    tx_bytes: int,
    rx_dma: usize,
    rx_bytes: int,
    rx_slots: int,
) -> Seq<u32> {
    Seq::new(
        r.len(),
        |i: int|
            if i == E1000_CTL {
                r[E1000_CTL as int] | E1000_CTL_RST
            } else if i == E1000_IMS {
                E1000_ICR_RXT0
            } else if i == E1000_TCTL {
                TCTL_INIT
            } else if i == E1000_TIPG {
                TIPG_INIT
            } else if i == E1000_TDBAL {
                tx_dma as u32
            } else if i == E1000_TDBAH {
                ((tx_dma as u64) >> 32u64) as u32
            } else if i == E1000_TDLEN {
                tx_bytes as u32
            } else if i == E1000_RCTL {
                RCTL_INIT
            } else if i == E1000_RDBAL {
                rx_dma as u32
            } else if i == E1000_RDBAH {
                ((rx_dma as u64) >> 32u64) as u32
            } else if i == E1000_RDLEN {
                rx_bytes as u32
            } else if i == E1000_RDT {
                (rx_slots - 1) as u32
            } else if i == E1000_TDT || i == E1000_TDH || i == E1000_RDH || i == E1000_RFCTL
                || i == E1000_TIDV || i == E1000_TADV || i == E1000_RDTR || i == E1000_RADV || i
                == E1000_ITR || (E1000_MTA <= i < E1000_MTA + E1000_MTA_LEN) {
                0u32
            } else {
                r[i]
            },
    )
}

/// Writes of zero to the first `n` entries of the multicast table, in order.
pub open spec fn mta_clear_trace(n: int) -> Seq<Access> {
    Seq::new(n as nat, |k: int| Access::RegWrite((E1000_MTA + k) as usize, 0u32))
}

/// The accesses of the bring-up sequence, given the control value `ctl` read at
/// its start: interrupts masked, reset requested, interrupts masked again, a
/// barrier before any ring is programmed, then transmitter, receiver, multicast
/// table and interrupt timing, the receive-timer interrupt unmasked, pending
/// causes read, and a status read that flushes the writes.
pub open spec fn init_trace(ctl: u32, tx_dma: usize, tx_bytes: int, rx_dma: usize, rx_bytes: int, rx_slots: int) -> Seq<
    Access,
> {
    seq![
        Access::RegRead(E1000_STAT),
        Access::RegRead(E1000_CTL),
        Access::RegWrite(E1000_IMS, 0u32),
        Access::RegWrite(E1000_CTL, ctl | E1000_CTL_RST),
        Access::RegWrite(E1000_IMS, 0u32),
        Access::Fence,
        Access::RegWrite(E1000_TCTL, TCTL_INIT),
        Access::RegWrite(E1000_TIPG, TIPG_INIT),
        Access::RegWrite(E1000_TDBAL, tx_dma as u32),
        Access::RegWrite(E1000_TDBAH, ((tx_dma as u64) >> 32u64) as u32),
        Access::RegWrite(E1000_TDLEN, tx_bytes as u32),
        Access::RegWrite(E1000_TDT, 0u32),
        Access::RegWrite(E1000_TDH, 0u32),
        Access::RegWrite(E1000_RCTL, RCTL_INIT),
        Access::RegWrite(E1000_RFCTL, 0u32),
        Access::RegWrite(E1000_RDBAL, rx_dma as u32),
        Access::RegWrite(E1000_RDBAH, ((rx_dma as u64) >> 32u64) as u32),
        Access::RegWrite(E1000_RDLEN, rx_bytes as u32),
        Access::RegWrite(E1000_RDH, 0u32),
        Access::RegWrite(E1000_RDT, (rx_slots - 1) as u32),
    ] + mta_clear_trace(E1000_MTA_LEN as int) + seq![
        Access::RegWrite(E1000_TIDV, 0u32),
        Access::RegWrite(E1000_TADV, 0u32),
        Access::RegWrite(E1000_RDTR, 0u32),
        Access::RegWrite(E1000_RADV, 0u32),
        Access::RegWrite(E1000_ITR, 0u32),
        Access::RegWrite(E1000_IMS, E1000_ICR_RXT0),
        Access::RegRead(E1000_ICR),
        Access::RegRead(E1000_STAT),
    ]
}

impl<K: KernelFunc> E1000Device<K> {
    /// Runs the bring-up sequence on the register block: reset, transmit and
    /// receive programming, multicast table, interrupt configuration.
    pub(crate) fn e1000_init(&mut self, tx_dma: usize, tx_bytes: usize, rx_dma: usize, rx_bytes: usize)
        requires
            old(self)@.regs.len() == E1000_REG_COUNT,
            old(self)@.rx_len() >= 1,
        ensures
            final(self)@ == (DeviceView {
                regs: programmed_regs(
                    old(self)@.regs,
                    tx_dma,
                    tx_bytes as int,
                    rx_dma,
                    rx_bytes as int,
                    old(self)@.rx_len(),
                ),
                ..old(self)@
            }),
            final(self).trace() == old(self).trace() + init_trace(
                old(self)@.regs[E1000_CTL as int],
                tx_dma,
                tx_bytes as int,
                rx_dma,
                rx_bytes as int,
                old(self)@.rx_len(),
            ),
            final(self).platform() == old(self).platform(),
    {
        let ghost r0 = self@.regs;
        let ghost t0 = self.trace();
        let _stat = self.read_reg(E1000_STAT);
        let ctl = self.read_reg(E1000_CTL);

        // Reset with interrupts masked; the reset may unmask them again.
        self.write_reg(E1000_IMS, 0);
        self.write_reg(E1000_CTL, ctl | E1000_CTL_RST);
        self.write_reg(E1000_IMS, 0);
        self.fence();

        // Transmitter.
        self.write_reg(E1000_TCTL, TCTL_INIT);
        self.write_reg(E1000_TIPG, TIPG_INIT);
        self.write_reg(E1000_TDBAL, tx_dma as u32);
        self.write_reg(E1000_TDBAH, ((tx_dma as u64) >> 32u64) as u32);
        self.write_reg(E1000_TDLEN, tx_bytes as u32);
        self.write_reg(E1000_TDT, 0);
        self.write_reg(E1000_TDH, 0);

        // Receiver; every slot but the last is handed to the device.
        self.write_reg(E1000_RCTL, RCTL_INIT);
        self.write_reg(E1000_RFCTL, 0);
        self.write_reg(E1000_RDBAL, rx_dma as u32);
        self.write_reg(E1000_RDBAH, ((rx_dma as u64) >> 32u64) as u32);
        self.write_reg(E1000_RDLEN, rx_bytes as u32);
        self.write_reg(E1000_RDH, 0);
        let last = self.rx_ring_len() - 1;
        self.write_reg(E1000_RDT, last as u32);

        let ghost before_mta = self@;
        let ghost trace_mta = self.trace();
        assert(before_mta.regs =~= Seq::new(
            before_mta.regs.len(),
            |k: int|
                if E1000_MTA <= k < E1000_MTA + 0 {
                    0u32
                } else {
                    before_mta.regs[k]
                },
        ));
        assert(trace_mta =~= trace_mta + mta_clear_trace(0));
        let mut i: usize = 0;
        while i < E1000_MTA_LEN
            invariant
                i <= E1000_MTA_LEN,
                self@ == (DeviceView {
                    regs: Seq::new(
                        before_mta.regs.len(),
                        |k: int|
                            if E1000_MTA <= k < E1000_MTA + i {
                                0u32
                            } else {
                                before_mta.regs[k]
                            },
                    ),
                    ..before_mta
                }),
                self.trace() == trace_mta + mta_clear_trace(i as int),
                self.platform() == old(self).platform(),
                before_mta.regs.len() == E1000_REG_COUNT,
            decreases E1000_MTA_LEN - i,
        {
            self.write_reg(E1000_MTA + i, 0);
            i = i + 1;
            assert(self@.regs =~= Seq::new(
                before_mta.regs.len(),
                |k: int|
                    if E1000_MTA <= k < E1000_MTA + i {
                        0u32
                    } else {
                        before_mta.regs[k]
                    },
            ));
            assert(self.trace() =~= trace_mta + mta_clear_trace(i as int));
        }

        self.write_reg(E1000_TIDV, 0);
        self.write_reg(E1000_TADV, 0);
        self.write_reg(E1000_RDTR, 0);
        self.write_reg(E1000_RADV, 0);
        self.write_reg(E1000_ITR, 0);
        self.write_reg(E1000_IMS, E1000_ICR_RXT0);

        let _icr = self.read_reg(E1000_ICR);
        self.e1000_write_flush();
        assert(self@.regs =~= programmed_regs(
            r0,
            tx_dma,
            tx_bytes as int,
            rx_dma,
            rx_bytes as int,
            old(self)@.rx_len(),
        ));
        assert(self.trace() =~= t0 + init_trace(
            r0[E1000_CTL as int],
            tx_dma,
            tx_bytes as int,
            rx_dma,
            rx_bytes as int,
            old(self)@.rx_len(),
        ));
    }

    /// Masks every interrupt class, then flushes the write.
    pub fn e1000_irq_disable(&mut self)
        requires
            old(self).wf(),
        ensures
            final(self).wf(),
            final(self)@ == (DeviceView { regs: old(self)@.regs.update(E1000_IMC as int, !0u32), ..old(self)@ }),
            final(self).trace() == old(self).trace() + seq![
                Access::RegWrite(E1000_IMC, !0u32),
                Access::RegRead(E1000_STAT),
            ],
            final(self).platform() == old(self).platform(),
    {
        self.write_reg(E1000_IMC, !0u32);
        self.e1000_write_flush();
        assert(self.trace() =~= old(self).trace() + seq![
            Access::RegWrite(E1000_IMC, !0u32),
            Access::RegRead(E1000_STAT),
        ]);
    }

    /// Unmasks the receive, transmit-done, link and error interrupt classes, then
    /// flushes the write.
    pub fn e1000_irq_enable(&mut self)
        requires
            old(self).wf(),
        ensures
            final(self).wf(),
            final(self)@ == (DeviceView {
                regs: old(self)@.regs.update(E1000_IMS as int, IMS_ENABLE_MASK),
                ..old(self)@
            }),
            final(self).trace() == old(self).trace() + seq![
                Access::RegWrite(E1000_IMS, IMS_ENABLE_MASK),
                Access::RegRead(E1000_STAT),
            ],
            final(self).platform() == old(self).platform(),
    {
        self.write_reg(E1000_IMS, IMS_ENABLE_MASK);
        self.e1000_write_flush();
        assert(self.trace() =~= old(self).trace() + seq![
            Access::RegWrite(E1000_IMS, IMS_ENABLE_MASK),
            Access::RegRead(E1000_STAT),
        ]);
    }

    /// Reads the status register so that earlier register writes reach the device.
    pub fn e1000_write_flush(&mut self)
        requires
            old(self)@.regs.len() == E1000_REG_COUNT,
        ensures
            final(self)@ == old(self)@,
            final(self).trace() == old(self).trace().push(Access::RegRead(E1000_STAT)),
            final(self).platform() == old(self).platform(),
    {
        let _status = self.read_reg(E1000_STAT);
    }

    /// Raises a link-status-change interrupt.
    pub fn e1000_cause_lsc_int(&mut self)
        requires
            old(self).wf(),
        ensures
            final(self).wf(),
            final(self)@ == (DeviceView { regs: old(self)@.regs.update(E1000_ICS as int, E1000_ICR_LSC), ..old(self)@ }),
            final(self).trace() == old(self).trace().push(Access::RegWrite(E1000_ICS, E1000_ICR_LSC)),
            final(self).platform() == old(self).platform(),
    {
        self.write_reg(E1000_ICS, E1000_ICR_LSC);
    }

    /// Acknowledges pending interrupts: reads the cause register, writes the same
    /// bits back (each written one clears its cause) and returns them.
    pub fn e1000_intr(&mut self) -> (r: u32)
        requires
            old(self).wf(),
        ensures
            final(self).wf(),
            r == old(self)@.regs[E1000_ICR as int],
            final(self)@ == (DeviceView { regs: old(self)@.regs.update(E1000_ICR as int, r), ..old(self)@ }),
            final(self).trace() == old(self).trace() + seq![
                Access::RegRead(E1000_ICR),
                Access::RegWrite(E1000_ICR, r),
            ],
            final(self).platform() == old(self).platform(),
    {
        let icr = self.read_reg(E1000_ICR);
        self.write_reg(E1000_ICR, icr);
        assert(self.trace() =~= old(self).trace() + seq![
            Access::RegRead(E1000_ICR),
            Access::RegWrite(E1000_ICR, icr),
        ]);
        icr
    }
}

} // verus!
