//! Packet-ring engine for Intel 8254x-family Ethernet controllers.
//!
//! The driver owns the controller's register block (one `Volatile<u32>` per
//! register) and the contents of its transmit and receive rings and packet
//! buffers. `E1000Device` brings the controller up, queues packets for
//! transmission, collects received packets and services interrupts; every
//! operation is stated over `DeviceView`, the device's state as plain values,
//! and over `trace`, the accesses it makes to the device in order (`Access`).
//! The `hardware` module plays the controller's side of the ring protocol and
//! `SimPlatform` supplies DMA regions, so that the driver can be exercised
//! without a device.
use vstd::prelude::*;

pub mod control;
pub mod desc;
pub mod device;
pub mod fs;
pub mod hardware;
pub mod laws;
pub mod ownership;
pub mod platform;
pub mod regs;
pub mod ring;
pub mod rx;
pub mod tx;
pub mod volatile;

pub use desc::{RxDesc, TxDesc};
pub use device::{Access, DmaRegion, E1000Device, E1000Error, KernelFunc};
pub use platform::SimPlatform;
pub use volatile::Volatile;

verus! {

/// Extension point for platform-specific services.
pub trait Ext {}

/// A value of one of two types.
pub enum Either<L, R> {
    /// Left value.
    Left(L),
    /// Right value.
    Right(R),
}

} // verus!
