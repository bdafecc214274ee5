//! Interrupt-driven timekeeping and asynchronous byte-stream I/O for a
//! single-core SiFive E310x microcontroller running a cooperative scheduler.
//!
//! The hardware registers (the CLINT tick counter and comparator, the UART
//! data registers and their flags, the platform interrupt controller) are
//! modelled as plain values, so that every driver decision — arming the
//! comparator, allocating an alarm slot, the register-check-suspend protocol
//! of the asynchronous receive path — is stated and proved here. The thin
//! layer that reads and writes the memory-mapped registers themselves lives
//! outside the verified library.

use vstd::prelude::*;

pub mod clock;
pub mod hw;
pub mod stdout;
pub mod time;
pub mod time_driver;
pub mod uart;
pub mod waker;

use crate::hw::{ClintRegs, PlicRegs, UartRegs};
use crate::uart::{Pin16, Pin17};

verus! {

pub fn add(left: u64, right: u64) -> (r: u64)
    requires
        left + right <= u64::MAX,
    ensures
        r == left + right,
{
    left + right
}

/// The machine's peripherals, as one move-only ownership token: taking it
/// once at start-up and threading it explicitly to each driver rules out two
/// live handles to the same peripheral. On the real machine the token is
/// taken from the hardware singleton; here it carries the modelled registers
/// in their reset state.
pub struct DeviceResources {
    pub clint: ClintRegs,
    pub uart0: UartRegs,
    pub plic: PlicRegs,
    /// The board pin wired to the UART receiver.
    pub pin16: Pin16,
    /// The board pin wired to the UART transmitter.
    pub pin17: Pin17,
}

/// Obtain the peripherals, every register at its reset value. To be called
/// once, first thing at start-up; the surrounding program enforces the
/// once-only discipline when it takes the hardware singleton.
pub fn init() -> (r: DeviceResources)
    ensures
        r.clint.mtime == 0,
        r.clint.mtimecmp == 0,
        !r.clint.mtimer_enabled,
        r.uart0.cfg.div == 0,
        !r.uart0.cfg.tx_enabled,
        r.uart0.cfg.tx_watermark == 0,
        !r.uart0.cfg.rx_enabled,
        r.uart0.tx.sent@ == Seq::<u8>::empty(),
        !r.uart0.tx.full,
        !r.uart0.tx.txwm_pending,
        r.uart0.rx.empty,
        !r.uart0.rx.ie_rxwm,
        !r.uart0.rx.ie_txwm,
        r.plic.uart0_priority == 0,
        r.plic.threshold == 0,
        !r.plic.uart0_enabled,
        !r.plic.external_enabled,
        !r.plic.machine_interrupts_enabled,
{
    DeviceResources {
        clint: ClintRegs::new(),
        uart0: UartRegs::new(),
        plic: PlicRegs::new(),
        pin16: Pin16,
        pin17: Pin17,
    }
}

} // verus!
