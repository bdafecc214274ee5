//! Models of the memory-mapped registers the drivers work with.
//!
//! Each register is held as a plain value. The drivers' decisions are made and
//! proved against these values; the thin unverified layer around the library
//! copies them to and from the real memory-mapped registers, and a test can
//! stand in for the hardware by mutating them directly.

use vstd::prelude::*;

verus! {

/// The core-local interruptor: the tick counter, the comparator and the
/// machine-timer-interrupt enable bit.
#[derive(Clone, Copy, PartialEq, Eq, Structural, Debug)]
pub struct ClintRegs {
    /// `mtime`: free-running tick counter. Read-only to software; only the
    /// hardware (here: [`ClintRegs::advance`]) makes it grow.
    pub mtime: u64,
    /// `mtimecmp`: the comparator. While the timer interrupt is enabled and
    /// `mtime >= mtimecmp`, the machine timer interrupt is asserted.
    pub mtimecmp: u64,
    /// The machine-timer-interrupt enable bit.
    pub mtimer_enabled: bool,
}

impl ClintRegs {
    /// The register state at reset: counter at zero, comparator at zero,
    /// timer interrupt disabled.
    pub fn new() -> (r: ClintRegs)
        ensures
            r.mtime == 0,
            r.mtimecmp == 0,
            !r.mtimer_enabled,
    {
        ClintRegs { mtime: 0, mtimecmp: 0, mtimer_enabled: false }
    }

    /// The condition under which the hardware asserts the machine timer
    /// interrupt: the comparator is enabled and the counter has reached it.
    pub open spec fn timer_interrupt_pending(self) -> bool {
        self.mtimer_enabled && self.mtime >= self.mtimecmp
    }

    /// Hardware action: the tick counter advances by `delta`. Nothing but
    /// `mtime` changes, and `mtime` never decreases.
    pub fn advance(&mut self, delta: u64)
        requires
            old(self).mtime + delta <= u64::MAX,
        ensures
            final(self).mtime == old(self).mtime + delta,
            final(self).mtimecmp == old(self).mtimecmp,
            final(self).mtimer_enabled == old(self).mtimer_enabled,
    {
        self.mtime = self.mtime + delta;
    }
}

/// The transmit side of the UART: the transmit-data register with its `full`
/// flag, and the transmit-watermark flag that signals a drained queue.
#[derive(PartialEq, Eq, Debug)]
pub struct TxRegs {
    /// Every byte the transmit-data register has accepted, oldest first:
    /// what the hardware shifts out on the line.
    pub sent: Vec<u8>,
    /// The `full` flag of the transmit-data register. While it is set, a
    /// write would be lost, so the driver must not perform it. Only the
    /// hardware (or a test standing in for it) changes this flag.
    pub full: bool,
    /// The transmit-watermark pending flag: set by the hardware once the
    /// transmit queue has drained below the watermark; the flush-complete
    /// signal.
    pub txwm_pending: bool,
}

impl TxRegs {
    /// The register state at reset: nothing sent, not full, watermark flag
    /// clear.
    pub fn new() -> (r: TxRegs)
        ensures
            r.sent@ == Seq::<u8>::empty(),
            !r.full,
            !r.txwm_pending,
    {
        TxRegs { sent: Vec::new(), full: false, txwm_pending: false }
    }
}

/// The receive side of the UART: the receive-data register with its `empty`
/// flag, and the interrupt-enable register (owned by the receive path: only
/// receive-side code writes it after the port is split).
#[derive(Clone, Copy, PartialEq, Eq, Structural, Debug)]
pub struct RxRegs {
    /// The byte the receive-data register holds; meaningful only while
    /// `empty` is false.
    pub data: u8,
    /// The `empty` flag of the receive-data register: no byte is waiting.
    /// Reading the register while a byte waits consumes it and sets the flag.
    pub empty: bool,
    /// Interrupt enable: receive watermark.
    pub ie_rxwm: bool,
    /// Interrupt enable: transmit watermark. The transmit path never
    /// suspends, so every write of the enable register in this library
    /// clears this bit; it is carried because the register holds it.
    pub ie_txwm: bool,
}

impl RxRegs {
    /// The register state at reset: empty, both interrupt enables clear.
    pub fn new() -> (r: RxRegs)
        ensures
            r.empty,
            !r.ie_rxwm,
            !r.ie_txwm,
    {
        RxRegs { data: 0, empty: true, ie_rxwm: false, ie_txwm: false }
    }

    /// The receive-watermark pending flag, as the hardware computes it: a
    /// byte is waiting. Writes to the pending register do not change it.
    pub open spec fn rxwm_pending(self) -> bool {
        !self.empty
    }

    /// The register state after a byte lands in the receive-data register.
    pub open spec fn feed_spec(self, byte: u8) -> RxRegs {
        RxRegs { data: byte, empty: false, ..self }
    }

    /// Hardware action: a byte arrives on the line and lands in the
    /// receive-data register. A byte still waiting is overwritten (receiver
    /// overrun); the interrupt enables are untouched.
    pub fn feed(&mut self, byte: u8)
        ensures
            *final(self) == old(self).feed_spec(byte),
            final(self).data == byte,
            !final(self).empty,
            final(self).ie_rxwm == old(self).ie_rxwm,
            final(self).ie_txwm == old(self).ie_txwm,
    {
        self.data = byte;
        self.empty = false;
    }

    /// Read the receive-data register once, as the hardware presents it: the
    /// `empty` flag together with the data bits. If a byte was waiting, the
    /// read consumes it.
    pub fn read_rxdata(&mut self) -> (r: (bool, u8))
        ensures
            r.0 == old(self).empty,
            r.1 == old(self).data,
            final(self).empty,
            final(self).data == old(self).data,
            final(self).ie_rxwm == old(self).ie_rxwm,
            final(self).ie_txwm == old(self).ie_txwm,
    {
        let empty = self.empty;
        let data = self.data;
        self.empty = true;
        (empty, data)
    }
}

/// The UART's configuration registers: baud-rate divisor and the two channel
/// control registers.
#[derive(Clone, Copy, PartialEq, Eq, Structural, Debug)]
pub struct UartConfigRegs {
    /// Baud-rate divisor.
    pub div: u32,
    /// Transmit channel enabled.
    pub tx_enabled: bool,
    /// Transmit watermark level.
    pub tx_watermark: u8,
    /// Receive channel enabled.
    pub rx_enabled: bool,
}

impl UartConfigRegs {
    /// The register state at reset: divisor zero, both channels disabled.
    pub fn new() -> (r: UartConfigRegs)
        ensures
            r.div == 0,
            !r.tx_enabled,
            r.tx_watermark == 0,
            !r.rx_enabled,
    {
        UartConfigRegs { div: 0, tx_enabled: false, tx_watermark: 0, rx_enabled: false }
    }
}

/// The whole UART peripheral, as handed out once at start-up and taken apart
/// by the serial port constructors.
#[derive(PartialEq, Eq, Debug)]
pub struct UartRegs {
    pub cfg: UartConfigRegs,
    pub tx: TxRegs,
    pub rx: RxRegs,
}

impl UartRegs {
    /// The peripheral at reset.
    pub fn new() -> (r: UartRegs)
        ensures
            r.cfg.div == 0,
            !r.cfg.tx_enabled,
            r.cfg.tx_watermark == 0,
            !r.cfg.rx_enabled,
            r.tx.sent@ == Seq::<u8>::empty(),
            !r.tx.full,
            !r.tx.txwm_pending,
            r.rx.empty,
            !r.rx.ie_rxwm,
            !r.rx.ie_txwm,
    {
        UartRegs { cfg: UartConfigRegs::new(), tx: TxRegs::new(), rx: RxRegs::new() }
    }
}

/// The platform-level interrupt controller, reduced to what the serial
/// driver programs: the UART source and the global gates.
#[derive(Clone, Copy, PartialEq, Eq, Structural, Debug)]
pub struct PlicRegs {
    /// Priority assigned to the UART interrupt source.
    pub uart0_priority: u8,
    /// Priority threshold of the hart's context; sources at or below it are
    /// masked.
    pub threshold: u8,
    /// The UART source is enabled in the hart's context.
    pub uart0_enabled: bool,
    /// Machine external interrupts are enabled.
    pub external_enabled: bool,
    /// The hart's global machine-interrupt enable.
    pub machine_interrupts_enabled: bool,
}

impl PlicRegs {
    /// The controller at reset: everything masked and disabled.
    pub fn new() -> (r: PlicRegs)
        ensures
            r.uart0_priority == 0,
            r.threshold == 0,
            !r.uart0_enabled,
            !r.external_enabled,
            !r.machine_interrupts_enabled,
    {
        PlicRegs {
            uart0_priority: 0,
            threshold: 0,
            uart0_enabled: false,
            external_enabled: false,
            machine_interrupts_enabled: false,
        }
    }
}

} // verus!
