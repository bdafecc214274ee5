//! The serial port drivers.
//!
//! The blocking port is a single-shot, non-suspending check of the hardware
//! flags: a would-block result is retried by the caller's own loop. The
//! asynchronous receive path follows the register-check-suspend protocol
//! against the waker cell: register the wake target, re-check the
//! receive-pending flag, and only then suspend — so an interrupt firing
//! between registration and the re-check is still observed. The transmit
//! path never suspends in either flavour.

use vstd::prelude::*;

use core::marker::PhantomData;

use crate::clock::Clocks;
use crate::hw::{PlicRegs, RxRegs, TxRegs, UartConfigRegs, UartRegs};
use crate::time::Bps;
use crate::waker::{WakeTarget, WakerCell};

verus! {

/// Marker for the polling-only port.
pub struct Blocking;

/// Marker for the suspending port.
pub struct Async;

/// Seals the pin and peripheral traits to this crate's types.
pub trait Sealed {

}

/// A pin that can carry the UART's transmit line.
pub trait TxPin: Sealed {

}

/// A pin that can carry the UART's receive line.
pub trait RxPin: Sealed {

}

/// A UART peripheral this driver can own.
pub trait UartX: Sealed {

}

/// The board pin wired to the UART transmitter.
#[derive(PartialEq, Eq, Structural, Debug)]
pub struct Pin17;

/// The board pin wired to the UART receiver.
#[derive(PartialEq, Eq, Structural, Debug)]
pub struct Pin16;

impl Sealed for Pin17 {

}

impl TxPin for Pin17 {

}

impl Sealed for Pin16 {

}

impl RxPin for Pin16 {

}

impl Sealed for UartRegs {

}

impl UartX for UartRegs {

}

/// What a byte-stream operation can report besides data: the expected
/// steady-state would-block condition of the polling interfaces, or a
/// peripheral error surfaced to the consumer (this UART reports none, but the
/// byte-stream contract carries the kind).
#[derive(Clone, Copy, PartialEq, Eq, Structural, Debug)]
pub enum SerialError {
    /// The operation cannot complete yet; retry later. Not an error to log
    /// or escalate.
    WouldBlock,
    /// The peripheral flagged a malformed byte.
    Peripheral,
}

/// The outcome of one poll of the asynchronous read.
#[derive(Clone, Copy, PartialEq, Eq, Structural, Debug)]
pub enum RxPoll {
    /// A byte was available and has been consumed.
    Ready(u8),
    /// No byte yet: the task suspends; its wake target is registered.
    Pending,
}

/// The transmit half: exclusive owner of the transmit-side registers and the
/// transmit pin, so it can be driven by a task of its own.
pub struct Tx<TX, MODE> {
    pub regs: TxRegs,
    pub pin: TX,
    pub _mode: PhantomData<MODE>,
}

/// The receive half: exclusive owner of the receive-side registers (including
/// the interrupt-enable register, which only receive-side code writes) and
/// the receive pin.
pub struct Rx<RX, MODE> {
    pub regs: RxRegs,
    pub pin: RX,
    pub _mode: PhantomData<MODE>,
}

/// A configured serial port: the configuration registers plus the two
/// disjoint direction halves.
pub struct Serial<TX, RX, MODE> {
    pub uart: UartConfigRegs,
    pub tx: Tx<TX, MODE>,
    pub rx: Rx<RX, MODE>,
}

/// Registering a wake target: the first step of the protocol. Last writer
/// wins.
pub open spec fn spec_register_waker(cell: WakerCell, w: WakeTarget) -> WakerCell {
    WakerCell { target: Some(w) }
}

/// The condition re-check of the protocol: if the receive-pending flag shows
/// a byte, consume it and re-enable the receive interrupt; otherwise leave
/// the registers alone (the task will suspend).
pub open spec fn spec_check_rx(rx: RxRegs) -> (RxRegs, RxPoll) {
    if rx.rxwm_pending() {
        (RxRegs { empty: true, ie_rxwm: true, ie_txwm: false, ..rx }, RxPoll::Ready(rx.data))
    } else {
        (rx, RxPoll::Pending)
    }
}

/// One whole poll of the asynchronous read: register, then re-check.
pub open spec fn spec_async_read(rx: RxRegs, cell: WakerCell, w: WakeTarget) -> (
    RxRegs,
    WakerCell,
    RxPoll,
) {
    let cell1 = spec_register_waker(cell, w);
    let checked = spec_check_rx(rx);
    (checked.0, cell1, checked.1)
}

/// The receive-interrupt handler's effect: quiesce the receive interrupt and
/// take whatever wake target is registered. It moves no data.
pub open spec fn spec_interrupt_handler(rx: RxRegs, cell: WakerCell) -> (
    RxRegs,
    WakerCell,
    Option<WakeTarget>,
) {
    (RxRegs { ie_rxwm: false, ..rx }, WakerCell { target: None }, cell.target)
}

impl<TX: TxPin, RX: RxPin> Serial<TX, RX, Blocking> {
    /// Configure the UART for polling use: program the baud-rate divisor
    /// from the peripheral clock, enable both channels with a transmit
    /// watermark of one, and mask both UART interrupts.
    pub fn new_blocking(uart: UartRegs, pins: (TX, RX), baud_rate: Bps, clocks: Clocks) -> (r:
        Self)
        requires
            baud_rate.0 > 0,
            clocks.tlclk.0 as int / baud_rate.0 as int >= 1,
        ensures
            r.uart.div == clocks.tlclk.0 as int / baud_rate.0 as int - 1,
            r.uart.tx_enabled,
            r.uart.tx_watermark == 1,
            r.uart.rx_enabled,
            !r.rx.regs.ie_rxwm,
            !r.rx.regs.ie_txwm,
            r.rx.regs.data == uart.rx.data,
            r.rx.regs.empty == uart.rx.empty,
            r.tx.regs == uart.tx,
            r.tx.pin == pins.0,
            r.rx.pin == pins.1,
    {
        let UartRegs { mut cfg, tx: tx_regs, rx: mut rx_regs } = uart;
        rx_regs.ie_txwm = false;
        rx_regs.ie_rxwm = false;
        cfg.div = clocks.tlclk().0 / baud_rate.0 - 1;
        cfg.tx_watermark = 1;
        cfg.tx_enabled = true;
        cfg.rx_enabled = true;

        Serial {
            uart: cfg,
            tx: Tx { regs: tx_regs, pin: pins.0, _mode: PhantomData },
            rx: Rx { regs: rx_regs, pin: pins.1, _mode: PhantomData },
        }
    }

    /// One non-suspending read attempt; see [`Rx::blocking_read`].
    pub fn read(&mut self) -> (r: Result<u8, SerialError>)
        ensures
            final(self).uart == old(self).uart,
            final(self).tx.regs == old(self).tx.regs,
            final(self).tx.pin == old(self).tx.pin,
            final(self).rx.pin == old(self).rx.pin,
            final(self).rx.regs.data == old(self).rx.regs.data,
            final(self).rx.regs.ie_rxwm == old(self).rx.regs.ie_rxwm,
            final(self).rx.regs.ie_txwm == old(self).rx.regs.ie_txwm,
            old(self).rx.regs.empty ==> r == Err::<u8, SerialError>(SerialError::WouldBlock)
                && final(self).rx.regs.empty,
            !old(self).rx.regs.empty ==> r == Ok::<u8, SerialError>(old(self).rx.regs.data)
                && final(self).rx.regs.empty,
    {
        self.rx.blocking_read()
    }

    /// One non-suspending write attempt; see [`Tx::blocking_write`].
    pub fn write(&mut self, byte: u8) -> (r: Result<(), SerialError>)
        ensures
            final(self).uart == old(self).uart,
            final(self).rx == old(self).rx,
            final(self).tx.pin == old(self).tx.pin,
            final(self).tx.regs.full == old(self).tx.regs.full,
            final(self).tx.regs.txwm_pending == old(self).tx.regs.txwm_pending,
            old(self).tx.regs.full ==> r == Err::<(), SerialError>(SerialError::WouldBlock)
                && final(self).tx.regs.sent@ == old(self).tx.regs.sent@,
            !old(self).tx.regs.full ==> r == Ok::<(), SerialError>(())
                && final(self).tx.regs.sent@ == old(self).tx.regs.sent@.push(byte),
    {
        self.tx.blocking_write(byte)
    }

    /// One non-suspending flush check; see [`Tx::blocking_flush`].
    pub fn flush(&mut self) -> (r: Result<(), SerialError>)
        ensures
            *final(self) == *old(self),
            r == if old(self).tx.regs.txwm_pending {
                Ok::<(), SerialError>(())
            } else {
                Err::<(), SerialError>(SerialError::WouldBlock)
            },
    {
        self.tx.blocking_flush()
    }
}

impl<TX: TxPin, RX: RxPin> Serial<TX, RX, Async> {
    /// Configure the UART for suspending use: program the baud-rate divisor
    /// and enable both channels with a transmit watermark of one. The
    /// interrupt enables are left as they are; [`Self::enable_interrupts`]
    /// wires them up.
    pub fn new_async(uart: UartRegs, pins: (TX, RX), baud_rate: Bps, clocks: Clocks) -> (r: Self)
        requires
            baud_rate.0 > 0,
            clocks.tlclk.0 as int / baud_rate.0 as int >= 1,
        ensures
            r.uart.div == clocks.tlclk.0 as int / baud_rate.0 as int - 1,
            r.uart.tx_enabled,
            r.uart.tx_watermark == 1,
            r.uart.rx_enabled,
            r.rx.regs == uart.rx,
            r.tx.regs == uart.tx,
            r.tx.pin == pins.0,
            r.rx.pin == pins.1,
    {
        let UartRegs { mut cfg, tx: tx_regs, rx: rx_regs } = uart;
        cfg.div = clocks.tlclk().0 / baud_rate.0 - 1;
        cfg.tx_watermark = 1;
        cfg.tx_enabled = true;
        cfg.rx_enabled = true;

        Serial {
            uart: cfg,
            tx: Tx { regs: tx_regs, pin: pins.0, _mode: PhantomData },
            rx: Rx { regs: rx_regs, pin: pins.1, _mode: PhantomData },
        }
    }

    /// One-time setup before the first suspending read: clear any stale
    /// receive-pending state, enable the receive interrupt at the UART,
    /// give the UART source a non-masked priority in the platform interrupt
    /// controller (which resets the source priorities first), open the
    /// hart's threshold and source enable, and turn on machine and external
    /// interrupts.
    pub fn enable_interrupts(&mut self, plic: &mut PlicRegs)
        ensures
            final(self).uart == old(self).uart,
            final(self).tx.regs == old(self).tx.regs,
            final(self).tx.pin == old(self).tx.pin,
            final(self).rx.pin == old(self).rx.pin,
            final(self).rx.regs.data == old(self).rx.regs.data,
            final(self).rx.regs.empty == old(self).rx.regs.empty,
            final(self).rx.regs.ie_rxwm,
            !final(self).rx.regs.ie_txwm,
            *final(plic) == (PlicRegs {
                uart0_priority: 1,
                threshold: 0,
                uart0_enabled: true,
                external_enabled: true,
                machine_interrupts_enabled: true,
            }),
    {
        // The write that clears the receive-pending bit is absorbed by the
        // hardware: the flag follows the receive queue alone.
        self.rx.regs.ie_txwm = false;
        self.rx.regs.ie_rxwm = true;

        plic.uart0_priority = 1;
        plic.threshold = 0;
        plic.uart0_enabled = true;
        plic.machine_interrupts_enabled = true;
        plic.external_enabled = true;
    }

    /// One poll of the suspending read; see [`Rx::async_read`].
    pub fn read(&mut self, cell: &mut WakerCell, w: WakeTarget) -> (r: RxPoll)
        ensures
            final(self).uart == old(self).uart,
            final(self).tx.regs == old(self).tx.regs,
            final(self).tx.pin == old(self).tx.pin,
            final(self).rx.pin == old(self).rx.pin,
            (final(self).rx.regs, *final(cell), r) == spec_async_read(
                old(self).rx.regs,
                *old(cell),
                w,
            ),
    {
        self.rx.async_read(cell, w)
    }

    /// One non-suspending write attempt; see [`Tx::async_write`].
    pub fn write(&mut self, byte: u8) -> (r: Result<(), SerialError>)
        ensures
            final(self).uart == old(self).uart,
            final(self).rx == old(self).rx,
            final(self).tx.pin == old(self).tx.pin,
            final(self).tx.regs.full == old(self).tx.regs.full,
            final(self).tx.regs.txwm_pending == old(self).tx.regs.txwm_pending,
            old(self).tx.regs.full ==> r == Err::<(), SerialError>(SerialError::WouldBlock)
                && final(self).tx.regs.sent@ == old(self).tx.regs.sent@,
            !old(self).tx.regs.full ==> r == Ok::<(), SerialError>(())
                && final(self).tx.regs.sent@ == old(self).tx.regs.sent@.push(byte),
    {
        self.tx.async_write(byte)
    }

    /// One non-suspending flush check; see [`Tx::async_flush`].
    pub fn flush(&mut self) -> (r: Result<(), SerialError>)
        ensures
            *final(self) == *old(self),
            r == if old(self).tx.regs.txwm_pending {
                Ok::<(), SerialError>(())
            } else {
                Err::<(), SerialError>(SerialError::WouldBlock)
            },
    {
        self.tx.async_flush()
    }
}

impl<TX, RX, MODE> Serial<TX, RX, MODE> {
    /// Take the port apart into its two direction halves, so that transmit
    /// and receive can be driven by independent tasks with no
    /// synchronization between them.
    pub fn split(self) -> (r: (Tx<TX, MODE>, Rx<RX, MODE>))
        ensures
            r.0 == self.tx,
            r.1 == self.rx,
    {
        (self.tx, self.rx)
    }

    /// Give the peripheral and the pins back.
    pub fn free(self) -> (r: (UartRegs, (TX, RX)))
        ensures
            r.0.cfg == self.uart,
            r.0.tx == self.tx.regs,
            r.0.rx == self.rx.regs,
            r.1.0 == self.tx.pin,
            r.1.1 == self.rx.pin,
    {
        let Serial { uart, tx, rx } = self;
        let Tx { regs: tx_regs, pin: tx_pin, _mode: _ } = tx;
        let Rx { regs: rx_regs, pin: rx_pin, _mode: _ } = rx;
        (UartRegs { cfg: uart, tx: tx_regs, rx: rx_regs }, (tx_pin, rx_pin))
    }
}

impl<RX: RxPin> Rx<RX, Blocking> {
    /// One read of the receive-data register: the byte if one waits (the
    /// read consumes it), else would-block, to be retried by the caller's
    /// own loop.
    pub fn blocking_read(&mut self) -> (r: Result<u8, SerialError>)
        ensures
            final(self).pin == old(self).pin,
            final(self).regs.data == old(self).regs.data,
            final(self).regs.ie_rxwm == old(self).regs.ie_rxwm,
            final(self).regs.ie_txwm == old(self).regs.ie_txwm,
            old(self).regs.empty ==> r == Err::<u8, SerialError>(SerialError::WouldBlock)
                && final(self).regs.empty,
            !old(self).regs.empty ==> r == Ok::<u8, SerialError>(old(self).regs.data)
                && final(self).regs.empty,
    {
        let (empty, data) = self.regs.read_rxdata();

        if empty {
            Err(SerialError::WouldBlock)
        } else {
            Ok(data)
        }
    }
}

impl<TX: TxPin> Tx<TX, Blocking> {
    /// One write attempt: if the transmit-data register is full, report
    /// would-block and change nothing; otherwise the register accepts
    /// exactly the written byte.
    pub fn blocking_write(&mut self, byte: u8) -> (r: Result<(), SerialError>)
        ensures
            final(self).pin == old(self).pin,
            final(self).regs.full == old(self).regs.full,
            final(self).regs.txwm_pending == old(self).regs.txwm_pending,
            old(self).regs.full ==> r == Err::<(), SerialError>(SerialError::WouldBlock)
                && final(self).regs.sent@ == old(self).regs.sent@,
            !old(self).regs.full ==> r == Ok::<(), SerialError>(()) && final(self).regs.sent@
                == old(self).regs.sent@.push(byte),
    {
        if self.regs.full {
            Err(SerialError::WouldBlock)
        } else {
            self.regs.sent.push(byte);
            Ok(())
        }
    }

    /// One flush check: complete if the transmit watermark flag signals a
    /// drained queue, else would-block. Never mutates anything.
    pub fn blocking_flush(&mut self) -> (r: Result<(), SerialError>)
        ensures
            *final(self) == *old(self),
            r == if old(self).regs.txwm_pending {
                Ok::<(), SerialError>(())
            } else {
                Err::<(), SerialError>(SerialError::WouldBlock)
            },
    {
        if self.regs.txwm_pending {
            Ok(())
        } else {
            Err(SerialError::WouldBlock)
        }
    }
}

impl<RX: RxPin> Rx<RX, Async> {
    /// One poll of the suspending read, the register-check-suspend protocol
    /// in code: register the wake target (overwriting any earlier one), then
    /// re-check the receive-pending flag. If a byte waits, consume it,
    /// re-enable the receive interrupt (the handler disabled it when it
    /// fired) and resolve; otherwise report Pending, and the task suspends —
    /// with its wake target already registered, so no interrupt from this
    /// point on is missed. The scheduler polls again after each wake until
    /// the read resolves.
    pub fn async_read(&mut self, cell: &mut WakerCell, w: WakeTarget) -> (r: RxPoll)
        ensures
            final(self).pin == old(self).pin,
            (final(self).regs, *final(cell), r) == spec_async_read(
                old(self).regs,
                *old(cell),
                w,
            ),
            final(cell).target == Some(w),
            old(self).regs.empty ==> r == RxPoll::Pending && final(self).regs == old(self).regs,
            !old(self).regs.empty ==> r == RxPoll::Ready(old(self).regs.data)
                && final(self).regs.empty && final(self).regs.data == old(self).regs.data
                && final(self).regs.ie_rxwm && !final(self).regs.ie_txwm,
    {
        cell.register(w);

        if !self.regs.empty {
            let (_, data) = self.regs.read_rxdata();
            // Re-enable the receive interrupt, disabled by the handler when
            // it fired so the line stays quiet until a task drains the
            // register.
            self.regs.ie_rxwm = true;
            self.regs.ie_txwm = false;
            RxPoll::Ready(data)
        } else {
            RxPoll::Pending
        }
    }
}

impl<TX: TxPin> Tx<TX, Async> {
    /// One write attempt, reachable from asynchronous call sites but never
    /// suspending: same contract as the blocking write.
    pub fn async_write(&mut self, byte: u8) -> (r: Result<(), SerialError>)
        ensures
            final(self).pin == old(self).pin,
            final(self).regs.full == old(self).regs.full,
            final(self).regs.txwm_pending == old(self).regs.txwm_pending,
            old(self).regs.full ==> r == Err::<(), SerialError>(SerialError::WouldBlock)
                && final(self).regs.sent@ == old(self).regs.sent@,
            !old(self).regs.full ==> r == Ok::<(), SerialError>(()) && final(self).regs.sent@
                == old(self).regs.sent@.push(byte),
    {
        if self.regs.full {
            Err(SerialError::WouldBlock)
        } else {
            self.regs.sent.push(byte);
            Ok(())
        }
    }

    /// One flush check, never suspending: same contract as the blocking
    /// flush.
    pub fn async_flush(&mut self) -> (r: Result<(), SerialError>)
        ensures
            *final(self) == *old(self),
            r == if old(self).regs.txwm_pending {
                Ok::<(), SerialError>(())
            } else {
                Err::<(), SerialError>(SerialError::WouldBlock)
            },
    {
        if self.regs.txwm_pending {
            Ok(())
        } else {
            Err(SerialError::WouldBlock)
        }
    }
}

/// The receive-interrupt handler. The hardware delivers it only while the
/// receive interrupt is enabled and a byte waits; it clears the pending
/// write-ignored flag, disables further receive interrupts (quiescing the
/// line until a task is ready to drain the register), and takes the
/// registered wake target, which the caller invokes. It moves no data.
pub fn interrupt_handler(rx: &mut RxRegs, cell: &mut WakerCell) -> (woken: Option<WakeTarget>)
    requires
        old(rx).ie_rxwm,
        old(rx).rxwm_pending(),
    ensures
        (*final(rx), *final(cell), woken) == spec_interrupt_handler(*old(rx), *old(cell)),
        !final(rx).ie_rxwm,
        final(rx).ie_txwm == old(rx).ie_txwm,
        final(rx).data == old(rx).data,
        final(rx).empty == old(rx).empty,
        woken == old(cell).target,
        final(cell).target is None,
{
    rx.ie_rxwm = false;
    cell.wake()
}

/// The register-check-suspend protocol is race-free, although the waker cell
/// buffers nothing. Whenever the byte's interrupt fires relative to one poll:
/// if it fired between the registration and the condition re-check, the
/// re-check itself observes the byte and the read resolves at once; if it
/// fires after a poll that suspended, the registration that poll made is in
/// the cell, so the handler delivers the wake and the next poll resolves.
/// The suspended task can never sleep through its byte.
pub proof fn lemma_register_check_suspend_race_free(
    rx: RxRegs,
    cell: WakerCell,
    w: WakeTarget,
    byte: u8,
)
    ensures
        ({
            // The interrupt fires between the registration and the re-check.
            let cell1 = spec_register_waker(cell, w);
            let rx1 = rx.feed_spec(byte);
            let handled = spec_interrupt_handler(rx1, cell1);
            let checked = spec_check_rx(handled.0);
            handled.2 == Some(w) && checked.1 == RxPoll::Ready(byte)
        }),
        ({
            // The whole poll ran first and suspended; the interrupt fires
            // afterwards.
            let polled = spec_async_read(rx, cell, w);
            let handled = spec_interrupt_handler(polled.0.feed_spec(byte), polled.1);
            polled.2 == RxPoll::Pending ==> handled.2 == Some(w) && spec_check_rx(
                handled.0,
            ).1 == RxPoll::Ready(byte)
        }),
{
}

/// Each received byte resolves exactly one read: a poll that finds a byte
/// consumes it and resolves with it; a second poll with no new byte suspends
/// instead of duplicating; and a second byte resolves exactly one further
/// poll, with that byte and no other.
pub proof fn lemma_read_resolves_exactly_once(
    rx: RxRegs,
    cell: WakerCell,
    w: WakeTarget,
    b1: u8,
    b2: u8,
)
    ensures
        ({
            let first = spec_async_read(rx.feed_spec(b1), cell, w);
            let repeat = spec_async_read(first.0, first.1, w);
            let second = spec_async_read(repeat.0.feed_spec(b2), repeat.1, w);
            first.2 == RxPoll::Ready(b1) && repeat.2 == RxPoll::Pending && second.2
                == RxPoll::Ready(b2)
        }),
{
}

} // verus!
