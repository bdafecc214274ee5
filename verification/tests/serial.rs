use embassy_sifive::clock::Clocks;
use embassy_sifive::init;
use embassy_sifive::time::{Bps, Hertz};
use embassy_sifive::uart::{interrupt_handler, RxPoll, Serial, SerialError};
use embassy_sifive::waker::{WakeTarget, WakerCell};

const CLOCKS: Clocks = Clocks { tlclk: Hertz(16_000_000) };
const BAUD: Bps = Bps(115_200);

#[test]
fn new_blocking_programs_the_divisor() {
    let dr = init();
    let serial = Serial::new_blocking(dr.uart0, (dr.pin17, dr.pin16), BAUD, CLOCKS);
    // 16_000_000 / 115_200 == 138, minus one.
    assert_eq!(serial.uart.div, 137);
    assert!(serial.uart.tx_enabled);
    assert_eq!(serial.uart.tx_watermark, 1);
    assert!(serial.uart.rx_enabled);
    assert!(!serial.rx.regs.ie_rxwm);
    assert!(!serial.rx.regs.ie_txwm);
}

#[test]
fn blocking_read_returns_byte_then_would_block() {
    let dr = init();
    let mut serial = Serial::new_blocking(dr.uart0, (dr.pin17, dr.pin16), BAUD, CLOCKS);

    // A byte waits in the receive-data register (empty flag clear).
    serial.rx.regs.feed(0x41);
    assert_eq!(serial.read(), Ok(0x41));

    // The read consumed it: the next attempt would block.
    assert_eq!(serial.read(), Err(SerialError::WouldBlock));
}

#[test]
fn write_would_block_without_touching_the_register() {
    let dr = init();
    let mut serial = Serial::new_blocking(dr.uart0, (dr.pin17, dr.pin16), BAUD, CLOCKS);

    serial.tx.regs.full = true;
    assert_eq!(serial.write(0x41), Err(SerialError::WouldBlock));
    assert!(serial.tx.regs.sent.is_empty());

    serial.tx.regs.full = false;
    assert_eq!(serial.write(0x41), Ok(()));
    assert_eq!(serial.tx.regs.sent, vec![0x41]);
}

#[test]
fn flush_follows_the_watermark_flag() {
    let dr = init();
    let mut serial = Serial::new_blocking(dr.uart0, (dr.pin17, dr.pin16), BAUD, CLOCKS);

    assert_eq!(serial.flush(), Err(SerialError::WouldBlock));
    serial.tx.regs.txwm_pending = true;
    assert_eq!(serial.flush(), Ok(()));
}

#[test]
fn split_and_free_give_the_parts_back() {
    let dr = init();
    let serial = Serial::new_blocking(dr.uart0, (dr.pin17, dr.pin16), BAUD, CLOCKS);
    let (uart, _pins) = serial.free();
    assert_eq!(uart.cfg.div, 137);
    assert!(uart.rx.empty);

    let dr2 = init();
    let serial2 = Serial::new_blocking(dr2.uart0, (dr2.pin17, dr2.pin16), BAUD, CLOCKS);
    let (mut tx, mut rx) = serial2.split();
    rx.regs.feed(0x55);
    assert_eq!(rx.blocking_read(), Ok(0x55));
    assert_eq!(tx.blocking_write(0x56), Ok(()));
    assert_eq!(tx.regs.sent, vec![0x56]);
}

#[test]
fn enable_interrupts_wires_the_controller() {
    let dr = init();
    let mut plic = dr.plic;
    let mut serial = Serial::new_async(dr.uart0, (dr.pin17, dr.pin16), BAUD, CLOCKS);
    serial.enable_interrupts(&mut plic);

    assert!(serial.rx.regs.ie_rxwm);
    assert!(!serial.rx.regs.ie_txwm);
    assert_eq!(plic.uart0_priority, 1);
    assert_eq!(plic.threshold, 0);
    assert!(plic.uart0_enabled);
    assert!(plic.external_enabled);
    assert!(plic.machine_interrupts_enabled);
}

#[test]
fn interrupt_between_registration_and_recheck_still_resolves() {
    let dr = init();
    let mut plic = dr.plic;
    let mut serial = Serial::new_async(dr.uart0, (dr.pin17, dr.pin16), BAUD, CLOCKS);
    serial.enable_interrupts(&mut plic);
    let (_tx, mut rx) = serial.split();

    let mut cell = WakerCell::new();
    let task = WakeTarget { id: 1 };

    // Receive-data register empty: the poll registers the wake target and
    // suspends.
    assert_eq!(rx.async_read(&mut cell, task), RxPoll::Pending);
    assert_eq!(cell.target, Some(task));

    // The byte arrives and its interrupt fires right after the registration.
    // The handler finds the registration and delivers the wake: nothing is
    // lost although the cell buffers no events.
    rx.regs.feed(0x41);
    let woken = interrupt_handler(&mut rx.regs, &mut cell);
    assert_eq!(woken, Some(task));
    assert!(!rx.regs.ie_rxwm);

    // The woken task polls again and the read resolves with the byte.
    assert_eq!(rx.async_read(&mut cell, task), RxPoll::Ready(0x41));
    // The poll re-enabled the receive interrupt for the next byte.
    assert!(rx.regs.ie_rxwm);
}

#[test]
fn async_read_resolves_exactly_once_per_byte() {
    let dr = init();
    let mut plic = dr.plic;
    let mut serial = Serial::new_async(dr.uart0, (dr.pin17, dr.pin16), BAUD, CLOCKS);
    serial.enable_interrupts(&mut plic);
    let (_tx, mut rx) = serial.split();

    let mut cell = WakerCell::new();
    let task = WakeTarget { id: 1 };

    rx.regs.feed(0x41);
    assert_eq!(rx.async_read(&mut cell, task), RxPoll::Ready(0x41));

    // No new byte: the byte is not delivered twice.
    assert_eq!(rx.async_read(&mut cell, task), RxPoll::Pending);

    // The second byte resolves exactly one further read, with that byte.
    rx.regs.feed(0x42);
    assert_eq!(rx.async_read(&mut cell, task), RxPoll::Ready(0x42));
    assert_eq!(rx.async_read(&mut cell, task), RxPoll::Pending);
}

#[test]
fn async_write_reports_would_block_when_full() {
    let dr = init();
    let mut serial = Serial::new_async(dr.uart0, (dr.pin17, dr.pin16), BAUD, CLOCKS);

    serial.tx.regs.full = true;
    assert_eq!(serial.write(0x41), Err(SerialError::WouldBlock));
    assert!(serial.tx.regs.sent.is_empty());
    assert_eq!(serial.flush(), Err(SerialError::WouldBlock));

    serial.tx.regs.full = false;
    assert_eq!(serial.write(0x41), Ok(()));
    assert_eq!(serial.tx.regs.sent, vec![0x41]);
    serial.tx.regs.txwm_pending = true;
    assert_eq!(serial.flush(), Ok(()));
}
