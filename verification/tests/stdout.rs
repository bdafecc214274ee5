use embassy_sifive::clock::Clocks;
use embassy_sifive::init;
use embassy_sifive::stdout::configure;
use embassy_sifive::time::{Bps, Hertz};
use embassy_sifive::uart::SerialError;

const CLOCKS: Clocks = Clocks { tlclk: Hertz(16_000_000) };
const BAUD: Bps = Bps(115_200);

#[test]
fn write_str_translates_line_endings() {
    let dr = init();
    let (mut stdout, _rx) = configure(dr.uart0, dr.pin17, dr.pin16, BAUD, CLOCKS);

    assert_eq!(stdout.write_str("hi\n"), Ok(()));
    assert_eq!(stdout.0.regs.sent, b"hi\r\n".to_vec());

    assert_eq!(stdout.write_str("\na"), Ok(()));
    assert_eq!(stdout.0.regs.sent, b"hi\r\n\r\na".to_vec());
}

#[test]
fn write_str_reports_a_full_register() {
    let dr = init();
    let (mut stdout, _rx) = configure(dr.uart0, dr.pin17, dr.pin16, BAUD, CLOCKS);

    stdout.0.regs.full = true;
    assert_eq!(stdout.write_str("x"), Err(SerialError::WouldBlock));
    assert!(stdout.0.regs.sent.is_empty());

    // The empty string completes even against a full register: there is
    // nothing to emit.
    assert_eq!(stdout.write_str(""), Ok(()));
}

#[test]
fn configure_returns_the_receive_half() {
    let dr = init();
    let (_stdout, mut rx) = configure(dr.uart0, dr.pin17, dr.pin16, BAUD, CLOCKS);
    rx.regs.feed(0x7a);
    assert_eq!(rx.blocking_read(), Ok(0x7a));
    assert_eq!(rx.blocking_read(), Err(SerialError::WouldBlock));
}
