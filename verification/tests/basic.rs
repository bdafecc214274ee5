use embassy_sifive::add;

#[test]
fn it_works() {
    let result = add(2, 2);
    assert_eq!(result, 4);
}

#[test]
fn lib_it_works() {
    let result = add(2, 2);
    assert_eq!(result, 4);
}

#[test]
fn init_hands_out_reset_state() {
    let dr = embassy_sifive::init();
    assert_eq!(dr.clint.mtime, 0);
    assert_eq!(dr.clint.mtimecmp, 0);
    assert!(!dr.clint.mtimer_enabled);
    assert!(dr.uart0.rx.empty);
    assert!(!dr.uart0.tx.full);
    assert!(dr.uart0.tx.sent.is_empty());
    assert!(!dr.uart0.cfg.tx_enabled);
    assert!(!dr.uart0.cfg.rx_enabled);
    assert_eq!(dr.plic.uart0_priority, 0);
    assert!(!dr.plic.uart0_enabled);
    assert!(!dr.plic.machine_interrupts_enabled);
}
