use embassy_sifive::hw::ClintRegs;
use embassy_sifive::time_driver::{
    custom_machine_timer_handler, TimerDriver, ALARM_COUNT, DISARMED, FREQUENCY_HZ,
};
use embassy_sifive::waker::WakeTarget;

#[test]
fn allocation_succeeds_at_most_capacity_times() {
    let mut driver = TimerDriver::new();

    let mut handles = Vec::new();
    for _ in 0..ALARM_COUNT {
        let handle = driver.allocate_alarm();
        assert!(handle.is_some());
        handles.push(handle.unwrap());
    }

    // The (N+1)-th and every later call return none.
    assert!(driver.allocate_alarm().is_none());
    assert!(driver.allocate_alarm().is_none());
    assert!(driver.allocate_alarm().is_none());

    // Previously issued handles remain usable.
    let mut clint = ClintRegs::new();
    driver.set_alarm_callback(handles[0], WakeTarget { id: 3 });
    assert!(driver.set_alarm(&mut clint, handles[0], 10));
}

#[test]
fn now_is_monotonic_across_interrupts() {
    let mut driver = TimerDriver::new();
    let mut clint = ClintRegs::new();

    let t1 = driver.now(&clint);
    clint.advance(5);
    let t2 = driver.now(&clint);
    assert!(t1 <= t2);

    // Arm an alarm, reach it, and run the interrupt handler between two
    // observations: time still never moves backwards.
    let handle = driver.allocate_alarm().unwrap();
    driver.set_alarm_callback(handle, WakeTarget { id: 3 });
    assert!(driver.set_alarm(&mut clint, handle, 8));
    clint.advance(10);
    let t3 = driver.now(&clint);
    assert!(t2 <= t3);
    custom_machine_timer_handler(&mut clint);
    let t4 = driver.now(&clint);
    assert!(t3 <= t4);
}

#[test]
fn set_alarm_in_the_past_reports_immediate_expiry() {
    let mut driver = TimerDriver::new();
    let mut clint = ClintRegs::new();
    clint.advance(100);

    let handle = driver.allocate_alarm().unwrap();
    driver.set_alarm_callback(handle, WakeTarget { id: 3 });

    // A timestamp at or before now() never arms the comparator.
    assert!(!driver.set_alarm(&mut clint, handle, 50));
    assert!(!clint.mtimer_enabled);
    assert_eq!(driver.alarms[0].timestamp, DISARMED);

    // The boundary case `timestamp == now()` also expires immediately.
    assert!(!driver.set_alarm(&mut clint, handle, 100));
    assert!(!clint.mtimer_enabled);
}

#[test]
fn set_alarm_in_the_future_arms_the_comparator() {
    let mut driver = TimerDriver::new();
    let mut clint = ClintRegs::new();
    clint.advance(100);

    let handle = driver.allocate_alarm().unwrap();
    driver.set_alarm_callback(handle, WakeTarget { id: 3 });

    assert!(driver.set_alarm(&mut clint, handle, 250));
    assert!(clint.mtimer_enabled);
    assert_eq!(clint.mtimecmp, 250);
    assert_eq!(driver.alarms[0].timestamp, 250);

    // Before tick 250 the hardware asserts no timer interrupt, so the
    // handler's reload cannot occur yet.
    clint.advance(149);
    assert!(!(clint.mtimer_enabled && clint.mtime >= clint.mtimecmp));

    // At tick 250 it fires; the handler reloads by the fixed period.
    clint.advance(1);
    assert!(clint.mtimer_enabled && clint.mtime >= clint.mtimecmp);
    custom_machine_timer_handler(&mut clint);
    assert_eq!(clint.mtimecmp, 250 + FREQUENCY_HZ);
    assert!(clint.mtimer_enabled);
    assert_eq!(clint.mtime, 250);
}
