use embassy_sifive::waker::{WakeTarget, WakerCell};

#[test]
fn registration_overwrites_the_previous_occupant() {
    let mut cell = WakerCell::new();
    assert_eq!(cell.target, None);

    cell.register(WakeTarget { id: 1 });
    cell.register(WakeTarget { id: 2 });
    assert_eq!(cell.target, Some(WakeTarget { id: 2 }));
}

#[test]
fn wake_takes_the_target_and_is_a_noop_when_empty() {
    let mut cell = WakerCell::new();
    assert_eq!(cell.wake(), None);

    cell.register(WakeTarget { id: 5 });
    assert_eq!(cell.wake(), Some(WakeTarget { id: 5 }));
    // The event was consumed; nothing is buffered.
    assert_eq!(cell.wake(), None);
}
