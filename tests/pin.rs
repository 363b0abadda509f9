use arduinors::pin::{Mode, Pin, State};

#[test]
fn valid_pin() {
    let pin_10 = Pin::new(10);
    assert_eq!(pin_10.value(), 10);
}

#[test]
fn pin_bounds_accepted() {
    assert_eq!(Pin::new(2).value(), 2);
    assert_eq!(Pin::new(12).value(), 12);
}

#[test]
fn mode_and_state_values() {
    assert_eq!(Mode::Input.value(), 0);
    assert_eq!(Mode::Output.value(), 1);
    assert_eq!(State::Low.value(), 0);
    assert_eq!(State::High.value(), 1);
}
