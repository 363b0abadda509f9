use arduinors::{Arduino, Command, DigitalPin, Error, ModeCapability, PinDescriptor, PinMode};
use arduinors::{check_pins, descriptor_is_consistent, digital_pins_for_board, value_in_bounds};

fn capability(mode: u8, resolution: u8) -> ModeCapability {
    ModeCapability { mode, resolution }
}

fn descriptor(analog: bool, mode: u8, modes: Vec<ModeCapability>) -> PinDescriptor {
    PinDescriptor { analog, mode, modes }
}

/// Two serial pins without modes, an output pin, a PWM pin in PWM mode, an analog pin and a pin
/// in input mode that can also be an output.
fn some_pins() -> Vec<PinDescriptor> {
    vec![
        descriptor(false, 0, vec![]),
        descriptor(false, 0, vec![]),
        descriptor(false, 1, vec![capability(0, 1), capability(1, 1)]),
        descriptor(false, 3, vec![capability(0, 1), capability(1, 1), capability(3, 8)]),
        descriptor(true, 2, vec![capability(2, 10)]),
        descriptor(false, 0, vec![capability(0, 1), capability(1, 1), capability(11, 1)]),
    ]
}

#[test]
fn valid_pin_value() {
    let pin = DigitalPin { mode: PinMode::Pwm, bit_resolution: 10, valid_modes: vec![] };

    assert_eq!(pin.valid_values(), 0..1024);
}

#[test]
fn invalid_pin_value() {
    let pin = DigitalPin { mode: PinMode::Serial, bit_resolution: 1, valid_modes: vec![] };

    assert!(!pin.valid_values().contains(&2));
}

#[test]
fn zero_resolution_allows_only_zero() {
    let pin = DigitalPin { mode: PinMode::DigitalInput, bit_resolution: 0, valid_modes: vec![] };

    assert_eq!(pin.valid_values(), 0..1);
}

#[test]
fn pin_mode_codes() {
    assert_eq!(PinMode::from(0), PinMode::DigitalInput);
    assert_eq!(PinMode::from(3), PinMode::Pwm);
    assert_eq!(PinMode::from(11), PinMode::InputPullup);
    assert_eq!(PinMode::from_code(12), None);
    assert_eq!(PinMode::from_code(10), Some(PinMode::Serial));
    assert_eq!(PinMode::Encoder.code(), 9);
}

#[test]
fn snapshot_of_a_pin() {
    let pin = DigitalPin::from_digital(&descriptor(
        false,
        3,
        vec![capability(0, 1), capability(3, 8), capability(4, 14)],
    ));

    assert_eq!(pin.mode(), PinMode::Pwm);
    assert_eq!(pin.bit_resolution, 8);
    assert_eq!(pin.valid_modes, vec![PinMode::DigitalInput, PinMode::Pwm, PinMode::Servo]);
}

#[test]
fn snapshot_of_a_pin_without_modes() {
    let pin = DigitalPin::from_digital(&descriptor(false, 0, vec![]));

    assert_eq!(pin.mode(), PinMode::DigitalInput);
    assert_eq!(pin.bit_resolution, 0);
    assert!(pin.valid_modes.is_empty());
}

#[test]
fn consistency_of_descriptors() {
    assert!(descriptor_is_consistent(&descriptor(false, 1, vec![capability(1, 1)])));
    assert!(descriptor_is_consistent(&descriptor(false, 5, vec![])));
    // the active mode listed twice
    assert!(!descriptor_is_consistent(&descriptor(false, 1, vec![capability(1, 1), capability(1, 2)])));
    // the active mode not listed
    assert!(!descriptor_is_consistent(&descriptor(false, 1, vec![capability(0, 1)])));
    // a raw value that denotes no mode
    assert!(!descriptor_is_consistent(&descriptor(false, 12, vec![])));
    assert!(!descriptor_is_consistent(&descriptor(false, 0, vec![capability(0, 1), capability(12, 1)])));
    assert!(check_pins(&some_pins()));
    // an inconsistent analog pin is not looked at
    assert!(check_pins(&vec![descriptor(true, 1, vec![capability(0, 1)])]));
    assert!(!check_pins(&vec![descriptor(false, 1, vec![capability(0, 1)])]));
}

#[test]
fn analog_pins_are_left_out() {
    let pins = digital_pins_for_board(&some_pins());

    assert_eq!(pins.len(), 5);
    assert_eq!(pins[3].mode(), PinMode::Pwm);
    assert_eq!(pins[4].mode(), PinMode::DigitalInput);
    assert_eq!(pins[4].valid_modes, vec![PinMode::DigitalInput, PinMode::DigitalOutput, PinMode::InputPullup]);
}

#[test]
fn bounds_of_values() {
    assert!(value_in_bounds(0, 0));
    assert!(!value_in_bounds(1, 0));
    assert!(value_in_bounds(255, 8));
    assert!(!value_in_bounds(256, 8));
    assert!(!value_in_bounds(-1, 8));
    assert!(value_in_bounds(i32::MAX, 31));
    assert!(value_in_bounds(i32::MAX, 200));
    assert!(!value_in_bounds(-5, 200));
}

#[test]
fn write_outside_the_pins() {
    let arduino = Arduino::from(&some_pins());

    assert_eq!(arduino.write(5, 0), Err(Error::InvalidPinIndex));
    assert_eq!(arduino.write(-1, 0), Err(Error::InvalidPinIndex));
    assert_eq!(arduino.set_pin_mode(5, PinMode::DigitalInput), Err(Error::InvalidPinIndex));
    assert_eq!(arduino.set_pin_mode(-1, PinMode::DigitalInput), Err(Error::InvalidPinIndex));
}

#[test]
fn write_checks_the_bounds() {
    let arduino = Arduino::from(&some_pins());

    assert_eq!(arduino.write(3, 255), Ok(Command::AnalogWrite { pin: 3, value: 255 }));
    assert_eq!(arduino.write(3, 256), Err(Error::ValueOutOfBounds));
    assert_eq!(arduino.write(3, -1), Err(Error::ValueOutOfBounds));
    assert_eq!(arduino.write(2, 1), Ok(Command::DigitalWrite { pin: 2, value: 1 }));
    assert_eq!(arduino.write(2, 2), Err(Error::ValueOutOfBounds));
}

#[test]
fn write_in_a_mode_without_writes() {
    let arduino = Arduino::from(&some_pins());

    assert_eq!(arduino.write(4, 1), Err(Error::Unimplemented));
    // the bounds are checked before the mode
    assert_eq!(arduino.write(4, 2), Err(Error::ValueOutOfBounds));
    assert_eq!(arduino.write(0, 0), Err(Error::Unimplemented));
}

#[test]
fn set_pin_mode_checks_the_modes() {
    let arduino = Arduino::from(&some_pins());

    assert_eq!(arduino.set_pin_mode(4, PinMode::DigitalOutput), Ok(Command::SetPinMode { pin: 4, mode: 1 }));
    assert_eq!(arduino.set_pin_mode(4, PinMode::InputPullup), Ok(Command::SetPinMode { pin: 4, mode: 11 }));
    assert_eq!(arduino.set_pin_mode(4, PinMode::Pwm), Err(Error::InvalidMode));
    assert_eq!(arduino.set_pin_mode(0, PinMode::DigitalInput), Err(Error::InvalidMode));
}

#[test]
fn rejected_mode_is_rejected_again() {
    let arduino = Arduino::from(&some_pins());
    let before: Vec<PinMode> = arduino.digital_pins().iter().map(|p| p.mode()).collect();

    assert_eq!(arduino.set_pin_mode(2, PinMode::Servo), Err(Error::InvalidMode));
    assert_eq!(arduino.set_pin_mode(2, PinMode::Servo), Err(Error::InvalidMode));

    let after: Vec<PinMode> = arduino.digital_pins().iter().map(|p| p.mode()).collect();
    assert_eq!(before, after);
}

#[test]
fn refresh_takes_a_new_snapshot() {
    let mut arduino = Arduino::from(&some_pins());
    assert_eq!(arduino.write(4, 1), Err(Error::Unimplemented));

    let mut pins = some_pins();
    pins[5].mode = 1;
    arduino.refresh(&pins);

    assert_eq!(arduino.digital_pins()[4].mode(), PinMode::DigitalOutput);
    assert_eq!(arduino.write(4, 1), Ok(Command::DigitalWrite { pin: 4, value: 1 }));

    arduino.refresh(&pins);
    assert_eq!(arduino.digital_pins()[4].mode(), PinMode::DigitalOutput);
    assert_eq!(arduino.digital_pins().len(), 5);
}
