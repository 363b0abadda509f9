//! Type-safe modelling of an Arduino's digital pins and of their mode and level.

use vstd::prelude::*;

verus! {

/// The lowest digital pin number that a pin may carry.
pub const MIN_PIN: i32 = 2;

/// The highest digital pin number that a pin may carry.
pub const MAX_PIN: i32 = 12;

/// A digital pin on an Arduino, numbered from 2 to 12.
#[derive(Clone, Copy)]
pub struct Pin(i32);

impl Pin {
    /// A pin's number always lies in the range that `new` accepts.
    #[verifier::type_invariant]
    spec fn in_range(&self) -> bool {
        MIN_PIN <= self.0 <= MAX_PIN
    }

    /// The pin's number.
    pub closed spec fn spec_value(&self) -> i32 {
        self.0
    }

    /// Creates a pin from its number. Valid numbers are 2, 3, ... 11, 12.
    pub fn new(value: i32) -> (pin: Pin)
        requires
            MIN_PIN <= value <= MAX_PIN,
        ensures
            pin.spec_value() == value,
    {
        Pin(value)
    }

    /// The pin's number.
    pub fn value(&self) -> (v: i32)
        ensures
            v == self.spec_value(),
            MIN_PIN <= v <= MAX_PIN,
    {
        proof {
            use_type_invariant(self);
        }
        self.0
    }
}

/// The mode of a digital pin on an Arduino.
#[derive(Clone, Copy, PartialEq, Eq, Debug, Structural)]
pub enum Mode {
    Input,
    Output,
}

impl Mode {
    /// The raw value of the mode on the wire.
    pub fn value(&self) -> (v: u8)
        ensures
            v == (match self {
                Mode::Input => 0u8,
                Mode::Output => 1u8,
            }),
    {
        match self {
            Mode::Input => 0,
            Mode::Output => 1,
        }
    }
}

/// The state of a digital pin on an Arduino.
#[derive(Clone, Copy, PartialEq, Eq, Debug, Structural)]
pub enum State {
    Low,
    High,
}

impl State {
    /// The raw value of the state on the wire.
    pub fn value(&self) -> (v: i32)
        ensures
            v == (match self {
                State::Low => 0i32,
                State::High => 1i32,
            }),
    {
        match self {
            State::Low => 0,
            State::High => 1,
        }
    }
}

/// A PWM level of a digital pin on an Arduino.
pub type Level = u8;

} // verus!
