//! The decisions of a handle on an Arduino: which transport command a request becomes, checked
//! against the board's current pin capabilities, and the refresh of those capabilities from what
//! the transport reports after each command.

use vstd::prelude::*;
use super::{DigitalPin, PinDescriptor, PinMode, PinSnapshot};
use vstd::arithmetic::power2::pow2;
use super::{code_of, digital_pins_for_board, digital_snapshots, in_bounds, pins_consistent};
use super::{value_in_bounds, views_of};

verus! {

/// The ways in which a request to a board's pin can be refused.
#[derive(Clone, Copy, Debug, PartialEq, Eq, Structural)]
pub enum Error {
    InvalidPinIndex,
    ValueOutOfBounds,
    InvalidMode,
    Unimplemented,
}

/// A transport primitive that an accepted request becomes.
#[derive(Clone, Copy, Debug, PartialEq, Eq, Structural)]
pub enum Command {
    DigitalWrite { pin: i32, value: i32 },
    AnalogWrite { pin: i32, value: i32 },
    SetPinMode { pin: i32, mode: u8 },
}

/// What writing `value` to the pin at `pin_index` of a board with the snapshots `pins` becomes.
pub open spec fn write_outcome(pins: Seq<PinSnapshot>, pin_index: i32, value: i32) -> Result<
    Command,
    Error,
> {
    if !(0 <= pin_index < pins.len()) {
        Err(Error::InvalidPinIndex)
    } else if !in_bounds(value as int, pins[pin_index as int].bit_resolution) {
        Err(Error::ValueOutOfBounds)
    } else {
        match pins[pin_index as int].mode {
            PinMode::DigitalOutput => Ok(Command::DigitalWrite { pin: pin_index, value }),
            PinMode::Pwm => Ok(Command::AnalogWrite { pin: pin_index, value }),
            _ => Err(Error::Unimplemented),
        }
    }
}

/// What setting the pin at `pin_index` of a board with the snapshots `pins` to `mode` becomes.
pub open spec fn set_mode_outcome(pins: Seq<PinSnapshot>, pin_index: i32, mode: PinMode) -> Result<
    Command,
    Error,
> {
    if !(0 <= pin_index < pins.len()) {
        Err(Error::InvalidPinIndex)
    } else if !pins[pin_index as int].valid_modes.contains(mode) {
        Err(Error::InvalidMode)
    } else {
        Ok(Command::SetPinMode { pin: pin_index, mode: code_of(mode) })
    }
}

/// A handle on an Arduino's digital pins: the snapshot of each non-analog pin, indexed by its
/// position among them in the transport's order.
///
/// A request is checked against the snapshot and becomes a `Command` for the transport; after
/// the transport has carried it out, `refresh` rebuilds the whole snapshot from what the
/// transport then reports.
pub struct Arduino {
    digital_pins: Vec<DigitalPin>,
}

impl View for Arduino {
    type V = Seq<PinSnapshot>;

    closed spec fn view(&self) -> Seq<PinSnapshot> {
        views_of(self.digital_pins@)
    }
}

impl Arduino {
    /// Creates a handle from the pins that the transport reports.
    pub fn from(pins: &Vec<PinDescriptor>) -> (arduino: Arduino)
        requires
            pins_consistent(pins@),
        ensures
            arduino@ == digital_snapshots(pins@),
    {
        Arduino { digital_pins: digital_pins_for_board(pins) }
    }

    /// The digital pins of this Arduino, as they were at the last refresh.
    pub fn digital_pins(&self) -> (pins: &Vec<DigitalPin>)
        ensures
            views_of(pins@) == self@,
    {
        &self.digital_pins
    }

    /// Rebuilds every pin's snapshot from the pins that the transport now reports.
    pub fn refresh(&mut self, pins: &Vec<PinDescriptor>)
        requires
            pins_consistent(pins@),
        ensures
            final(self)@ == digital_snapshots(pins@),
    {
        self.digital_pins = digital_pins_for_board(pins);
    }

    /// The command that writes `value` to the pin at `pin_index`: a digital write for a pin in
    /// digital-output mode, an analog write for a pin in PWM mode.
    pub fn write(&self, pin_index: i32, value: i32) -> (r: Result<Command, Error>)
        ensures
            r == write_outcome(self@, pin_index, value),
    {
        if pin_index < 0 || pin_index as usize >= self.digital_pins.len() {
            return Err(Error::InvalidPinIndex);
        }
        let pin = &self.digital_pins[pin_index as usize];
        if !value_in_bounds(value, pin.bit_resolution) {
            return Err(Error::ValueOutOfBounds);
        }
        match pin.mode() {
            PinMode::DigitalOutput => Ok(Command::DigitalWrite { pin: pin_index, value }),
            PinMode::Pwm => Ok(Command::AnalogWrite { pin: pin_index, value }),
            _ => Err(Error::Unimplemented),
        }
    }

    /// The command that sets the pin at `pin_index` to `mode`.
    pub fn set_pin_mode(&self, pin_index: i32, mode: PinMode) -> (r: Result<Command, Error>)
        ensures
            r == set_mode_outcome(self@, pin_index, mode),
    {
        if pin_index < 0 || pin_index as usize >= self.digital_pins.len() {
            return Err(Error::InvalidPinIndex);
        }
        let pin = &self.digital_pins[pin_index as usize];
        if !pin.supports(mode) {
            return Err(Error::InvalidMode);
        }
        Ok(Command::SetPinMode { pin: pin_index, mode: mode.code() })
    }
}

/// A pin index outside the snapshot is refused with `InvalidPinIndex`, by a write and by a mode
/// change alike.
pub proof fn lemma_index_out_of_range_is_rejected(
    pins: Seq<PinSnapshot>,
    pin_index: i32,
    value: i32,
    mode: PinMode,
)
    requires
        !(0 <= pin_index < pins.len()),
    ensures
        write_outcome(pins, pin_index, value) == Err::<Command, Error>(Error::InvalidPinIndex),
        set_mode_outcome(pins, pin_index, mode) == Err::<Command, Error>(Error::InvalidPinIndex),
{
}

/// A write to a pin is accepted only for a value in `[0, 2^r)`, where `r` is the bit resolution
/// of the pin's active mode; the value `2^r` itself is refused with `ValueOutOfBounds`.
pub proof fn lemma_write_respects_bounds(pins: Seq<PinSnapshot>, pin_index: i32, value: i32)
    requires
        0 <= pin_index < pins.len(),
    ensures
        write_outcome(pins, pin_index, value) is Ok ==> 0 <= value < pow2(
            pins[pin_index as int].bit_resolution as nat,
        ),
        value == pow2(pins[pin_index as int].bit_resolution as nat) ==> write_outcome(
            pins,
            pin_index,
            value,
        ) == Err::<Command, Error>(Error::ValueOutOfBounds),
{
}

/// A mode change of a pin is accepted exactly when the pin supports the mode. Any other mode is
/// refused with `InvalidMode`, and a refusal carries no command for the transport.
pub proof fn lemma_set_mode_succeeds_iff_supported(
    pins: Seq<PinSnapshot>,
    pin_index: i32,
    mode: PinMode,
)
    requires
        0 <= pin_index < pins.len(),
    ensures
        set_mode_outcome(pins, pin_index, mode) is Ok <==> pins[pin_index as int].valid_modes.contains(
            mode,
        ),
        !pins[pin_index as int].valid_modes.contains(mode) ==> set_mode_outcome(
            pins,
            pin_index,
            mode,
        ) == Err::<Command, Error>(Error::InvalidMode),
{
}

} // verus!
