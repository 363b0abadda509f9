//! The capability snapshot of an Arduino's digital pins: each pin's current mode, the bit
//! resolution of that mode and the modes the pin may be set to.

use vstd::prelude::*;
use vstd::arithmetic::power2::{pow2, lemma2_to64, lemma2_to64_rest};
use vstd::arithmetic::power2::{lemma_pow2_strictly_increases, lemma_pow2_unfold};

mod board;
pub use board::{Arduino, Command, Error, write_outcome, set_mode_outcome};
pub use board::{lemma_index_out_of_range_is_rejected, lemma_write_respects_bounds};
pub use board::lemma_set_mode_succeeds_iff_supported;

verus! {

/// The largest raw value that denotes a pin mode.
pub const MAX_MODE_CODE: u8 = 11;

/// The mode of a pin on an Arduino, in the order of the raw values 0 to 11 that the transport
/// uses for them.
#[derive(Clone, Copy, PartialEq, Eq, Debug, Structural)]
pub enum PinMode {
    DigitalInput,
    DigitalOutput,
    AnalogInput,
    Pwm,
    Servo,
    Shift,
    I2c,
    OneWire,
    Stepper,
    Encoder,
    Serial,
    InputPullup,
}

/// The raw value of a pin mode.
pub open spec fn code_of(mode: PinMode) -> u8 {
    match mode {
        PinMode::DigitalInput => 0,
        PinMode::DigitalOutput => 1,
        PinMode::AnalogInput => 2,
        PinMode::Pwm => 3,
        PinMode::Servo => 4,
        PinMode::Shift => 5,
        PinMode::I2c => 6,
        PinMode::OneWire => 7,
        PinMode::Stepper => 8,
        PinMode::Encoder => 9,
        PinMode::Serial => 10,
        PinMode::InputPullup => 11,
    }
}

/// The pin mode with a given raw value (meaningful for values up to `MAX_MODE_CODE`).
pub open spec fn mode_of_code(code: u8) -> PinMode {
    if code == 0 {
        PinMode::DigitalInput
    } else if code == 1 {
        PinMode::DigitalOutput
    } else if code == 2 {
        PinMode::AnalogInput
    } else if code == 3 {
        PinMode::Pwm
    } else if code == 4 {
        PinMode::Servo
    } else if code == 5 {
        PinMode::Shift
    } else if code == 6 {
        PinMode::I2c
    } else if code == 7 {
        PinMode::OneWire
    } else if code == 8 {
        PinMode::Stepper
    } else if code == 9 {
        PinMode::Encoder
    } else if code == 10 {
        PinMode::Serial
    } else {
        PinMode::InputPullup
    }
}

impl PinMode {
    /// Constructs a pin mode from its raw value.
    pub fn from(value: u8) -> (mode: PinMode)
        requires
            value <= MAX_MODE_CODE,
        ensures
            mode == mode_of_code(value),
            code_of(mode) == value,
    {
        match value {
            0 => PinMode::DigitalInput,
            1 => PinMode::DigitalOutput,
            2 => PinMode::AnalogInput,
            3 => PinMode::Pwm,
            4 => PinMode::Servo,
            5 => PinMode::Shift,
            6 => PinMode::I2c,
            7 => PinMode::OneWire,
            8 => PinMode::Stepper,
            9 => PinMode::Encoder,
            10 => PinMode::Serial,
            _ => PinMode::InputPullup,
        }
    }

    /// Constructs a pin mode from its raw value, or `None` for a value that denotes no mode.
    pub fn from_code(value: u8) -> (mode: Option<PinMode>)
        ensures
            mode == (if value <= MAX_MODE_CODE {
                Some(mode_of_code(value))
            } else {
                None
            }),
    {
        if value <= MAX_MODE_CODE {
            Some(PinMode::from(value))
        } else {
            None
        }
    }

    /// The raw value of the mode.
    pub fn code(&self) -> (value: u8)
        ensures
            value == code_of(*self),
            mode_of_code(value) == *self,
    {
        match self {
            PinMode::DigitalInput => 0,
            PinMode::DigitalOutput => 1,
            PinMode::AnalogInput => 2,
            PinMode::Pwm => 3,
            PinMode::Servo => 4,
            PinMode::Shift => 5,
            PinMode::I2c => 6,
            PinMode::OneWire => 7,
            PinMode::Stepper => 8,
            PinMode::Encoder => 9,
            PinMode::Serial => 10,
            PinMode::InputPullup => 11,
        }
    }
}

/// A mode that the transport reports a pin to support, with the bit resolution of its values.
#[derive(Clone, Copy, PartialEq, Eq, Debug, Structural)]
pub struct ModeCapability {
    pub mode: u8,
    pub resolution: u8,
}

/// A pin as the transport reports it: whether it is analog, the raw value of its active mode,
/// and the modes it supports, in the transport's order.
#[derive(Clone, Debug)]
pub struct PinDescriptor {
    pub analog: bool,
    pub mode: u8,
    pub modes: Vec<ModeCapability>,
}

/// The number of supported modes of `modes` whose raw value is `code`.
pub open spec fn count_mode(modes: Seq<ModeCapability>, code: u8) -> nat
    decreases modes.len(),
{
    if modes.len() == 0 {
        0
    } else {
        count_mode(modes.drop_last(), code) + if modes.last().mode == code {
            1nat
        } else {
            0nat
        }
    }
}

/// A pin descriptor from which a snapshot can be taken: every raw mode value denotes a mode,
/// and a pin that supports any mode lists its active mode exactly once.
pub open spec fn descriptor_consistent(pin: PinDescriptor) -> bool {
    &&& pin.mode <= MAX_MODE_CODE
    &&& forall|i: int| 0 <= i < pin.modes@.len() ==> #[trigger] pin.modes@[i].mode <= MAX_MODE_CODE
    &&& pin.modes@.len() > 0 ==> count_mode(pin.modes@, pin.mode) == 1
}

/// The resolution paired with the last entry of `modes` whose raw value is `code`, or 0 where
/// there is none.
pub open spec fn resolution_for(modes: Seq<ModeCapability>, code: u8) -> u8
    decreases modes.len(),
{
    if modes.len() == 0 {
        0
    } else if modes.last().mode == code {
        modes.last().resolution
    } else {
        resolution_for(modes.drop_last(), code)
    }
}

/// The modes that `modes` lists, in its order.
pub open spec fn modes_of(modes: Seq<ModeCapability>) -> Seq<PinMode> {
    modes.map_values(|c: ModeCapability| mode_of_code(c.mode))
}

/// The mathematical value of a digital pin's snapshot.
pub struct PinSnapshot {
    pub mode: PinMode,
    pub bit_resolution: u8,
    pub valid_modes: Seq<PinMode>,
}

/// The snapshot of a pin that the transport reports.
pub open spec fn snapshot_of(pin: PinDescriptor) -> PinSnapshot {
    PinSnapshot {
        mode: mode_of_code(pin.mode),
        bit_resolution: resolution_for(pin.modes@, pin.mode),
        valid_modes: modes_of(pin.modes@),
    }
}

/// Whether `value` can be written to a pin whose active mode has the given bit resolution.
pub open spec fn in_bounds(value: int, bit_resolution: u8) -> bool {
    0 <= value < pow2(bit_resolution as nat)
}

/// A digital pin on an Arduino, as it was when the snapshot was taken.
#[derive(Clone, Debug)]
pub struct DigitalPin {
    pub mode: PinMode,
    pub bit_resolution: u8,
    pub valid_modes: Vec<PinMode>,
}

impl View for DigitalPin {
    type V = PinSnapshot;

    open spec fn view(&self) -> PinSnapshot {
        PinSnapshot {
            mode: self.mode,
            bit_resolution: self.bit_resolution,
            valid_modes: self.valid_modes@,
        }
    }
}

/// Computes `pow2(n)` for an exponent small enough to fit.
fn pow2_u64(n: u8) -> (r: u64)
    requires
        n < 64,
    ensures
        r == pow2(n as nat),
{
    let mut r: u64 = 1;
    let mut k: u8 = 0;
    proof {
        lemma2_to64();
    }
    while k < n
        invariant
            k <= n < 64,
            r == pow2(k as nat),
        decreases n - k,
    {
        proof {
            lemma_pow2_unfold((k + 1) as nat);
            if k + 1 < 63 {
                lemma_pow2_strictly_increases((k + 1) as nat, 63);
            }
            lemma2_to64_rest();
        }
        r = r * 2;
        k = k + 1;
    }
    r
}

/// Whether `value` lies in `[0, 2^bit_resolution)`, for any resolution.
pub fn value_in_bounds(value: i32, bit_resolution: u8) -> (r: bool)
    ensures
        r == in_bounds(value as int, bit_resolution),
{
    if value < 0 {
        false
    } else if bit_resolution >= 31 {
        proof {
            if bit_resolution > 31 {
                lemma_pow2_strictly_increases(31, bit_resolution as nat);
            }
            lemma2_to64();
        }
        true
    } else {
        let bound = pow2_u64(bit_resolution);
        (value as u64) < bound
    }
}

impl DigitalPin {
    /// The mode of the pin on the board, at the time that the snapshot was taken.
    pub fn mode(&self) -> (mode: PinMode)
        ensures
            mode == self.mode,
    {
        self.mode
    }

    /// The range of values which are valid for the pin in its current mode.
    pub fn valid_values(&self) -> (r: std::ops::Range<i32>)
        requires
            self.bit_resolution <= 30,
        ensures
            r.start == 0,
            r.end == pow2(self.bit_resolution as nat),
    {
        proof {
            if self.bit_resolution < 30 {
                lemma_pow2_strictly_increases(self.bit_resolution as nat, 30);
            }
            lemma2_to64();
        }
        let end = pow2_u64(self.bit_resolution) as i32;
        0..end
    }

    /// Whether `mode` is among the modes that the pin may be set to.
    pub fn supports(&self, mode: PinMode) -> (r: bool)
        ensures
            r == self.valid_modes@.contains(mode),
    {
        let mut i: usize = 0;
        while i < self.valid_modes.len()
            invariant
                i <= self.valid_modes@.len(),
                forall|j: int| 0 <= j < i ==> self.valid_modes@[j] != mode,
            decreases self.valid_modes@.len() - i,
        {
            if self.valid_modes[i] == mode {
                return true;
            }
            i = i + 1;
        }
        false
    }

    /// Takes the snapshot of a non-analog pin that the transport reports.
    pub fn from_digital(pin: &PinDescriptor) -> (digital_pin: DigitalPin)
        requires
            descriptor_consistent(*pin),
        ensures
            digital_pin@ == snapshot_of(*pin),
    {
        let mode = PinMode::from(pin.mode);
        let mut valid_modes: Vec<PinMode> = Vec::new();
        let mut bit_resolution: u8 = 0;
        let mut i: usize = 0;
        while i < pin.modes.len()
            invariant
                descriptor_consistent(*pin),
                i <= pin.modes@.len(),
                valid_modes@ == modes_of(pin.modes@.take(i as int)),
                bit_resolution == resolution_for(pin.modes@.take(i as int), pin.mode),
            decreases pin.modes@.len() - i,
        {
            let capability = pin.modes[i];
            proof {
                assert(pin.modes@.take(i + 1).drop_last() == pin.modes@.take(i as int));
            }
            if capability.mode == pin.mode {
                bit_resolution = capability.resolution;
            }
            valid_modes.push(PinMode::from(capability.mode));
            i = i + 1;
        }
        proof {
            assert(pin.modes@.take(i as int) == pin.modes@);
        }
        DigitalPin { mode, bit_resolution, valid_modes }
    }
}

/// The snapshots of the non-analog pins among `pins`, in their order.
pub open spec fn digital_snapshots(pins: Seq<PinDescriptor>) -> Seq<PinSnapshot>
    decreases pins.len(),
{
    if pins.len() == 0 {
        Seq::empty()
    } else if pins.last().analog {
        digital_snapshots(pins.drop_last())
    } else {
        digital_snapshots(pins.drop_last()).push(snapshot_of(pins.last()))
    }
}

/// Whether a snapshot can be taken of every non-analog pin among `pins`.
pub open spec fn pins_consistent(pins: Seq<PinDescriptor>) -> bool {
    forall|i: int| 0 <= i < pins.len() && !(#[trigger] pins[i]).analog ==> descriptor_consistent(pins[i])
}

/// The views of a list of digital pins.
pub open spec fn views_of(pins: Seq<DigitalPin>) -> Seq<PinSnapshot> {
    pins.map_values(|p: DigitalPin| p@)
}

/// Tells whether a snapshot can be taken of every non-analog pin among `pins`.
pub fn check_pins(pins: &Vec<PinDescriptor>) -> (r: bool)
    ensures
        r == pins_consistent(pins@),
{
    let mut i: usize = 0;
    while i < pins.len()
        invariant
            i <= pins@.len(),
            pins_consistent(pins@.take(i as int)),
        decreases pins@.len() - i,
    {
        if !pins[i].analog && !descriptor_is_consistent(&pins[i]) {
            assert(!pins_consistent(pins@)) by {
                assert(pins@[i as int] == pins[i as int]);
            }
            return false;
        }
        assert forall|j: int| 0 <= j < i + 1 && !(#[trigger] pins@.take(i + 1)[j]).analog implies
            descriptor_consistent(pins@.take(i + 1)[j]) by {
            if j < i {
                assert(pins@.take(i + 1)[j] == pins@.take(i as int)[j]);
            }
        }
        i = i + 1;
    }
    assert(pins@.take(i as int) == pins@);
    true
}

/// Tells whether a snapshot can be taken of a pin.
pub fn descriptor_is_consistent(pin: &PinDescriptor) -> (r: bool)
    ensures
        r == descriptor_consistent(*pin),
{
    if pin.mode > MAX_MODE_CODE {
        return false;
    }
    let mut count: usize = 0;
    let mut i: usize = 0;
    while i < pin.modes.len()
        invariant
            i <= pin.modes@.len(),
            count == count_mode(pin.modes@.take(i as int), pin.mode),
            count <= i,
            forall|j: int| 0 <= j < i ==> #[trigger] pin.modes@[j].mode <= MAX_MODE_CODE,
        decreases pin.modes@.len() - i,
    {
        proof {
            assert(pin.modes@.take(i + 1).drop_last() == pin.modes@.take(i as int));
        }
        if pin.modes[i].mode > MAX_MODE_CODE {
            return false;
        }
        if pin.modes[i].mode == pin.mode {
            count = count + 1;
        }
        i = i + 1;
    }
    proof {
        assert(pin.modes@.take(i as int) == pin.modes@);
    }
    pin.modes.len() == 0 || count == 1
}

/// Takes the snapshot of every non-analog pin among `pins`, in their order.
pub fn digital_pins_for_board(pins: &Vec<PinDescriptor>) -> (digital_pins: Vec<DigitalPin>)
    requires
        pins_consistent(pins@),
    ensures
        views_of(digital_pins@) == digital_snapshots(pins@),
{
    let mut digital_pins: Vec<DigitalPin> = Vec::new();
    let mut i: usize = 0;
    while i < pins.len()
        invariant
            pins_consistent(pins@),
            i <= pins@.len(),
            views_of(digital_pins@) == digital_snapshots(pins@.take(i as int)),
        decreases pins@.len() - i,
    {
        proof {
            assert(pins@.take(i + 1).drop_last() == pins@.take(i as int));
            assert(pins@.take(i + 1).last() == pins@[i as int]);
        }
        if !pins[i].analog {
            let digital_pin = DigitalPin::from_digital(&pins[i]);
            digital_pins.push(digital_pin);
            proof {
                assert(views_of(digital_pins@) == views_of(digital_pins@.drop_last()).push(
                    digital_pin@,
                ));
            }
        }
        i = i + 1;
    }
    proof {
        assert(pins@.take(i as int) == pins@);
    }
    digital_pins
}

} // verus!
