//! A handle on a single attached Arduino board and on the Arduino CLI.
//!
//! The `arduino` module models the board's digital pins and decides, against the board's
//! current capabilities, which transport command a write or a mode change becomes. The `cli`
//! module parses what the Arduino CLI prints and prepares the commands it is run with.

pub mod pin;
mod arduino;
pub mod cli;

pub use arduino::{DigitalPin, PinMode, PinSnapshot, ModeCapability, PinDescriptor};
pub use arduino::{Arduino, Command, Error, MAX_MODE_CODE};
pub use arduino::{check_pins, descriptor_is_consistent, digital_pins_for_board, value_in_bounds};
pub use arduino::{code_of, mode_of_code, count_mode, descriptor_consistent, resolution_for};
pub use arduino::{modes_of, snapshot_of, in_bounds, digital_snapshots, pins_consistent, views_of};
pub use arduino::{write_outcome, set_mode_outcome};
pub use arduino::{lemma_index_out_of_range_is_rejected, lemma_write_respects_bounds};
pub use arduino::lemma_set_mode_succeeds_iff_supported;
pub use cli::Board;

