//! An interface for the Arduino CLI: parsing what it prints when asked for the connected boards
//! and installed cores, and preparing the arguments it is run with to compile and upload
//! sketches. Running the executable itself is left to the caller.

use vstd::prelude::*;

mod text;
mod query;
mod board;
mod cores;
mod run;

pub use text::{is_white_space, is_blank, split_on, strip_cr, lines_of};
pub use query::{Query, column_of, rows_of, non_blank, entry_outcome, list_outcome};
pub use query::{query_from_board_entry, query_from_board_list, lemma_tabular_listing, FIELD_COUNT};
pub use cores::{Core, CoreView};
pub use run::{SketchDir, compile, upload, sketch_to_string, sketch_file_name};
pub use run::{SKETCH_EXTENSION, texts_of, sketch_file_of, sketch_outcome, compile_args, upload_args, args_result};
pub use board::{Board, BoardView, DeviceInfo, UNKNOWN_CORE_NAME, unknown_core};

verus! {

/// The kinds of errors that can occur as a result of interacting with the Arduino CLI.
///
/// A board whose core is not installed is reported in two ways, one per kind of listing. The
/// tabular listing, from which a single field is extracted, yields `MissingCore` when the board's
/// FQBN field is blank. The structured listing yields whole `Board` records, and such a board is
/// recognised only by `Board::has_unknown_core`.
#[derive(Clone, Copy, PartialEq, Eq, Debug, Structural)]
pub enum Error {
    CommandFailure,
    UnknownFormat,
    InvalidSketchPath,
    UnexpectedSyntax,
    NoDevice,
    MultipleDevices,
    MissingCore,
}

/// The value of a result that holds a text.
pub open spec fn text_result(r: Result<String, Error>) -> Result<Seq<char>, Error> {
    match r {
        Ok(s) => Ok(s@),
        Err(e) => Err(e),
    }
}

} // verus!
