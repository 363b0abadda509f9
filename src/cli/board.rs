//! The record of a board that the Arduino CLI lists as connected.

use vstd::prelude::*;

verus! {

/// The name under which a board whose core is not installed is listed.
pub const UNKNOWN_CORE_NAME: &'static str = "unknown";

/// The mathematical value of a board record.
pub struct BoardView {
    pub name: Seq<char>,
    pub fqbn: Seq<char>,
    pub port: Seq<char>,
    pub usb_id: Seq<char>,
}

/// Whether a board with this name and FQBN is one whose core is not installed: its name is
/// `"unknown"` and its FQBN is empty.
pub open spec fn unknown_core(name: Seq<char>, fqbn: Seq<char>) -> bool {
    name == UNKNOWN_CORE_NAME@ && fqbn.len() == 0
}

/// A board that the Arduino CLI lists as connected: its name, FQBN, port and USB id.
///
/// A board whose core is not installed is listed with placeholder values for its name and
/// FQBN; `has_unknown_core` tells such a board apart.
#[derive(Clone, Debug)]
pub struct Board {
    name: String,
    fqbn: String,
    port: String,
    usb_id: String,
}

impl View for Board {
    type V = BoardView;

    closed spec fn view(&self) -> BoardView {
        BoardView { name: self.name@, fqbn: self.fqbn@, port: self.port@, usb_id: self.usb_id@ }
    }
}

impl Board {
    /// Creates a board record from its fields.
    pub fn new(name: String, fqbn: String, port: String, usb_id: String) -> (board: Board)
        ensures
            board@ == (BoardView { name: name@, fqbn: fqbn@, port: port@, usb_id: usb_id@ }),
    {
        Board { name, fqbn, port, usb_id }
    }

    /// Indicates whether the board's core is not installed (or was not when the record was
    /// captured).
    pub fn has_unknown_core(&self) -> (r: bool)
        ensures
            r == unknown_core(self@.name, self@.fqbn),
    {
        let unknown = String::from_str(UNKNOWN_CORE_NAME);
        self.name == unknown && self.fqbn.as_str().is_empty()
    }

    /// The board's name.
    pub fn board_name(&self) -> (r: &str)
        ensures
            r@ == self@.name,
    {
        self.name.as_str()
    }

    /// The board's fully qualified board name (FQBN).
    pub fn fqbn(&self) -> (r: &str)
        ensures
            r@ == self@.fqbn,
    {
        self.fqbn.as_str()
    }

    /// The port that the board is connected to.
    pub fn port(&self) -> (r: &str)
        ensures
            r@ == self@.port,
    {
        self.port.as_str()
    }

    /// The board's USB id.
    pub fn id(&self) -> (r: &str)
        ensures
            r@ == self@.usb_id,
    {
        self.usb_id.as_str()
    }
}

impl PartialEq for Board {
    fn eq(&self, other: &Board) -> (r: bool) {
        self.name == other.name && self.fqbn == other.fqbn && self.port == other.port
            && self.usb_id == other.usb_id
    }
}

impl vstd::std_specs::cmp::PartialEqSpecImpl for Board {
    open spec fn obeys_eq_spec() -> bool {
        true
    }

    open spec fn eq_spec(&self, other: &Board) -> bool {
        self@ == other@
    }
}

/// Another name for a board record, as the information on a listed device.
pub type DeviceInfo = Board;

} // verus!
