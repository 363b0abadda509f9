//! The record of a core (a platform) that the Arduino CLI knows of.

use vstd::prelude::*;

verus! {

/// The mathematical value of a core record.
pub struct CoreView {
    pub id: Seq<char>,
    pub version: Seq<char>,
    pub name: Seq<char>,
}

/// A core that the Arduino CLI can install: its id, version and name.
#[derive(Clone, Debug)]
pub struct Core {
    id: String,
    version: String,
    name: String,
}

impl View for Core {
    type V = CoreView;

    closed spec fn view(&self) -> CoreView {
        CoreView { id: self.id@, version: self.version@, name: self.name@ }
    }
}

impl Core {
    /// Creates a core record from its fields.
    pub fn new(id: String, version: String, name: String) -> (core: Core)
        ensures
            core@ == (CoreView { id: id@, version: version@, name: name@ }),
    {
        Core { id, version, name }
    }

    /// The core's id.
    pub fn id(&self) -> (r: &str)
        ensures
            r@ == self@.id,
    {
        self.id.as_str()
    }

    /// The core's version.
    pub fn version(&self) -> (r: &str)
        ensures
            r@ == self@.version,
    {
        self.version.as_str()
    }

    /// The core's name.
    pub fn name(&self) -> (r: &str)
        ensures
            r@ == self@.name,
    {
        self.name.as_str()
    }
}

impl PartialEq for Core {
    fn eq(&self, other: &Core) -> (r: bool) {
        self.id == other.id && self.version == other.version && self.name == other.name
    }
}

impl vstd::std_specs::cmp::PartialEqSpecImpl for Core {
    open spec fn obeys_eq_spec() -> bool {
        true
    }

    open spec fn eq_spec(&self, other: &Core) -> bool {
        self@ == other@
    }
}

} // verus!
