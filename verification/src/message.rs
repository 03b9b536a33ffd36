use vstd::prelude::*;

verus! {

/// Messages that the file list reacts to.
#[derive(Clone, Debug, PartialEq, Eq)]
pub enum File {
    Load,
    Display,
    Duration,
    /// A song of the list was chosen, by its path.
    Select(String),
}

/// Messages of a draggable widget.
#[derive(Clone, Copy, Debug, PartialEq, Eq, Structural)]
pub enum Draggable {
    Press,
    Release,
}

} // verus!
