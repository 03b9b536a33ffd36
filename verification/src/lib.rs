//! The logic of a music player: scanning a music folder into a song library, the
//! song list (`playlist`) and a list of file names (`files`), the decisions of the audio players, the drag-and-drop
//! widgets, and the search for a widget's visible bounds.
use vstd::prelude::*;

pub mod audio;
pub mod bounds;
pub mod files;
pub mod message;
pub mod playlist;
pub mod scanner;
pub mod text;
pub mod utils;
pub mod widgets;
