use vstd::prelude::*;
use vstd::string::*;
use crate::message::File;

verus! {

/// A list of file names.
#[derive(Debug)]
pub struct FileState {
    pub files: Vec<String>,
}

impl FileState {
    /// The starting list: `file1.mp3`, then `file2.mp3`.
    pub fn new() -> (s: FileState)
        ensures
            s.files@.len() == 2,
            s.files@[0]@ == "file1.mp3"@,
            s.files@[1]@ == "file2.mp3"@,
    {
        let mut files: Vec<String> = Vec::new();
        files.push(String::from_str("file1.mp3"));
        files.push(String::from_str("file2.mp3"));
        FileState { files }
    }

    /// Answers a message: no message changes the list.
    pub fn update(&mut self, message: File)
        ensures
            *final(self) == *old(self),
    {
        match message {
            File::Load => {},
            File::Display => {},
            File::Duration => {},
            File::Select(_) => {},
        }
    }
}

} // verus!
