use vstd::prelude::*;
use crate::message::File;
use crate::scanner::Metadata;

verus! {

/// The songs of the library, each with its path and its stored tag.
#[derive(Debug)]
pub struct FileState {
    pub files: Vec<(String, Metadata)>,
}

/// What the file list asks of its surroundings in answer to a message.
#[derive(Clone, Copy, Debug, PartialEq, Eq, Structural)]
pub enum FileAction {
    /// Nothing to do.
    Nothing,
    /// Report that a load was asked for.
    ReportLoad,
    /// Read every song with its tag from the library database and hand them to `library_loaded`.
    LoadLibrary,
}

/// The action that answers `message`.
pub open spec fn file_action(message: File) -> FileAction {
    match message {
        File::Load => FileAction::ReportLoad,
        File::Display => FileAction::LoadLibrary,
        File::Duration => FileAction::Nothing,
        File::Select(_) => FileAction::Nothing,
    }
}

/// The button of each song: its title as label, its path as what a press selects.
pub open spec fn entries_of(files: Seq<(String, Metadata)>) -> Seq<(Seq<char>, Seq<char>)> {
    files.map_values(|f: (String, Metadata)| (f.1.title@, f.0@))
}

impl FileState {
    /// An empty file list.
    pub fn new() -> (s: FileState)
        ensures
            s.files@.len() == 0,
    {
        FileState { files: Vec::new() }
    }

    /// Answers a message. The list itself changes only when the songs that a
    /// `LoadLibrary` action reads are handed to `library_loaded`.
    pub fn update(&mut self, message: File) -> (action: FileAction)
        ensures
            action == file_action(message),
            *final(self) == *old(self),
    {
        match message {
            File::Load => FileAction::ReportLoad,
            File::Display => FileAction::LoadLibrary,
            File::Duration => FileAction::Nothing,
            File::Select(_) => FileAction::Nothing,
        }
    }

    /// Replaces the list by the songs read from the library database.
    pub fn library_loaded(&mut self, files: Vec<(String, Metadata)>)
        ensures
            final(self).files == files,
    {
        self.files = files;
    }

    /// The label and the selected path of the button of each song, in list order.
    pub fn button_entries(&self) -> (r: Vec<(String, String)>)
        ensures
            r@.map_values(|e: (String, String)| (e.0@, e.1@)) == entries_of(self.files@),
    {
        let mut r: Vec<(String, String)> = Vec::new();
        let mut i: usize = 0;
        while i < self.files.len()
            invariant
                i <= self.files@.len(),
                r@.len() == i,
                r@.map_values(|e: (String, String)| (e.0@, e.1@)) == entries_of(
                    self.files@.take(i as int),
                ),
            decreases self.files@.len() - i,
        {
            let ghost before = r@;
            let label = self.files[i].1.title.clone();
            let path = self.files[i].0.clone();
            r.push((label, path));
            proof {
                let f = |e: (String, String)| (e.0@, e.1@);
                assert(self.files@.take(i + 1) =~= self.files@.take(i as int).push(self.files@[i as int]));
                assert forall|j: int| 0 <= j < i implies #[trigger] r@.map_values(f)[j] == before.map_values(f)[j] by {
                    assert(r@[j] == before[j]);
                }
                assert(r@.map_values(|e: (String, String)| (e.0@, e.1@)) =~= entries_of(
                    self.files@.take(i + 1),
                ));
            }
            i = i + 1;
        }
        assert(self.files@.take(self.files@.len() as int) =~= self.files@);
        r
    }
}

/// After the songs are loaded, the list shows one button per song, in the order the
/// songs were loaded, labelled with the song's title and selecting its path.
pub proof fn lemma_loaded_songs_have_buttons(files: Seq<(String, Metadata)>)
    ensures
        entries_of(files).len() == files.len(),
        forall|i: int|
            0 <= i < files.len() ==> #[trigger] entries_of(files)[i] == (files[i].1.title@, files[i].0@),
{
}

} // verus!
