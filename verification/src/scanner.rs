use vstd::prelude::*;
use vstd::string::*;
use crate::text::{decimal, ends_with, has_suffix, i32_to_text};

verus! {

/// `attribs` value of a directory (an album folder).
pub const ALBUM_FOLDER: usize = 16;

/// `attribs` value of a song file.
pub const SONG_FILE: usize = 32;

/// `attribs` value of an image (album art).
pub const ALBUM_ART: usize = 38;

/// A row of the `files` table, as read back from the library database.
#[derive(Debug)]
pub struct File {
    pub id: usize,
    pub parent_id: usize,
    pub name: String,
    pub attribs: usize,
}

/// The tag information stored with each song.
#[derive(Debug)]
pub struct Metadata {
    pub title: String,
    pub album: String,
    pub artist: String,
    pub genre: String,
    pub year: String,
}

/// A row to be inserted into the `files` table while scanning the music folder.
#[derive(Debug)]
pub struct NewFile {
    pub parent_id: Option<i32>,
    pub name: String,
    pub attribs: usize,
    pub path: String,
    pub md: Option<Metadata>,
}

/// What the scanner does with one directory entry.
#[derive(Debug)]
pub enum ScanStep {
    /// An entry of no known kind: nothing is stored.
    Skip,
    /// A directory: its row is inserted, then its contents are scanned with the new row's id as parent.
    Folder(NewFile),
    /// A song: its tag is read and attached to the row before it is inserted.
    Song(NewFile),
    /// An image: its row is inserted as it stands.
    Art(NewFile),
}

pub open spec fn mp3_ext() -> Seq<char> { seq!['.', 'm', 'p', '3'] }

pub open spec fn flac_ext() -> Seq<char> { seq!['.', 'f', 'l', 'a', 'c'] }

pub open spec fn jpg_ext() -> Seq<char> { seq!['.', 'j', 'p', 'g'] }

pub open spec fn png_ext() -> Seq<char> { seq!['.', 'p', 'n', 'g'] }

/// A file name that the scanner takes for a song.
pub open spec fn is_song_name(name: Seq<char>) -> bool {
    has_suffix(name, mp3_ext()) || has_suffix(name, flac_ext())
}

/// A file name that the scanner takes for album art.
pub open spec fn is_art_name(name: Seq<char>) -> bool {
    has_suffix(name, jpg_ext()) || has_suffix(name, png_ext())
}

/// The `attribs` code of a directory entry, or `None` for an entry that is skipped.
pub open spec fn entry_kind(name: Seq<char>, is_dir: bool) -> Option<usize> {
    if is_dir {
        Some(ALBUM_FOLDER)
    } else if is_song_name(name) {
        Some(SONG_FILE)
    } else if is_art_name(name) {
        Some(ALBUM_ART)
    } else {
        None
    }
}

/// `row` is the row of an entry named `name` at `path` under `parent_id`, with no tag yet.
pub open spec fn is_row_of(
    row: NewFile,
    parent_id: Option<i32>,
    name: Seq<char>,
    attribs: usize,
    path: Seq<char>,
) -> bool {
    &&& row.parent_id == parent_id
    &&& row.name@ == name
    &&& row.attribs == attribs
    &&& row.path@ == path
    &&& row.md is None
}

/// The text stored as the year of a song.
pub open spec fn year_text(year: Option<i32>) -> Seq<char> {
    match year {
        Some(y) => decimal(y as int),
        None => "Unknown year"@,
    }
}

/// Classifies a directory entry by the `attribs` code it is stored with:
/// directories are album folders, `.mp3` and `.flac` files are songs,
/// `.jpg` and `.png` files are album art; anything else is skipped.
pub fn entry_attribs(name: &str, is_dir: bool) -> (r: Option<usize>)
    ensures
        r == entry_kind(name@, is_dir),
{
    proof {
        reveal_strlit(".mp3");
        reveal_strlit(".flac");
        reveal_strlit(".jpg");
        reveal_strlit(".png");
        assert(".mp3"@ =~= mp3_ext());
        assert(".flac"@ =~= flac_ext());
        assert(".jpg"@ =~= jpg_ext());
        assert(".png"@ =~= png_ext());
    }
    if is_dir {
        Some(ALBUM_FOLDER)
    } else if ends_with(name, ".mp3") || ends_with(name, ".flac") {
        Some(SONG_FILE)
    } else if ends_with(name, ".jpg") || ends_with(name, ".png") {
        Some(ALBUM_ART)
    } else {
        None
    }
}

/// Decides what the scan does with the entry `name` at `path`, found in the
/// directory whose row id is `parent_id`.
pub fn plan_entry(parent_id: Option<i32>, name: String, is_dir: bool, path: String) -> (step: ScanStep)
    ensures
        match entry_kind(name@, is_dir) {
            None => step is Skip,
            Some(a) => match step {
                ScanStep::Folder(row) => a == ALBUM_FOLDER && is_row_of(row, parent_id, name@, a, path@),
                ScanStep::Song(row) => a == SONG_FILE && is_row_of(row, parent_id, name@, a, path@),
                ScanStep::Art(row) => a == ALBUM_ART && is_row_of(row, parent_id, name@, a, path@),
                ScanStep::Skip => false,
            },
        },
{
    match entry_attribs(name.as_str(), is_dir) {
        None => ScanStep::Skip,
        Some(attribs) => {
            let row = NewFile { parent_id, name, attribs, path, md: None };
            if attribs == ALBUM_FOLDER {
                ScanStep::Folder(row)
            } else if attribs == SONG_FILE {
                ScanStep::Song(row)
            } else {
                ScanStep::Art(row)
            }
        },
    }
}

/// The parent id under which the contents of a just inserted directory are stored:
/// the database's last inserted row id, narrowed to an `i32` as a cast does.
pub fn folder_parent_id(last_insert_rowid: i64) -> (r: Option<i32>)
    ensures
        r == Some(last_insert_rowid as i32),
{
    Some(last_insert_rowid as i32)
}

/// The folders that a scan of the music folder is inside of: for each, the id under
/// which its entries are stored, innermost last. The starting parent is always there.
#[derive(Debug)]
pub struct LibraryScan {
    root: Option<i32>,
    folders: Vec<Option<i32>>,
}

impl View for LibraryScan {
    type V = Seq<Option<i32>>;

    closed spec fn view(&self) -> Seq<Option<i32>> {
        seq![self.root] + self.folders@
    }
}

/// The scan after it enters the folder whose row got `last_insert_rowid`.
pub open spec fn after_enter_folder(scan: Seq<Option<i32>>, last_insert_rowid: i64) -> Seq<Option<i32>> {
    scan.push(Some(last_insert_rowid as i32))
}

/// The scan after it leaves the current folder.
pub open spec fn after_leave_folder(scan: Seq<Option<i32>>) -> Seq<Option<i32>> {
    scan.drop_last()
}

impl LibraryScan {
    /// A scan whose top-level entries are stored under `root_parent`.
    pub fn new(root_parent: Option<i32>) -> (s: LibraryScan)
        ensures
            s@ == seq![root_parent],
    {
        let s = LibraryScan { root: root_parent, folders: Vec::new() };
        assert(s@ =~= seq![root_parent]);
        s
    }

    /// The id under which the entries of the current folder are stored.
    pub fn current_parent(&self) -> (p: Option<i32>)
        ensures
            self@.len() >= 1,
            p == self@.last(),
    {
        let n = self.folders.len();
        if n == 0 {
            self.root
        } else {
            self.folders[n - 1]
        }
    }

    /// Decides what to do with an entry of the current folder.
    pub fn plan(&self, name: String, is_dir: bool, path: String) -> (step: ScanStep)
        ensures
            self@.len() >= 1,
            match entry_kind(name@, is_dir) {
                None => step is Skip,
                Some(a) => match step {
                    ScanStep::Folder(row) => a == ALBUM_FOLDER && is_row_of(row, self@.last(), name@, a, path@),
                    ScanStep::Song(row) => a == SONG_FILE && is_row_of(row, self@.last(), name@, a, path@),
                    ScanStep::Art(row) => a == ALBUM_ART && is_row_of(row, self@.last(), name@, a, path@),
                    ScanStep::Skip => false,
                },
            },
    {
        let parent = self.current_parent();
        plan_entry(parent, name, is_dir, path)
    }

    /// Enters the folder whose row was just inserted: its entries are stored under
    /// that row's id, as `folder_parent_id` narrows it.
    pub fn enter_folder(&mut self, last_insert_rowid: i64)
        ensures
            final(self)@ == after_enter_folder(old(self)@, last_insert_rowid),
    {
        let parent = folder_parent_id(last_insert_rowid);
        self.folders.push(parent);
        assert(self@ =~= old(self)@.push(Some(last_insert_rowid as i32)));
    }

    /// Leaves the current folder, back to the one that holds it.
    pub fn leave_folder(&mut self)
        requires
            old(self)@.len() > 1,
        ensures
            final(self)@ == after_leave_folder(old(self)@),
    {
        self.folders.pop();
        assert(self@ =~= old(self)@.drop_last());
    }

    /// How many folders deep the scan is.
    pub fn depth(&self) -> (d: usize)
        ensures
            d == self@.len() - 1,
    {
        self.folders.len()
    }
}

/// The entries of a folder are stored under that folder's row id, and once the
/// folder is left the entries that follow are stored under the same parent as before.
pub proof fn lemma_folder_parent(scan: Seq<Option<i32>>, last_insert_rowid: i64)
    requires
        scan.len() >= 1,
    ensures
        after_enter_folder(scan, last_insert_rowid).last() == Some(last_insert_rowid as i32),
        after_enter_folder(scan, last_insert_rowid).len() > 1,
        after_leave_folder(after_enter_folder(scan, last_insert_rowid)) == scan,
{
    assert(after_leave_folder(after_enter_folder(scan, last_insert_rowid)) =~= scan);
}

/// `name` ends with the characters `ext`, written out without the classifier's helpers.
pub open spec fn ends_in(name: Seq<char>, ext: Seq<char>) -> bool {
    ext.len() <= name.len() && (forall|i: int|
        0 <= i < ext.len() ==> #[trigger] name[name.len() - ext.len() + i] == ext[i])
}

proof fn lemma_ends_in_is_suffix(name: Seq<char>, ext: Seq<char>)
    ensures
        ends_in(name, ext) <==> has_suffix(name, ext),
{
    if ends_in(name, ext) {
        let sub = name.subrange(name.len() - ext.len(), name.len() as int);
        assert forall|i: int| 0 <= i < ext.len() implies sub[i] == ext[i] by {
            assert(name[name.len() - ext.len() + i] == ext[i]);
        }
        assert(sub =~= ext);
    }
    if has_suffix(name, ext) {
        assert forall|i: int| 0 <= i < ext.len() implies #[trigger] name[name.len() - ext.len() + i]
            == ext[i] by {
            assert(name.subrange(name.len() - ext.len(), name.len() as int)[i] == ext[i]);
        }
    }
}

/// How an entry of the music folder is stored: a directory always as an album folder,
/// whatever its name; a file as a song exactly when its name ends in `.mp3` or `.flac`,
/// whatever comes before (other dots included); otherwise as album art exactly when its
/// name ends in `.jpg` or `.png`; anything else is skipped.
pub proof fn lemma_entry_classification(name: Seq<char>, is_dir: bool)
    ensures
        is_dir ==> entry_kind(name, is_dir) == Some(16usize),
        !is_dir ==> (entry_kind(name, is_dir) == Some(32usize) <==> (ends_in(name, seq!['.', 'm', 'p', '3'])
            || ends_in(name, seq!['.', 'f', 'l', 'a', 'c']))),
        !is_dir ==> (entry_kind(name, is_dir) == Some(38usize) <==> (!ends_in(name, seq!['.', 'm', 'p', '3'])
            && !ends_in(name, seq!['.', 'f', 'l', 'a', 'c']) && (ends_in(name, seq!['.', 'j', 'p', 'g'])
            || ends_in(name, seq!['.', 'p', 'n', 'g'])))),
        !is_dir ==> (entry_kind(name, is_dir) is None <==> (!ends_in(name, seq!['.', 'm', 'p', '3'])
            && !ends_in(name, seq!['.', 'f', 'l', 'a', 'c']) && !ends_in(name, seq!['.', 'j', 'p', 'g'])
            && !ends_in(name, seq!['.', 'p', 'n', 'g']))),
        entry_kind(name, is_dir) is None || entry_kind(name, is_dir) == Some(16usize)
            || entry_kind(name, is_dir) == Some(32usize) || entry_kind(name, is_dir) == Some(38usize),
{
    lemma_ends_in_is_suffix(name, seq!['.', 'm', 'p', '3']);
    lemma_ends_in_is_suffix(name, seq!['.', 'f', 'l', 'a', 'c']);
    lemma_ends_in_is_suffix(name, seq!['.', 'j', 'p', 'g']);
    lemma_ends_in_is_suffix(name, seq!['.', 'p', 'n', 'g']);
}

/// Any file name followed by `.mp3` or `.flac` is stored as a song, and any followed by
/// `.jpg` or `.png` as album art, whatever the name before it holds.
pub proof fn lemma_extension_decides(stem: Seq<char>)
    ensures
        entry_kind(stem + seq!['.', 'm', 'p', '3'], false) == Some(32usize),
        entry_kind(stem + seq!['.', 'f', 'l', 'a', 'c'], false) == Some(32usize),
        entry_kind(stem + seq!['.', 'j', 'p', 'g'], false) == Some(38usize),
        entry_kind(stem + seq!['.', 'p', 'n', 'g'], false) == Some(38usize),
{
    let exts = seq![
        seq!['.', 'm', 'p', '3'],
        seq!['.', 'f', 'l', 'a', 'c'],
        seq!['.', 'j', 'p', 'g'],
        seq!['.', 'p', 'n', 'g'],
    ];
    assert forall|k: int| 0 <= k < 4 implies ends_in(#[trigger] (stem + exts[k]), exts[k]) by {
        let e = exts[k];
        assert forall|i: int| 0 <= i < e.len() implies #[trigger] (stem + e)[(stem + e).len() - e.len() + i]
            == e[i] by {}
    }
    assert(ends_in(stem + exts[0], exts[0]));
    assert(ends_in(stem + exts[1], exts[1]));
    assert(ends_in(stem + exts[2], exts[2]));
    assert(ends_in(stem + exts[3], exts[3]));
    lemma_entry_classification(stem + exts[0], false);
    lemma_entry_classification(stem + exts[1], false);
    lemma_entry_classification(stem + exts[2], false);
    lemma_entry_classification(stem + exts[3], false);
}

impl NewFile {
    /// The same row, with the song's tag attached.
    pub fn with_metadata(self, md: Metadata) -> (r: NewFile)
        ensures
            r.parent_id == self.parent_id,
            r.name == self.name,
            r.attribs == self.attribs,
            r.path == self.path,
            r.md == Some(md),
    {
        NewFile { md: Some(md), ..self }
    }
}

impl Metadata {
    /// Builds the stored tag of a song from the fields read from its ID3 tag.
    /// Title, album, artist and genre must be present; a missing year is
    /// stored as "Unknown year".
    pub fn from_tag(
        title: Option<String>,
        album: Option<String>,
        artist: Option<String>,
        genre: Option<String>,
        year: Option<i32>,
    ) -> (md: Metadata)
        requires
            title is Some,
            album is Some,
            artist is Some,
            genre is Some,
        ensures
            md.title@ == title->0@,
            md.album@ == album->0@,
            md.artist@ == artist->0@,
            md.genre@ == genre->0@,
            md.year@ == year_text(year),
    {
        let year = match year {
            Some(y) => i32_to_text(y),
            None => String::from_str("Unknown year"),
        };
        Metadata {
            title: title.unwrap(),
            album: album.unwrap(),
            artist: artist.unwrap(),
            genre: genre.unwrap(),
            year,
        }
    }
}

/// The artist shown for a stored song: its artist, or "Unknown Artist" where none is stored.
pub fn artist_label(artist: Option<String>) -> (r: String)
    ensures
        r@ == match artist {
            Some(a) => a@,
            None => "Unknown Artist"@,
        },
{
    match artist {
        Some(a) => a,
        None => String::from_str("Unknown Artist"),
    }
}

/// The title shown for a stored song: its title, or "Unknown Title" where none is stored.
pub fn title_label(title: Option<String>) -> (r: String)
    ensures
        r@ == match title {
            Some(t) => t@,
            None => "Unknown Title"@,
        },
{
    match title {
        Some(t) => t,
        None => String::from_str("Unknown Title"),
    }
}

} // verus!
