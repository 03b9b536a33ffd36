use vstd::prelude::*;

verus! {

/// Actions of the library scanner.
#[derive(Clone, Debug)]
pub enum UtilAction {
    ScanFileLibrary,
    FileLibraryScanned(Vec<String>),
}

/// The file names found by the last scan.
#[derive(Debug)]
pub struct Util {
    pub files: Vec<String>,
}

impl Util {
    /// A scanner that has found nothing yet.
    pub fn new() -> (u: Util)
        ensures
            u.files@.len() == 0,
    {
        Util { files: Vec::new() }
    }
}

/// The names of the entries whose name could be read, in the order of the entries.
pub open spec fn present_names(entries: Seq<Option<String>>) -> Seq<Seq<char>>
    decreases entries.len(),
{
    if entries.len() == 0 {
        seq![]
    } else {
        let rest = present_names(entries.drop_last());
        match entries.last() {
            Some(n) => rest.push(n@),
            None => rest,
        }
    }
}

/// Keeps the names of the directory entries whose name is valid Unicode
/// (`None` stands for an entry whose name is not), in order.
pub fn readable_names(entries: &Vec<Option<String>>) -> (r: Vec<String>)
    ensures
        r@.map_values(|s: String| s@) == present_names(entries@),
{
    let mut r: Vec<String> = Vec::new();
    let mut i: usize = 0;
    while i < entries.len()
        invariant
            i <= entries@.len(),
            r@.map_values(|s: String| s@) == present_names(entries@.take(i as int)),
        decreases entries@.len() - i,
    {
        match &entries[i] {
            Some(name) => {
                r.push(name.clone());
            },
            None => {},
        }
        proof {
            assert(entries@.take(i + 1).drop_last() =~= entries@.take(i as int));
            assert(r@.map_values(|s: String| s@) =~= present_names(entries@.take(i + 1)));
        }
        i = i + 1;
    }
    assert(entries@.take(entries@.len() as int) =~= entries@);
    r
}

/// Scanning keeps at most one name per entry, and exactly one per entry when every
/// name can be read.
pub proof fn lemma_present_names_len(entries: Seq<Option<String>>)
    ensures
        present_names(entries).len() <= entries.len(),
        (forall|i: int| 0 <= i < entries.len() ==> #[trigger] entries[i] is Some)
            ==> present_names(entries).len() == entries.len(),
    decreases entries.len(),
{
    if entries.len() > 0 {
        lemma_present_names_len(entries.drop_last());
        if forall|i: int| 0 <= i < entries.len() ==> #[trigger] entries[i] is Some {
            assert forall|i: int| 0 <= i < entries.drop_last().len() implies #[trigger] entries.drop_last()[i] is Some by {
                assert(entries.drop_last()[i] == entries[i]);
            }
            assert(entries[entries.len() - 1] is Some);
        }
    }
}

} // verus!
