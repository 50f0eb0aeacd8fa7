//! In-memory providers for the two external capabilities — persisted
//! configuration and whole-file storage — as the design's substitutable
//! test doubles. Against them the interactive operations' no-I/O-on-
//! cancellation and write-then-read round-trip behaviour is proved, not
//! just asserted.

use vstd::prelude::*;
use crate::config::PathConfig;
use crate::dialog::DialogOutcome;
use crate::errors::FileError;

verus! {

/// What reading a path from a sequence of (path, content) write records
/// yields: the content most recently written under that exact path, or
/// nothing when the path was never written.
pub open spec fn lookup(entries: Seq<(String, String)>, path: Seq<char>) -> Option<Seq<char>>
    decreases entries.len(),
{
    if entries.len() == 0 {
        None
    } else if entries.last().0@ == path {
        Some(entries.last().1@)
    } else {
        lookup(entries.drop_last(), path)
    }
}

/// An in-memory file store: every write is recorded, a read returns the
/// most recent content written under the path.
pub struct MemoryFiles {
    entries: Vec<(String, String)>,
}

impl View for MemoryFiles {
    type V = Seq<(String, String)>;

    closed spec fn view(&self) -> Seq<(String, String)> {
        self.entries@
    }
}

impl MemoryFiles {
    /// An empty store: no path has any content.
    pub fn new() -> (s: Self)
        ensures
            s@ == Seq::<(String, String)>::empty(),
    {
        MemoryFiles { entries: Vec::new() }
    }

    /// Overwrites `path` with `content` in its entirety.
    pub fn write(&mut self, path: String, content: String)
        ensures
            final(self)@ == old(self)@.push((path, content)),
    {
        self.entries.push((path, content));
    }

    /// Reads the entire content under `path`, or nothing when the path was
    /// never written.
    pub fn read(&self, path: &str) -> (r: Option<String>)
        ensures
            lookup(self@, path@) is Some ==> r is Some && r.unwrap()@ == lookup(
                self@,
                path@,
            ).unwrap(),
            lookup(self@, path@) is None ==> r is None,
    {
        let key: String = String::from_str(path);
        let mut i: usize = self.entries.len();
        proof {
            assert(self@.subrange(0, i as int) =~= self@);
        }
        while i > 0
            invariant
                i <= self.entries.len(),
                key@ == path@,
                lookup(self@, path@) == lookup(self@.subrange(0, i as int), path@),
            decreases i,
        {
            proof {
                assert(self@.subrange(0, i as int).last() == self@[i - 1]);
                assert(self@.subrange(0, i as int).drop_last() =~= self@.subrange(
                    0,
                    i - 1,
                ));
            }
            if self.entries[i - 1].0 == key {
                return Some(self.entries[i - 1].1.clone());
            }
            i = i - 1;
        }
        proof {
            assert(self@.subrange(0, 0) =~= Seq::<(String, String)>::empty());
        }
        None
    }
}

/// Writing content under a path and then reading that same path yields
/// exactly the written content, whatever the store held before: the
/// round trip behind both the save-then-read-raw promise and the
/// write-under-root-then-read-resolved-tile promise.
pub proof fn lemma_write_then_read(
    entries: Seq<(String, String)>,
    path: String,
    content: String,
)
    ensures
        lookup(entries.push((path, content)), path@) == Some(content@),
{
    assert(entries.push((path, content)).last() == (path, content));
}

/// An in-memory configuration store: holds at most one whole record, as
/// the external key-value capability does under its fixed identifier.
pub struct MemoryConfig {
    stored: Option<PathConfig>,
}

impl MemoryConfig {
    /// A store on which nothing was ever saved.
    pub fn new() -> (s: Self)
        ensures
            s.stored() is None,
    {
        MemoryConfig { stored: None }
    }

    /// The record currently held, if any.
    pub closed spec fn stored(&self) -> Option<PathConfig> {
        self.stored
    }

    /// Replaces the entire stored record.
    pub fn store(&mut self, c: PathConfig)
        ensures
            final(self).stored() == Some(c),
    {
        self.stored = Some(c);
    }

    /// Returns the stored record, or nothing when none was ever saved.
    pub fn load(&self) -> (r: Option<PathConfig>)
        ensures
            r == self.stored(),
    {
        match &self.stored {
            Some(c) => Some(
                PathConfig { tile_root: c.tile_root.clone(), addon_root: c.addon_root.clone() },
            ),
            None => None,
        }
    }
}

/// The save-file operation against a substitutable store: a dismissed
/// dialog surfaces as `DialogCancelled` and the store is left untouched —
/// no write is attempted; a selected path is overwritten with the whole
/// content and returned.
pub fn save_file_to(files: &mut MemoryFiles, outcome: DialogOutcome, content: String) -> (r:
    Result<String, FileError>)
    ensures
        outcome is Cancelled ==> r is Err && r->Err_0 == FileError::DialogCancelled
            && final(files)@ == old(files)@,
        outcome is Selected ==> r is Ok && r->Ok_0 == outcome->Selected_0
            && final(files)@ == old(files)@.push((outcome->Selected_0, content)),
{
    match outcome {
        DialogOutcome::Cancelled => Err(FileError::DialogCancelled),
        DialogOutcome::Selected(p) => {
            let chosen: String = p.clone();
            files.write(p, content);
            Ok(chosen)
        },
    }
}

/// The open-file operation against a substitutable store: a dismissed
/// dialog surfaces as `DialogCancelled` and no read is attempted; a
/// selected path is read whole, a path with no content failing as
/// `IoError`.
pub fn open_file_from(files: &MemoryFiles, outcome: DialogOutcome) -> (r: Result<
    String,
    FileError,
>)
    ensures
        outcome is Cancelled ==> r is Err && r->Err_0 == FileError::DialogCancelled,
        outcome is Selected && lookup(files@, outcome->Selected_0@) is Some ==> r is Ok
            && r->Ok_0@ == lookup(files@, outcome->Selected_0@).unwrap(),
        outcome is Selected && lookup(files@, outcome->Selected_0@) is None ==> r is Err
            && r->Err_0 is IoError,
{
    match outcome {
        DialogOutcome::Cancelled => Err(FileError::DialogCancelled),
        DialogOutcome::Selected(p) => match files.read(p.as_str()) {
            Some(content) => Ok(content),
            None => Err(FileError::IoError(String::from_str("No such file."))),
        },
    }
}

} // verus!
