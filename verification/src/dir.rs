//! Directory iteration.

use vstd::prelude::*;

use crate::abi::{self, dwarfs_c_dir, dwarfs_c_dirent, CallError};
use crate::error::DwarfsError;
use crate::fs::Filesystem;
use crate::metadata::FileType;

verus! {

/// A single directory entry.
#[derive(Debug, Clone, PartialEq, Eq)]
pub struct DirEntry {
    /// Entry name (never `.` or `..`).
    pub name: String,
    /// Entry type.
    pub file_type: FileType,
}

/// Iterator over a directory's entries, created by
/// [`Filesystem::read_dir`](crate::Filesystem::read_dir).
///
/// Each item is a `Result`: an `Err` is yielded at most once, after which
/// the iterator is exhausted. The iterator borrows the [`Filesystem`] it
/// was created from.
#[derive(Debug)]
pub struct ReadDir<'a> {
    fs: &'a Filesystem,
    dir: dwarfs_c_dir,
    finished: bool,
}

/// The entry that an ABI directory record describes: its name (empty for
/// a null name) and its classified type.
pub open spec fn entry_of(raw: dwarfs_c_dirent, e: DirEntry) -> bool {
    &&& e.file_type == FileType::spec_from_raw(raw.file_type)
    &&& e.name@ == match raw.name {
        Some(n) => n@,
        None => Seq::<char>::empty(),
    }
}

/// Whether `item` and `finished` are what one step of an unfinished
/// iterator gives for the library's reply: an entry record is yielded and
/// the iterator goes on; the end of the directory yields nothing and
/// finishes it; a failure yields the channel's error and finishes it.
pub open spec fn step_result(
    reply: Result<Option<dwarfs_c_dirent>, CallError>,
    item: Option<Result<DirEntry, DwarfsError>>,
    finished: bool,
) -> bool {
    match reply {
        Ok(Some(raw)) => !finished && (item matches Some(Ok(e)) && entry_of(raw, e)),
        Ok(None) => finished && item is None,
        Err(last) => finished && (item matches Some(Err(e)) && e.reports(last)),
    }
}

/// A directory entry carries the record's whole name, whatever its length,
/// and the record's classified type; a record without a name gives the
/// empty name.
pub proof fn entry_keeps_whole_name(raw: dwarfs_c_dirent, e: DirEntry)
    requires
        entry_of(raw, e),
    ensures
        raw.name matches Some(n) ==> e.name@.len() == n@.len() && forall|i: int|
            0 <= i < n@.len() ==> e.name@[i] == n@[i],
        raw.name is None ==> e.name@.len() == 0,
        raw.file_type == 1 ==> e.file_type == FileType::Regular,
        raw.file_type == 2 ==> e.file_type == FileType::Directory,
        raw.file_type == 3 ==> e.file_type == FileType::Symlink,
        raw.file_type == 4 ==> e.file_type == FileType::Other,
        !(1 <= raw.file_type <= 4) ==> e.file_type == FileType::Unknown,
{
}

/// One iterator step over an entry record yields that entry, with the
/// record's whole name, and leaves the iterator going; the end of the
/// directory and a failure both finish it.
pub proof fn step_yields_whole_entry(
    reply: Result<Option<dwarfs_c_dirent>, CallError>,
    item: Option<Result<DirEntry, DwarfsError>>,
    finished: bool,
)
    requires
        step_result(reply, item, finished),
    ensures
        reply matches Ok(Some(raw)) ==> !finished && (item matches Some(Ok(e)) && (raw.name matches Some(
            n,
        ) ==> e.name@ == n@)),
        reply matches Ok(None) ==> finished && item is None,
        reply is Err ==> finished && (item matches Some(Err(_))),
{
}

impl<'a> ReadDir<'a> {
    /// Whether the iterator is exhausted: every further call of
    /// [`ReadDir::next`] yields `None`.
    pub closed spec fn is_finished(&self) -> bool {
        self.finished
    }

    /// The library's directory handle behind this iterator.
    pub closed spec fn spec_dir(&self) -> dwarfs_c_dir {
        self.dir
    }

    /// A fresh iterator over the directory handle `dir`.
    pub fn new(fs: &'a Filesystem, dir: dwarfs_c_dir) -> (r: ReadDir<'a>)
        ensures
            !r.is_finished(),
            r.spec_dir() == dir,
    {
        ReadDir { fs, dir, finished: false }
    }

    /// The entry that an ABI directory record describes; a missing name
    /// reads as the empty string.
    pub fn entry_from_raw(raw: dwarfs_c_dirent) -> (e: DirEntry)
        ensures
            entry_of(raw, e),
            raw.name matches Some(n) ==> e.name@ == n@,
            raw.name is None ==> e.name@ == Seq::<char>::empty(),
            e.file_type == FileType::spec_from_raw(raw.file_type),
    {
        let ghost g = raw;
        let name = match raw.name {
            Some(n) => n,
            None => String::new(),
        };
        DirEntry { name, file_type: FileType::from_raw(raw.file_type) }
    }

    /// One step of an unfinished iterator for the library's reply to a
    /// readdir call: the item to yield and whether the iterator is then
    /// finished (see [`step_result`]).
    pub fn step(reply: Result<Option<dwarfs_c_dirent>, CallError>) -> (out: (
        Option<Result<DirEntry, DwarfsError>>,
        bool,
    ))
        ensures
            step_result(reply, out.0, out.1),
    {
        match reply {
            Ok(Some(raw)) => (Some(Ok(Self::entry_from_raw(raw))), false),
            Ok(None) => (None, true),
            Err(last) => (Some(Err(DwarfsError::from_last_error(last))), true),
        }
    }

    /// Advance the iterator.
    ///
    /// An exhausted iterator yields `None` and stays exhausted. Otherwise
    /// the library is asked for the next entry and its reply decides (see
    /// [`ReadDir::step`]): an entry is yielded as `Some(Ok(..))` and the
    /// iterator goes on; the end of the directory yields `None` and a
    /// failure `Some(Err(..))`, both exhausting the iterator. In this build
    /// the library is absent and the first call fails with `ENOTSUP`.
    pub fn next(&mut self) -> (r: Option<Result<DirEntry, DwarfsError>>)
        ensures
            old(self).is_finished() ==> r is None && final(self).is_finished(),
            !old(self).is_finished() ==> exists|
                reply: Result<Option<dwarfs_c_dirent>, CallError>,
            | step_result(reply, r, final(self).is_finished()),
            !old(self).is_finished() ==> (final(self).is_finished() <==> !(r matches Some(
                Ok(_),
            ))),
            final(self).spec_dir() == old(self).spec_dir(),
            !old(self).is_finished() ==> (r matches Some(Err(e)) && e.is_not_supported()
                && final(self).is_finished()),
    {
        if self.finished {
            return None;
        }
        let reply = abi::dwarfs_c_readdir(&mut self.dir);
        let ghost g = reply;
        let (item, finished) = Self::step(reply);
        self.finished = finished;
        assert(step_result(g, item, self.is_finished()));
        item
    }
}

} // verus!
