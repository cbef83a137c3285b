//! The [`Filesystem`] handle — an opened DwarFS image.

use vstd::prelude::*;

use crate::abi::{
    self, dwarfs_c_dir, dwarfs_c_filesystem, dwarfs_c_stat, CallError, DWARFS_C_OFFSET_AUTO,
    SKELETON_VERSION,
};
use crate::dir::ReadDir;
use crate::error::DwarfsError;
use crate::metadata::{FileType, Metadata};
use crate::text::has_nul;
use crate::{lookup_cstring, path_cstring, NUL_PATH_MESSAGE};

verus! {

/// Pass as `offset` to [`Filesystem::open_region`] to auto-detect the image
/// start inside the container file.
pub const OFFSET_AUTO: i64 = DWARFS_C_OFFSET_AUTO;

/// Message of the error for a zero region length.
pub const ZERO_LENGTH_MESSAGE: &'static str = "length must be positive";

/// Message of the error for a negative region offset other than [`OFFSET_AUTO`].
pub const BAD_OFFSET_MESSAGE: &'static str = "offset must be >= 0 or OFFSET_AUTO";

/// Message of the error for a region length beyond `i64::MAX`.
pub const LENGTH_RANGE_MESSAGE: &'static str = "length does not fit into i64";

/// Message of the error for an empty memory image.
pub const EMPTY_DATA_MESSAGE: &'static str = "data must not be empty";

/// Message of the error for a negative read offset.
pub const NEGATIVE_OFFSET_MESSAGE: &'static str = "offset must not be negative";

/// The text that [`Filesystem::version_string`] falls back to when the
/// library reports no version string.
pub const UNKNOWN_VERSION: &'static str = "unknown";

/// An opened DwarFS filesystem image.
///
/// Created by [`Filesystem::open`], [`Filesystem::open_memory`] or
/// [`Filesystem::open_region`]. All operations are read-only.
#[derive(Debug)]
pub struct Filesystem {
    handle: dwarfs_c_filesystem,
    /// Owned copy of the image for `open_memory` (the C ABI borrows the
    /// buffer; the copy keeps the safe API free of lifetimes).
    memory: Option<Vec<u8>>,
}

/// The outcome that [`Filesystem::open_region`] owes for its arguments:
/// the first argument check that fails, in the order length, offset,
/// path, length range; `None` when all pass.
pub open spec fn region_argument_error(path: &str, offset: i64, length: u64) -> Option<
    Seq<char>,
> {
    if length == 0 {
        Some(ZERO_LENGTH_MESSAGE@)
    } else if offset < 0 && offset != OFFSET_AUTO {
        Some(BAD_OFFSET_MESSAGE@)
    } else if has_nul(path) {
        Some(NUL_PATH_MESSAGE@)
    } else if length > i64::MAX {
        Some(LENGTH_RANGE_MESSAGE@)
    } else {
        None
    }
}

/// Whether `r` is what opening gives for the library's reply `handle`
/// with the image copy `memory`: a filesystem over that handle keeping the
/// copy, or the error that the error channel reports.
pub open spec fn open_result(
    handle: Result<dwarfs_c_filesystem, CallError>,
    memory: Option<Seq<u8>>,
    r: Result<Filesystem, DwarfsError>,
) -> bool {
    match handle {
        Ok(h) => r matches Ok(fs) && fs.spec_handle() == h && fs.spec_image_copy() == memory,
        Err(last) => r matches Err(e) && e.reports(last),
    }
}

/// Whether `r` is what `stat` gives for the library's reply: the metadata
/// of the stat record, or the error that the error channel reports.
pub open spec fn stat_result(
    reply: Result<dwarfs_c_stat, CallError>,
    r: Result<Metadata, DwarfsError>,
) -> bool {
    match reply {
        Ok(raw) => r == Ok::<Metadata, DwarfsError>(Metadata::spec_from_raw(raw)),
        Err(last) => r matches Err(e) && e.reports(last),
    }
}

/// Whether `r` is what `pread` gives for the library's reply: the number
/// of bytes read, or the error that the error channel reports.
pub open spec fn pread_result(reply: Result<i64, CallError>, r: Result<usize, DwarfsError>) -> bool {
    match reply {
        Ok(n) => r == Ok::<usize, DwarfsError>(n as usize),
        Err(last) => r matches Err(e) && e.reports(last),
    }
}

/// The metadata for a stat record keeps every field of the record: the
/// owner ids, mode, link count and times unchanged, the size unchanged
/// (a negative size reads as 0), and the type classified.
pub proof fn stat_keeps_record_fields(raw: dwarfs_c_stat, r: Result<Metadata, DwarfsError>)
    requires
        stat_result(Ok(raw), r),
    ensures
        r matches Ok(m) && m.uid == raw.uid && m.gid == raw.gid && m.mode == raw.mode && m.nlink
            == raw.nlink && m.mtime == raw.mtime && m.mtime_nsec == raw.mtime_nsec && m.size as int
            == (if raw.size < 0 { 0 } else { raw.size as int }) && m.file_type
            == FileType::spec_from_raw(raw.file_type),
{
}

/// A read reports the library's count itself, with no cap: every count
/// that fits in `usize` comes back unchanged.
pub proof fn pread_reports_whole_count(n: i64, r: Result<usize, DwarfsError>)
    requires
        pread_result(Ok(n), r),
        0 <= n <= usize::MAX,
    ensures
        r matches Ok(c) && c as int == n as int,
{
}

/// A region with a positive length that fits in `i64`, a path without NUL
/// bytes, and an offset that is either non-negative or `OFFSET_AUTO` passes
/// every argument check, whatever the offset is compared with the length.
pub proof fn region_arguments_accepted(path: &str, offset: i64, length: u64)
    requires
        0 < length <= i64::MAX,
        offset >= 0 || offset == OFFSET_AUTO,
        !has_nul(path),
    ensures
        region_argument_error(path, offset, length) is None,
{
}

/// Only a zero length, a negative offset other than `OFFSET_AUTO`, a path
/// with a NUL byte, or a length beyond `i64::MAX` is refused.
pub proof fn region_refusals_have_a_cause(path: &str, offset: i64, length: u64)
    requires
        region_argument_error(path, offset, length) is Some,
    ensures
        length == 0 || (offset < 0 && offset != OFFSET_AUTO) || has_nul(path) || length
            > i64::MAX,
{
}

impl Filesystem {
    /// The library handle of this filesystem.
    pub closed spec fn spec_handle(&self) -> dwarfs_c_filesystem {
        self.handle
    }

    /// The copy of the image that this filesystem keeps (for images opened
    /// from memory), `None` when it keeps none.
    pub closed spec fn spec_image_copy(&self) -> Option<Seq<u8>> {
        match self.memory {
            Some(v) => Some(v@),
            None => None,
        }
    }

    /// Wrap the library's reply to an open call, keeping `memory` alive
    /// with the handle.
    pub fn from_raw(handle: Result<dwarfs_c_filesystem, CallError>, memory: Option<Vec<u8>>) -> (r:
        Result<Self, DwarfsError>)
        ensures
            open_result(
                handle,
                match memory {
                    Some(v) => Some(v@),
                    None => None,
                },
                r,
            ),
    {
        match handle {
            Ok(handle) => Ok(Filesystem { handle, memory }),
            Err(last) => Err(DwarfsError::from_last_error(last)),
        }
    }

    /// Open a DwarFS image from a file.
    ///
    /// A path with an interior NUL byte is refused with `EINVAL`; otherwise
    /// the library's reply decides (see [`open_result`]), which in this
    /// build is a failure with `ENOTSUP`.
    pub fn open(path: &str) -> (r: Result<Self, DwarfsError>)
        ensures
            has_nul(path) ==> (r matches Err(e) && e.is_invalid_input_with(NUL_PATH_MESSAGE@)),
            !has_nul(path) ==> exists|handle: Result<dwarfs_c_filesystem, CallError>|
                open_result(handle, None, r),
            !has_nul(path) ==> (r matches Err(e) && e.is_not_supported()),
    {
        let path = match path_cstring(path) {
            Ok(p) => p,
            Err(e) => return Err(e),
        };
        let handle = abi::dwarfs_c_open(path);
        let ghost reply = handle;
        let r = Self::from_raw(handle, None);
        assert(open_result(reply, None, r));
        r
    }

    /// Open a DwarFS image from a region of a file — for images embedded at
    /// an offset inside a larger file (e.g. self-extracting stubs).
    ///
    /// `offset` is a byte offset, or [`OFFSET_AUTO`] to auto-detect the
    /// image start. `length` is the image length in bytes and must be > 0.
    /// The arguments are checked first (see [`region_argument_error`]);
    /// then the library's reply decides (see [`open_result`]), which in
    /// this build is a failure with `ENOTSUP`.
    pub fn open_region(path: &str, offset: i64, length: u64) -> (r: Result<Self, DwarfsError>)
        ensures
            region_argument_error(path, offset, length) matches Some(m) ==> (r matches Err(e)
                && e.is_invalid_input_with(m)),
            region_argument_error(path, offset, length) is None ==> exists|
                handle: Result<dwarfs_c_filesystem, CallError>,
            | open_result(handle, None, r),
            region_argument_error(path, offset, length) is None ==> (r matches Err(e)
                && e.is_not_supported()),
            length > 0 && (offset >= 0 || offset == OFFSET_AUTO) && !has_nul(path) && length
                <= i64::MAX ==> (r matches Err(e) && e.is_not_supported()),
    {
        if length == 0 {
            return Err(DwarfsError::invalid_input(ZERO_LENGTH_MESSAGE));
        }
        if offset < 0 && offset != OFFSET_AUTO {
            return Err(DwarfsError::invalid_input(BAD_OFFSET_MESSAGE));
        }
        let path = match path_cstring(path) {
            Ok(p) => p,
            Err(e) => return Err(e),
        };
        if length > i64::MAX as u64 {
            return Err(DwarfsError::invalid_input(LENGTH_RANGE_MESSAGE));
        }
        let length = length as i64;
        let handle = abi::dwarfs_c_open_region(path, offset, length);
        let ghost reply = handle;
        let r = Self::from_raw(handle, None);
        assert(open_result(reply, None, r));
        r
    }

    /// Open a DwarFS image from a memory buffer.
    ///
    /// The buffer is **copied**; the caller's slice may be dropped
    /// immediately, and a filesystem opened this way keeps the copy. An
    /// empty buffer is refused with `EINVAL`; otherwise the library's reply
    /// decides (see [`open_result`]), which in this build is a failure with
    /// `ENOTSUP`.
    pub fn open_memory(data: &[u8]) -> (r: Result<Self, DwarfsError>)
        ensures
            data@.len() == 0 ==> (r matches Err(e) && e.is_invalid_input_with(
                EMPTY_DATA_MESSAGE@,
            )),
            data@.len() != 0 ==> exists|handle: Result<dwarfs_c_filesystem, CallError>|
                open_result(handle, Some(data@), r),
            data@.len() != 0 ==> (r matches Err(e) && e.is_not_supported()),
    {
        if data.len() == 0 {
            return Err(DwarfsError::invalid_input(EMPTY_DATA_MESSAGE));
        }
        let owned = vstd::slice::slice_to_vec(data);
        let handle = abi::dwarfs_c_open_memory(owned.as_slice());
        let ghost reply = handle;
        let r = Self::from_raw(handle, Some(owned));
        assert(open_result(reply, Some(data@), r));
        r
    }

    /// The metadata for the library's reply to a stat call: the converted
    /// stat record, or the error that the error channel reports.
    pub fn stat_from_reply(reply: Result<dwarfs_c_stat, CallError>) -> (r: Result<
        Metadata,
        DwarfsError,
    >)
        ensures
            stat_result(reply, r),
            reply matches Ok(raw) ==> (r matches Ok(m) && m.uid == raw.uid && m.gid == raw.gid
                && m.mode == raw.mode && m.nlink == raw.nlink && m.mtime == raw.mtime
                && m.mtime_nsec == raw.mtime_nsec && (raw.size >= 0 ==> m.size == raw.size)
                && (raw.size < 0 ==> m.size == 0) && m.file_type == FileType::spec_from_raw(
                raw.file_type,
            )),
    {
        match reply {
            Ok(raw) => Ok(Metadata::from_raw(&raw)),
            Err(last) => Err(DwarfsError::from_last_error(last)),
        }
    }

    /// Look up an entry by path and return its stat-equivalent metadata.
    ///
    /// Paths are relative to the filesystem root; a leading `/` is accepted
    /// and ignored. A path with an interior NUL byte is refused with
    /// `EINVAL`; otherwise the library's reply decides (see
    /// [`Filesystem::stat_from_reply`]), which in this build is a failure
    /// with `ENOTSUP`.
    pub fn stat(&self, path: &str) -> (r: Result<Metadata, DwarfsError>)
        ensures
            has_nul(path) ==> (r matches Err(e) && e.is_invalid_input_with(NUL_PATH_MESSAGE@)),
            !has_nul(path) ==> exists|reply: Result<dwarfs_c_stat, CallError>|
                stat_result(reply, r),
            !has_nul(path) ==> (r matches Err(e) && e.is_not_supported()),
    {
        let path = match lookup_cstring(path) {
            Ok(p) => p,
            Err(e) => return Err(e),
        };
        let reply = abi::dwarfs_c_stat(&self.handle, path);
        let ghost g = reply;
        let r = Self::stat_from_reply(reply);
        assert(stat_result(g, r));
        r
    }

    /// The byte count for the library's reply to a read: the count it
    /// reports, or the error that the error channel reports.
    pub fn pread_from_reply(reply: Result<i64, CallError>) -> (r: Result<usize, DwarfsError>)
        ensures
            pread_result(reply, r),
            reply matches Ok(n) ==> r == Ok::<usize, DwarfsError>(n as usize),
    {
        match reply {
            Ok(n) => Ok(n as usize),
            Err(last) => Err(DwarfsError::from_last_error(last)),
        }
    }

    /// Read from a regular file at a given offset (pread primitive).
    ///
    /// A negative offset is refused with `EINVAL`, then a path with an
    /// interior NUL byte; otherwise the library's reply decides (see
    /// [`Filesystem::pread_from_reply`]): a count never beyond the buffer's
    /// length, or the channel's error. In this build the library is absent:
    /// the read fails with `ENOTSUP` and the buffer is left as it was.
    pub fn pread(&self, path: &str, buf: &mut [u8], offset: i64) -> (r: Result<usize, DwarfsError>)
        ensures
            offset < 0 ==> (r matches Err(e) && e.is_invalid_input_with(
                NEGATIVE_OFFSET_MESSAGE@,
            )),
            offset >= 0 && has_nul(path) ==> (r matches Err(e) && e.is_invalid_input_with(
                NUL_PATH_MESSAGE@,
            )),
            offset >= 0 && !has_nul(path) ==> exists|reply: Result<i64, CallError>|
                pread_result(reply, r),
            r matches Ok(n) ==> n <= old(buf)@.len(),
            offset >= 0 && !has_nul(path) ==> (r matches Err(e) && e.is_not_supported()),
            final(buf)@ == old(buf)@,
    {
        if offset < 0 {
            return Err(DwarfsError::invalid_input(NEGATIVE_OFFSET_MESSAGE));
        }
        let path = match lookup_cstring(path) {
            Ok(p) => p,
            Err(e) => return Err(e),
        };
        let reply = abi::dwarfs_c_pread(&self.handle, path, buf, offset);
        let ghost g = reply;
        let r = Self::pread_from_reply(reply);
        assert(pread_result(g, r));
        r
    }

    /// The directory iterator for the library's reply to an opendir call:
    /// a fresh iterator over the returned handle, or the error that the
    /// error channel reports.
    pub fn dir_from_reply(&self, reply: Result<dwarfs_c_dir, CallError>) -> (r: Result<
        ReadDir<'_>,
        DwarfsError,
    >)
        ensures
            reply matches Ok(dir) ==> (r matches Ok(rd) && rd.spec_dir() == dir
                && !rd.is_finished()),
            reply matches Err(last) ==> (r matches Err(e) && e.reports(last)),
    {
        match reply {
            Ok(dir) => Ok(ReadDir::new(self, dir)),
            Err(last) => Err(DwarfsError::from_last_error(last)),
        }
    }

    /// Open a directory for iteration.
    ///
    /// A path with an interior NUL byte is refused with `EINVAL`; otherwise
    /// the library's reply decides (see [`Filesystem::dir_from_reply`]):
    /// a fresh, unfinished iterator or the channel's error. In this build
    /// the call fails with `ENOTSUP`.
    pub fn read_dir(&self, path: &str) -> (r: Result<ReadDir<'_>, DwarfsError>)
        ensures
            has_nul(path) ==> (r matches Err(e) && e.is_invalid_input_with(NUL_PATH_MESSAGE@)),
            r matches Ok(rd) ==> !rd.is_finished(),
            !has_nul(path) ==> (r matches Err(e) && e.is_not_supported()),
    {
        let path = match lookup_cstring(path) {
            Ok(p) => p,
            Err(e) => return Err(e),
        };
        let reply = abi::dwarfs_c_opendir(&self.handle, path);
        self.dir_from_reply(reply)
    }

    /// Image-level metadata as a JSON string: the library's text as it is,
    /// or the channel's error; in this build the library is absent and the
    /// call fails with `ENOTSUP`.
    pub fn image_info_json(&self) -> (r: Result<String, DwarfsError>)
        ensures
            r matches Err(e) && e.is_not_supported(),
    {
        DwarfsError::from_reply(abi::dwarfs_c_image_info_json(&self.handle))
    }

    /// The library version as a single integer:
    /// `major * 10000 + minor * 100 + patch`; 0 in this build.
    pub fn version() -> (v: i32)
        ensures
            v == 0,
    {
        abi::dwarfs_c_version()
    }

    /// The library version string (e.g. the git description), or
    /// `"unknown"` when the library reports none.
    pub fn version_string() -> (s: &'static str)
        ensures
            s@ == SKELETON_VERSION@,
    {
        match abi::dwarfs_c_version_string() {
            Some(s) => s,
            None => UNKNOWN_VERSION,
        }
    }
}

} // verus!
