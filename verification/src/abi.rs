//! The `libdwarfs_c` ABI surface: its handle types, plain data structs,
//! constants and entry points.
//!
//! This build links no native library. Every entry point is the skeleton
//! of the ABI: a call that would fail reports `ENOTSUP` through the error
//! channel and returns the failure value; the pure data initialization
//! (`dwarfs_c_writer_options_init`) is implemented for real.
//!
//! The C ABI reports failures through a thread-local error channel that
//! the caller reads right after the failing call. Here a failing call
//! returns that channel's content directly, as a [`CallError`].

use vstd::prelude::*;

use crate::errno::{errno_enotsup, libc_errno, ErrnoCode};

verus! {

/// `dwarfs_c_file_type`: type could not be determined.
pub const DWARFS_C_FILE_UNKNOWN: i32 = 0;
/// `dwarfs_c_file_type`: regular file.
pub const DWARFS_C_FILE_REGULAR: i32 = 1;
/// `dwarfs_c_file_type`: directory.
pub const DWARFS_C_FILE_DIRECTORY: i32 = 2;
/// `dwarfs_c_file_type`: symbolic link.
pub const DWARFS_C_FILE_SYMLINK: i32 = 3;
/// `dwarfs_c_file_type`: device, fifo, socket, ...
pub const DWARFS_C_FILE_OTHER: i32 = 4;

/// Pass as offset to [`dwarfs_c_open_region`] to auto-detect the image start.
pub const DWARFS_C_OFFSET_AUTO: i64 = -1;

/// The ABI version these declarations pin.
pub const DWARFS_C_ABI_VERSION: i32 = 1;

/// `dwarfs_c_compression`: store blocks uncompressed ("null").
pub const DWARFS_C_COMPRESSION_NONE: i32 = 0;
/// `dwarfs_c_compression`: Zstandard (mkdwarfs default).
pub const DWARFS_C_COMPRESSION_ZSTD: i32 = 1;
/// `dwarfs_c_compression`: LZMA.
pub const DWARFS_C_COMPRESSION_LZMA: i32 = 2;
/// `dwarfs_c_compression`: Brotli.
pub const DWARFS_C_COMPRESSION_BROTLI: i32 = 3;

/// Current version of the [`dwarfs_c_writer_options`] layout.
pub const DWARFS_C_WRITER_OPTIONS_VERSION: u32 = 1;

/// The message that every failure of this build reports.
pub const SKELETON_MESSAGE: &'static str =
    "dwarfs-t-sys skeleton build: the `vendored` feature is disabled, no native library is linked";

/// The version string that this build reports.
pub const SKELETON_VERSION: &'static str = "0.0.0-skeleton";

/// Opaque filesystem handle (`struct dwarfs_c_filesystem`).
#[derive(Debug)]
pub struct dwarfs_c_filesystem {
    _opaque: (),
}

/// Opaque directory iterator handle (`struct dwarfs_c_dir`).
#[derive(Debug)]
pub struct dwarfs_c_dir {
    _opaque: (),
}

/// Opaque writer handle (`struct dwarfs_c_writer`).
#[derive(Debug)]
pub struct dwarfs_c_writer {
    _opaque: (),
}

/// Stat-equivalent information for a filesystem entry (`struct dwarfs_c_stat`).
#[derive(Clone, Copy, Debug, PartialEq, Eq, Structural)]
pub struct dwarfs_c_stat {
    /// File size in bytes (regular files).
    pub size: i64,
    /// Modification time, seconds since the epoch.
    pub mtime: i64,
    /// Modification time, sub-second nanoseconds.
    pub mtime_nsec: i32,
    /// POSIX `st_mode` value (type and permission bits).
    pub mode: u32,
    /// Owner user id.
    pub uid: u32,
    /// Owner group id.
    pub gid: u32,
    /// Number of hard links.
    pub nlink: u32,
    /// One of the `DWARFS_C_FILE_*` constants.
    pub file_type: i32,
}

/// Directory entry produced by [`dwarfs_c_readdir`] (`struct dwarfs_c_dirent`).
#[derive(Clone, Debug, PartialEq, Eq)]
pub struct dwarfs_c_dirent {
    /// Entry name; `None` where the ABI hands out a null name.
    pub name: Option<String>,
    /// One of the `DWARFS_C_FILE_*` constants.
    pub file_type: i32,
}

/// Writer options (`struct dwarfs_c_writer_options`).
#[derive(Clone, Copy, Debug, PartialEq, Eq, Structural)]
pub struct dwarfs_c_writer_options {
    /// `DWARFS_C_WRITER_OPTIONS_VERSION`.
    pub struct_version: u32,
    /// One of the `DWARFS_C_COMPRESSION_*` constants.
    pub compression: i32,
    /// Algorithm-native level; -1 = the mkdwarfs default per algorithm.
    pub compression_level: i32,
    /// log2 of the block size (10..30); 0 = mkdwarfs default (24).
    pub block_size_bits: u32,
    /// 0 = off (mkdwarfs default); 1 = the "pcmaudio" categorizer.
    pub enable_categorizer: i32,
    /// Worker threads for scanning and compression; 0 = one per CPU.
    pub num_workers: u32,
}

/// The content of the error channel after a failed ABI call: what
/// `dwarfs_c_errno` and `dwarfs_c_error_message` report right after it.
#[derive(Clone, Debug, PartialEq, Eq)]
pub struct CallError {
    /// The `errno.h` code of the failure.
    pub errno: i32,
    /// The human-readable message; `None` where the ABI hands out a null
    /// pointer.
    pub message: Option<String>,
}

/// The message text of the error channel: empty for a null message.
pub open spec fn channel_message(last: CallError) -> Seq<char> {
    match last.message {
        Some(m) => m@,
        None => Seq::empty(),
    }
}

/// Whether `last` is the error channel's content after a failure of this
/// build: `ENOTSUP` with the build's fixed message.
pub open spec fn is_not_supported_reply(last: CallError) -> bool {
    &&& last.errno == libc_errno(ErrnoCode::NotSup)
    &&& channel_message(last) == SKELETON_MESSAGE@
}

/// The writer options that `dwarfs_c_writer_options_init` produces: the
/// mkdwarfs defaults profile, version-stamped.
pub open spec fn spec_default_writer_options() -> dwarfs_c_writer_options {
    dwarfs_c_writer_options {
        struct_version: DWARFS_C_WRITER_OPTIONS_VERSION,
        compression: DWARFS_C_COMPRESSION_ZSTD,
        compression_level: -1i32,
        block_size_bits: 0,
        enable_categorizer: 0,
        num_workers: 0,
    }
}

/// Records `ENOTSUP` in the error channel and returns the channel's content.
fn fail_not_supported() -> (e: CallError)
    ensures
        is_not_supported_reply(e),
{
    CallError { errno: errno_enotsup(), message: Some(dwarfs_c_error_message()) }
}

/// Human-readable message of the last failed call.
pub fn dwarfs_c_error_message() -> (m: String)
    ensures
        m@ == SKELETON_MESSAGE@,
{
    String::from_str(SKELETON_MESSAGE)
}

/// Message describing an errno-style error code.
pub fn dwarfs_c_strerror(err: i32) -> (m: String)
    ensures
        m@ == SKELETON_MESSAGE@,
{
    String::from_str(SKELETON_MESSAGE)
}

/// Library version as `major * 10000 + minor * 100 + patch`.
pub fn dwarfs_c_version() -> (v: i32)
    ensures
        v == 0,
{
    0
}

/// The library version string; `None` where the ABI hands out a null pointer.
pub fn dwarfs_c_version_string() -> (s: Option<&'static str>)
    ensures
        s matches Some(s) && s@ == SKELETON_VERSION@,
{
    Some(SKELETON_VERSION)
}

/// The ABI version of the library.
pub fn dwarfs_c_abi_version() -> (v: i32)
    ensures
        v == DWARFS_C_ABI_VERSION,
{
    DWARFS_C_ABI_VERSION
}

/// Open a DwarFS image from a file.
pub fn dwarfs_c_open(path: &str) -> (r: Result<dwarfs_c_filesystem, CallError>)
    ensures
        r matches Err(e) && is_not_supported_reply(e),
{
    Err(fail_not_supported())
}

/// Open a DwarFS image from a region of a file.
pub fn dwarfs_c_open_region(path: &str, offset: i64, length: i64) -> (r: Result<
    dwarfs_c_filesystem,
    CallError,
>)
    ensures
        r matches Err(e) && is_not_supported_reply(e),
{
    Err(fail_not_supported())
}

/// Open a DwarFS image from a memory buffer.
pub fn dwarfs_c_open_memory(data: &[u8]) -> (r: Result<dwarfs_c_filesystem, CallError>)
    ensures
        r matches Err(e) && is_not_supported_reply(e),
{
    Err(fail_not_supported())
}

/// Close a filesystem handle; this build holds no native resources for it.
pub fn dwarfs_c_close(fs: dwarfs_c_filesystem) {
}

/// Look up an entry by path (lstat semantics; leading `/` accepted).
pub fn dwarfs_c_stat(fs: &dwarfs_c_filesystem, path: &str) -> (r: Result<dwarfs_c_stat, CallError>)
    ensures
        r matches Err(e) && is_not_supported_reply(e),
{
    Err(fail_not_supported())
}

/// Read from a regular file at a given offset into `buf`; on success the
/// number of bytes read, which is never negative and never more than the
/// buffer holds.
pub fn dwarfs_c_pread(fs: &dwarfs_c_filesystem, path: &str, buf: &mut [u8], offset: i64) -> (r:
    Result<i64, CallError>)
    ensures
        r matches Err(e) && is_not_supported_reply(e),
        r matches Ok(n) ==> 0 <= n <= old(buf)@.len(),
        final(buf)@ == old(buf)@,
{
    Err(fail_not_supported())
}

/// Open a directory for iteration.
pub fn dwarfs_c_opendir(fs: &dwarfs_c_filesystem, path: &str) -> (r: Result<dwarfs_c_dir, CallError>)
    ensures
        r matches Err(e) && is_not_supported_reply(e),
{
    Err(fail_not_supported())
}

/// Fetch the next directory entry: `Some` for an entry, `None` at the end
/// of the directory.
pub fn dwarfs_c_readdir(dir: &mut dwarfs_c_dir) -> (r: Result<Option<dwarfs_c_dirent>, CallError>)
    ensures
        r matches Err(e) && is_not_supported_reply(e),
        *final(dir) == *old(dir),
{
    Err(fail_not_supported())
}

/// Close a directory iterator; this build holds no native resources for it.
pub fn dwarfs_c_closedir(dir: dwarfs_c_dir) {
}

/// Image-level metadata as a JSON string.
pub fn dwarfs_c_image_info_json(fs: &dwarfs_c_filesystem) -> (r: Result<String, CallError>)
    ensures
        r matches Err(e) && is_not_supported_reply(e),
{
    Err(fail_not_supported())
}

/// Writer options set to the mkdwarfs defaults profile, version-stamped.
pub fn dwarfs_c_writer_options_init() -> (opts: dwarfs_c_writer_options)
    ensures
        opts == spec_default_writer_options(),
{
    dwarfs_c_writer_options {
        struct_version: DWARFS_C_WRITER_OPTIONS_VERSION,
        compression: DWARFS_C_COMPRESSION_ZSTD,
        compression_level: -1,
        block_size_bits: 0,
        enable_categorizer: 0,
        num_workers: 0,
    }
}

/// Create a writer.
pub fn dwarfs_c_writer_create(opts: &dwarfs_c_writer_options) -> (r: Result<
    dwarfs_c_writer,
    CallError,
>)
    ensures
        r matches Err(e) && is_not_supported_reply(e),
{
    Err(fail_not_supported())
}

/// Add a whole directory tree to the image.
pub fn dwarfs_c_writer_add_tree(w: &mut dwarfs_c_writer, host_path: &str, image_prefix: &str) -> (r:
    Result<(), CallError>)
    ensures
        r matches Err(e) && is_not_supported_reply(e),
        *final(w) == *old(w),
{
    Err(fail_not_supported())
}

/// Add a single file at the image root.
pub fn dwarfs_c_writer_add_file(w: &mut dwarfs_c_writer, host_path: &str, image_path: &str) -> (r:
    Result<(), CallError>)
    ensures
        r matches Err(e) && is_not_supported_reply(e),
        *final(w) == *old(w),
{
    Err(fail_not_supported())
}

/// Write the image to `out_path`.
pub fn dwarfs_c_writer_write(w: &mut dwarfs_c_writer, out_path: &str) -> (r: Result<(), CallError>)
    ensures
        r matches Err(e) && is_not_supported_reply(e),
        *final(w) == *old(w),
{
    Err(fail_not_supported())
}

/// Release a writer handle; this build holds no native resources for it.
pub fn dwarfs_c_writer_free(w: dwarfs_c_writer) {
}

} // verus!
