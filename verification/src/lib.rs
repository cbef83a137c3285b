//! Safe access to DwarFS images — a fast, high-compression, read-only
//! file system — through the stable `libdwarfs_c` ABI.
//!
//! - open an image from a file, from memory, or from a file region
//! - look up entries and read their metadata ([`Filesystem::stat`])
//! - read file contents at an offset ([`Filesystem::pread`])
//! - iterate directories ([`Filesystem::read_dir`])
//! - query image-level metadata as JSON ([`Filesystem::image_info_json`])
//! - create images in-process ([`Writer`])
//!
//! All fallible operations return [`DwarfsError`], which carries the errno
//! value of the failure plus a message; [`DwarfsError::kind`] maps it to an
//! [`ErrorKind`].
//!
//! This build is the skeleton: no native library is linked, argument
//! checks still happen first, and every operation that needs the library
//! then fails with `ENOTSUP` ([`ErrorKind::NotSupported`]).
#![allow(non_camel_case_types)]

pub mod abi;
pub mod dir;
pub mod errno;
pub mod error;
pub mod fs;
pub mod metadata;
pub mod text;
pub mod writer;

pub use dir::{DirEntry, ReadDir};
pub use error::{DwarfsError, ErrorKind};
pub use fs::{Filesystem, OFFSET_AUTO};
pub use metadata::{FileType, Metadata};
pub use writer::{Compression, Writer, WriterOptions};

use vstd::prelude::*;

use crate::text::{has_nul, nul_free};

verus! {

/// Message of the error for a path that a C string cannot carry.
pub const NUL_PATH_MESSAGE: &'static str = "path contains an interior NUL byte";

/// Check a host filesystem path before it is handed to the C ABI: it must
/// not contain a NUL byte.
pub fn path_cstring(path: &str) -> (r: Result<&str, DwarfsError>)
    ensures
        !has_nul(path) ==> (r matches Ok(p) && p@ == path@),
        has_nul(path) ==> (r matches Err(e) && e.is_invalid_input_with(NUL_PATH_MESSAGE@)),
{
    if nul_free(path) {
        Ok(path)
    } else {
        Err(DwarfsError::invalid_input(NUL_PATH_MESSAGE))
    }
}

/// Check an in-image lookup path before it is handed to the C ABI: it must
/// not contain a NUL byte.
pub fn lookup_cstring(path: &str) -> (r: Result<&str, DwarfsError>)
    ensures
        !has_nul(path) ==> (r matches Ok(p) && p@ == path@),
        has_nul(path) ==> (r matches Err(e) && e.is_invalid_input_with(NUL_PATH_MESSAGE@)),
{
    if nul_free(path) {
        Ok(path)
    } else {
        Err(DwarfsError::invalid_input(NUL_PATH_MESSAGE))
    }
}

} // verus!
