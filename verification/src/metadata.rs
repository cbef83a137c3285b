//! Stat-equivalent metadata and file type classification.

use vstd::prelude::*;

use crate::abi::{
    dwarfs_c_stat, DWARFS_C_FILE_DIRECTORY, DWARFS_C_FILE_OTHER, DWARFS_C_FILE_REGULAR,
    DWARFS_C_FILE_SYMLINK, DWARFS_C_FILE_UNKNOWN,
};

verus! {

/// File type classification (mirrors `dwarfs_c_file_type`).
#[derive(Debug, Clone, Copy, PartialEq, Eq, Hash, Structural)]
pub enum FileType {
    /// Type could not be determined.
    Unknown,
    /// Regular file.
    Regular,
    /// Directory.
    Directory,
    /// Symbolic link.
    Symlink,
    /// Device, fifo, socket, ...
    Other,
}

impl FileType {
    /// The file type that the ABI code `raw` denotes; codes outside the
    /// `DWARFS_C_FILE_*` constants denote `Unknown`.
    pub open spec fn spec_from_raw(raw: i32) -> FileType {
        if raw == DWARFS_C_FILE_REGULAR {
            FileType::Regular
        } else if raw == DWARFS_C_FILE_DIRECTORY {
            FileType::Directory
        } else if raw == DWARFS_C_FILE_SYMLINK {
            FileType::Symlink
        } else if raw == DWARFS_C_FILE_OTHER {
            FileType::Other
        } else {
            FileType::Unknown
        }
    }

    /// Classify an ABI file type code.
    pub fn from_raw(raw: i32) -> (t: FileType)
        ensures
            t == Self::spec_from_raw(raw),
    {
        if raw == DWARFS_C_FILE_REGULAR {
            FileType::Regular
        } else if raw == DWARFS_C_FILE_DIRECTORY {
            FileType::Directory
        } else if raw == DWARFS_C_FILE_SYMLINK {
            FileType::Symlink
        } else if raw == DWARFS_C_FILE_OTHER {
            FileType::Other
        } else if raw == DWARFS_C_FILE_UNKNOWN {
            FileType::Unknown
        } else {
            FileType::Unknown
        }
    }
}

/// Stat-equivalent information for a filesystem entry.
#[derive(Debug, Clone, PartialEq, Eq, Structural)]
pub struct Metadata {
    /// File size in bytes (regular files).
    pub size: u64,
    /// Modification time, seconds since the epoch.
    pub mtime: i64,
    /// Modification time, sub-second nanoseconds.
    pub mtime_nsec: i32,
    /// POSIX `st_mode` value (type and permission bits).
    pub mode: u32,
    /// Owner user id.
    pub uid: u32,
    /// Owner group id.
    pub gid: u32,
    /// Number of hard links.
    pub nlink: u32,
    /// File type.
    pub file_type: FileType,
}

impl Metadata {
    /// The metadata that the ABI record `raw` describes: a negative size
    /// reads as zero, every other field is taken as it is.
    pub open spec fn spec_from_raw(raw: dwarfs_c_stat) -> Metadata {
        Metadata {
            size: if raw.size < 0 { 0 } else { raw.size as u64 },
            mtime: raw.mtime,
            mtime_nsec: raw.mtime_nsec,
            mode: raw.mode,
            uid: raw.uid,
            gid: raw.gid,
            nlink: raw.nlink,
            file_type: FileType::spec_from_raw(raw.file_type),
        }
    }

    /// Convert an ABI stat record.
    pub fn from_raw(raw: &dwarfs_c_stat) -> (m: Metadata)
        ensures
            m == Self::spec_from_raw(*raw),
    {
        let size: u64 = if raw.size < 0 {
            0
        } else {
            raw.size as u64
        };
        Metadata {
            size,
            mtime: raw.mtime,
            mtime_nsec: raw.mtime_nsec,
            mode: raw.mode,
            uid: raw.uid,
            gid: raw.gid,
            nlink: raw.nlink,
            file_type: FileType::from_raw(raw.file_type),
        }
    }

    /// True for a regular file.
    pub fn is_file(&self) -> (b: bool)
        ensures
            b == (self.file_type == FileType::Regular),
    {
        self.file_type == FileType::Regular
    }

    /// True for a directory.
    pub fn is_dir(&self) -> (b: bool)
        ensures
            b == (self.file_type == FileType::Directory),
    {
        self.file_type == FileType::Directory
    }

    /// True for a symbolic link.
    pub fn is_symlink(&self) -> (b: bool)
        ensures
            b == (self.file_type == FileType::Symlink),
    {
        self.file_type == FileType::Symlink
    }
}

} // verus!
