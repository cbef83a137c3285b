//! Error type for the safe wrapper, mapping the C ABI's errno channel.

use vstd::prelude::*;

use crate::abi::{channel_message, CallError, SKELETON_MESSAGE};
use crate::errno::{
    errno_einval, errno_eio, errno_enoent, errno_enomem, errno_enotdir, errno_enotsup,
    errno_eisdir, libc_errno, ErrnoCode,
};
use crate::text::{decimal_i32, decimal_int};

verus! {

/// Coarse classification of a [`DwarfsError`], mapped from the errno value.
#[derive(Debug, Clone, Copy, PartialEq, Eq, Structural)]
pub enum ErrorKind {
    /// `ENOENT` — the image file or the looked-up path does not exist.
    NotFound,
    /// `EISDIR` — attempted to read a directory as a file.
    IsADirectory,
    /// `ENOTDIR` — attempted to list a non-directory.
    NotADirectory,
    /// `EINVAL` — bad arguments (null/empty path, negative offset, ...).
    InvalidInput,
    /// `ENOMEM` — allocation failure inside the library.
    OutOfMemory,
    /// `EIO` — image parse/read failure (the message carries details).
    Io,
    /// `ENOTSUP` — the operation is not supported by this build; reported
    /// for every operation that needs the native library, which this build
    /// does not link.
    NotSupported,
    /// Any other errno value.
    Other(i32),
}

/// The classification of `errno`: the first of the seven known codes that
/// it equals, else `Other(errno)`.
pub open spec fn kind_of_errno(errno: i32) -> ErrorKind {
    if errno == libc_errno(ErrnoCode::NoEnt) {
        ErrorKind::NotFound
    } else if errno == libc_errno(ErrnoCode::IsDir) {
        ErrorKind::IsADirectory
    } else if errno == libc_errno(ErrnoCode::NotDir) {
        ErrorKind::NotADirectory
    } else if errno == libc_errno(ErrnoCode::Inval) {
        ErrorKind::InvalidInput
    } else if errno == libc_errno(ErrnoCode::NoMem) {
        ErrorKind::OutOfMemory
    } else if errno == libc_errno(ErrnoCode::Io) {
        ErrorKind::Io
    } else if errno == libc_errno(ErrnoCode::NotSup) {
        ErrorKind::NotSupported
    } else {
        ErrorKind::Other(errno)
    }
}

/// The short description of a kind, as it opens an error's display text.
pub open spec fn kind_text(kind: ErrorKind) -> Seq<char> {
    match kind {
        ErrorKind::NotFound => "not found"@,
        ErrorKind::IsADirectory => "is a directory"@,
        ErrorKind::NotADirectory => "not a directory"@,
        ErrorKind::InvalidInput => "invalid input"@,
        ErrorKind::OutOfMemory => "out of memory"@,
        ErrorKind::Io => "i/o error"@,
        ErrorKind::NotSupported => "not supported"@,
        ErrorKind::Other(e) => "error "@ + decimal_int(e as int),
    }
}

/// The display text of an error with `errno` and `message`:
/// `"{kind} (errno {errno})"` without a message,
/// `"{kind} ({errno}: {message})"` with one.
pub open spec fn display_text(errno: i32, message: Seq<char>) -> Seq<char> {
    if message.len() == 0 {
        kind_text(kind_of_errno(errno)) + " (errno "@ + decimal_int(errno as int) + ")"@
    } else {
        kind_text(kind_of_errno(errno)) + " ("@ + decimal_int(errno as int) + ": "@ + message
            + ")"@
    }
}

/// An errno value is classified as `Other` exactly when it is none of the
/// seven known codes, and the `Other` classification keeps the value.
pub proof fn other_kind_keeps_errno(errno: i32)
    ensures
        kind_of_errno(errno) matches ErrorKind::Other(e) ==> e == errno,
        (kind_of_errno(errno) is Other) == (errno != libc_errno(ErrnoCode::NoEnt) && errno
            != libc_errno(ErrnoCode::IsDir) && errno != libc_errno(ErrnoCode::NotDir) && errno
            != libc_errno(ErrnoCode::Inval) && errno != libc_errno(ErrnoCode::NoMem) && errno
            != libc_errno(ErrnoCode::Io) && errno != libc_errno(ErrnoCode::NotSup)),
{
}

/// Whether `r` is what the library's reply gives when there is nothing to
/// convert: the value as it is, or the error that the error channel reports.
pub open spec fn reply_result<T>(reply: Result<T, CallError>, r: Result<T, DwarfsError>) -> bool {
    match reply {
        Ok(v) => r == Ok::<T, DwarfsError>(v),
        Err(last) => r matches Err(e) && e.reports(last),
    }
}

impl ErrorKind {
    /// Classify an errno value.
    pub fn from_errno(errno: i32) -> (kind: ErrorKind)
        ensures
            kind == kind_of_errno(errno),
            errno == libc_errno(ErrnoCode::NoEnt) ==> kind == ErrorKind::NotFound,
            errno == libc_errno(ErrnoCode::IsDir) ==> kind == ErrorKind::IsADirectory,
            errno == libc_errno(ErrnoCode::NotDir) ==> kind == ErrorKind::NotADirectory,
            errno == libc_errno(ErrnoCode::Inval) ==> kind == ErrorKind::InvalidInput,
            errno == libc_errno(ErrnoCode::NoMem) ==> kind == ErrorKind::OutOfMemory,
            errno == libc_errno(ErrnoCode::Io) ==> kind == ErrorKind::Io,
            errno == libc_errno(ErrnoCode::NotSup) ==> kind == ErrorKind::NotSupported,
    {
        let enoent = errno_enoent();
        let eisdir = errno_eisdir();
        let enotdir = errno_enotdir();
        let einval = errno_einval();
        let enomem = errno_enomem();
        let eio = errno_eio();
        let enotsup = errno_enotsup();
        if errno == enoent {
            ErrorKind::NotFound
        } else if errno == eisdir {
            ErrorKind::IsADirectory
        } else if errno == enotdir {
            ErrorKind::NotADirectory
        } else if errno == einval {
            ErrorKind::InvalidInput
        } else if errno == enomem {
            ErrorKind::OutOfMemory
        } else if errno == eio {
            ErrorKind::Io
        } else if errno == enotsup {
            ErrorKind::NotSupported
        } else {
            ErrorKind::Other(errno)
        }
    }
}

/// Error returned by all fallible operations in this crate: the raw errno
/// value of the failure and a human-readable message.
#[derive(Debug)]
pub struct DwarfsError {
    errno: i32,
    message: String,
}

impl DwarfsError {
    /// The errno value of this error.
    pub closed spec fn spec_errno(&self) -> i32 {
        self.errno
    }

    /// The message of this error.
    pub closed spec fn spec_message(&self) -> Seq<char> {
        self.message@
    }

    /// The classification of this error.
    pub open spec fn spec_kind(&self) -> ErrorKind {
        kind_of_errno(self.spec_errno())
    }

    /// Whether this is an argument-level error with `message`.
    pub open spec fn is_invalid_input_with(&self, message: Seq<char>) -> bool {
        &&& self.spec_errno() == libc_errno(ErrnoCode::Inval)
        &&& self.spec_message() == message
    }

    /// Whether this is the failure that this build reports for every
    /// operation that needs the native library.
    pub open spec fn is_not_supported(&self) -> bool {
        &&& self.spec_errno() == libc_errno(ErrnoCode::NotSup)
        &&& self.spec_message() == SKELETON_MESSAGE@
    }

    /// An error with the given errno value and message.
    pub fn new(errno: i32, message: String) -> (e: DwarfsError)
        ensures
            e.spec_errno() == errno,
            e.spec_message() == message@,
    {
        DwarfsError { errno, message }
    }

    /// Whether this error is what the error channel `last` reports: the
    /// channel's errno and message.
    pub open spec fn reports(&self, last: CallError) -> bool {
        &&& self.spec_errno() == last.errno
        &&& self.spec_message() == channel_message(last)
    }

    /// The error that the ABI's error channel reports after a failed call:
    /// its errno, and its message (empty for a null message).
    pub fn from_last_error(last: CallError) -> (e: DwarfsError)
        ensures
            e.reports(last),
    {
        let message = match last.message {
            Some(m) => m,
            None => String::new(),
        };
        DwarfsError::new(last.errno, message)
    }

    /// The library's reply to a call that has nothing to convert: a value
    /// is passed on as it is, a failure becomes the error that the error
    /// channel reports.
    pub fn from_reply<T>(reply: Result<T, CallError>) -> (r: Result<T, DwarfsError>)
        ensures
            reply_result(reply, r),
    {
        match reply {
            Ok(v) => Ok(v),
            Err(last) => Err(DwarfsError::from_last_error(last)),
        }
    }

    /// An argument-level error not originating from the C library
    /// (e.g. a path containing an interior NUL byte).
    pub fn invalid_input(message: &str) -> (e: DwarfsError)
        ensures
            e.is_invalid_input_with(message@),
            e.spec_kind() == ErrorKind::InvalidInput,
    {
        DwarfsError::new(errno_einval(), String::from_str(message))
    }

    /// The raw errno value reported by the C ABI.
    pub fn errno(&self) -> (e: i32)
        ensures
            e == self.spec_errno(),
    {
        self.errno
    }

    /// The coarse error classification.
    pub fn kind(&self) -> (k: ErrorKind)
        ensures
            k == self.spec_kind(),
            self.spec_errno() == libc_errno(ErrnoCode::NoEnt) ==> k == ErrorKind::NotFound,
            self.spec_errno() == libc_errno(ErrnoCode::IsDir) ==> k == ErrorKind::IsADirectory,
            self.spec_errno() == libc_errno(ErrnoCode::NotDir) ==> k == ErrorKind::NotADirectory,
            self.spec_errno() == libc_errno(ErrnoCode::Inval) ==> k == ErrorKind::InvalidInput,
            self.spec_errno() == libc_errno(ErrnoCode::NoMem) ==> k == ErrorKind::OutOfMemory,
            self.spec_errno() == libc_errno(ErrnoCode::Io) ==> k == ErrorKind::Io,
            self.spec_errno() == libc_errno(ErrnoCode::NotSup) ==> k == ErrorKind::NotSupported,
    {
        ErrorKind::from_errno(self.errno)
    }

    /// The library's human-readable message (may be empty).
    pub fn message(&self) -> (m: &str)
        ensures
            m@ == self.spec_message(),
    {
        self.message.as_str()
    }

    /// The short description of this error's kind.
    fn kind_str(&self) -> (s: String)
        ensures
            s@ == kind_text(self.spec_kind()),
    {
        match self.kind() {
            ErrorKind::NotFound => String::from_str("not found"),
            ErrorKind::IsADirectory => String::from_str("is a directory"),
            ErrorKind::NotADirectory => String::from_str("not a directory"),
            ErrorKind::InvalidInput => String::from_str("invalid input"),
            ErrorKind::OutOfMemory => String::from_str("out of memory"),
            ErrorKind::Io => String::from_str("i/o error"),
            ErrorKind::NotSupported => String::from_str("not supported"),
            ErrorKind::Other(e) => {
                let mut s = String::from_str("error ");
                let digits = decimal_i32(e);
                s.append(digits.as_str());
                s
            },
        }
    }

    /// The display text of this error: `"{kind} (errno {errno})"`, or
    /// `"{kind} ({errno}: {message})"` when the message is not empty.
    pub fn to_string(&self) -> (s: String)
        ensures
            s@ == display_text(self.spec_errno(), self.spec_message()),
    {
        let mut s = self.kind_str();
        let digits = decimal_i32(self.errno);
        if self.message.as_str().is_empty() {
            s.append(" (errno ");
            s.append(digits.as_str());
            s.append(")");
        } else {
            s.append(" (");
            s.append(digits.as_str());
            s.append(": ");
            s.append(self.message.as_str());
            s.append(")");
        }
        s
    }
}

} // verus!
