//! The errno codes of the target, as the `libc` crate defines them.
//!
//! Their numeric values differ from target to target (Linux, the BSDs,
//! Windows, WASI, Haiku, ...), so contracts speak of them through
//! [`libc_errno`], the value that `libc` gives a code on the target being
//! built, and never through a literal number.

use vstd::prelude::*;

verus! {

/// The errno codes that the library classifies or produces.
#[derive(Clone, Copy, Debug, PartialEq, Eq, Structural)]
pub enum ErrnoCode {
    /// `ENOENT`
    NoEnt,
    /// `EISDIR`
    IsDir,
    /// `ENOTDIR`
    NotDir,
    /// `EINVAL`
    Inval,
    /// `ENOMEM`
    NoMem,
    /// `EIO`
    Io,
    /// `ENOTSUP`
    NotSup,
}

/// The value of the `libc` constant named by `code` on the target being built.
pub uninterp spec fn libc_errno(code: ErrnoCode) -> i32;

/// `libc::ENOENT`.
///
/// Trusted: the result is the constant that `libc` defines for the target.
#[verifier::external_body]
pub(crate) fn errno_enoent() -> (e: i32)
    ensures
        e == libc_errno(ErrnoCode::NoEnt),
{
    libc::ENOENT
}

/// `libc::EISDIR`.
///
/// Trusted: the result is the constant that `libc` defines for the target,
/// which differs from `ENOENT` on every target that `libc` supports.
#[verifier::external_body]
pub(crate) fn errno_eisdir() -> (e: i32)
    ensures
        e == libc_errno(ErrnoCode::IsDir),
        e != libc_errno(ErrnoCode::NoEnt),
{
    libc::EISDIR
}

/// `libc::ENOTDIR`.
///
/// Trusted: the result is the constant that `libc` defines for the target,
/// which differs from `ENOENT` and `EISDIR` on every target that `libc`
/// supports.
#[verifier::external_body]
pub(crate) fn errno_enotdir() -> (e: i32)
    ensures
        e == libc_errno(ErrnoCode::NotDir),
        e != libc_errno(ErrnoCode::NoEnt),
        e != libc_errno(ErrnoCode::IsDir),
{
    libc::ENOTDIR
}

/// `libc::EINVAL`.
///
/// Trusted: the result is the constant that `libc` defines for the target,
/// which differs from `ENOENT`, `EISDIR` and `ENOTDIR` on every target that
/// `libc` supports.
#[verifier::external_body]
pub(crate) fn errno_einval() -> (e: i32)
    ensures
        e == libc_errno(ErrnoCode::Inval),
        e != libc_errno(ErrnoCode::NoEnt),
        e != libc_errno(ErrnoCode::IsDir),
        e != libc_errno(ErrnoCode::NotDir),
{
    libc::EINVAL
}

/// `libc::ENOMEM`.
///
/// Trusted: the result is the constant that `libc` defines for the target,
/// which differs from `ENOENT`, `EISDIR`, `ENOTDIR` and `EINVAL` on every
/// target that `libc` supports.
#[verifier::external_body]
pub(crate) fn errno_enomem() -> (e: i32)
    ensures
        e == libc_errno(ErrnoCode::NoMem),
        e != libc_errno(ErrnoCode::NoEnt),
        e != libc_errno(ErrnoCode::IsDir),
        e != libc_errno(ErrnoCode::NotDir),
        e != libc_errno(ErrnoCode::Inval),
{
    libc::ENOMEM
}

/// `libc::EIO`.
///
/// Trusted: the result is the constant that `libc` defines for the target,
/// which differs from `ENOENT`, `EISDIR`, `ENOTDIR`, `EINVAL` and `ENOMEM`
/// on every target that `libc` supports.
#[verifier::external_body]
pub(crate) fn errno_eio() -> (e: i32)
    ensures
        e == libc_errno(ErrnoCode::Io),
        e != libc_errno(ErrnoCode::NoEnt),
        e != libc_errno(ErrnoCode::IsDir),
        e != libc_errno(ErrnoCode::NotDir),
        e != libc_errno(ErrnoCode::Inval),
        e != libc_errno(ErrnoCode::NoMem),
{
    libc::EIO
}

/// `libc::ENOTSUP`.
///
/// Trusted: the result is the constant that `libc` defines for the target
/// (on several targets an alias of `EOPNOTSUPP`), which differs from the
/// six codes above on every target that `libc` supports.
#[verifier::external_body]
pub(crate) fn errno_enotsup() -> (e: i32)
    ensures
        e == libc_errno(ErrnoCode::NotSup),
        e != libc_errno(ErrnoCode::NoEnt),
        e != libc_errno(ErrnoCode::IsDir),
        e != libc_errno(ErrnoCode::NotDir),
        e != libc_errno(ErrnoCode::Inval),
        e != libc_errno(ErrnoCode::NoMem),
        e != libc_errno(ErrnoCode::Io),
{
    libc::ENOTSUP
}

} // verus!
