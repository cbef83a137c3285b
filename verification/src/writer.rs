//! The [`Writer`] — in-process creation of DwarFS images.
//!
//! Single-shot discipline: create a `Writer`, add content, then
//! [`Writer::write`] (which consumes the writer).
//!
//! Source rules that the native library enforces (surfaced as errors):
//! the writer is single-source — one [`Writer::add_tree`] XOR one or more
//! [`Writer::add_file`] calls; `add_tree` accepts only `""` or `"/"` as the
//! image prefix; `add_file` places files at the image root by basename;
//! [`Writer::write`] never overwrites an existing output path.
//!
//! Argument checks that happen on this side of the ABI come first: a path
//! or image path with an interior NUL byte is refused with `EINVAL` before
//! the library is asked.

use vstd::prelude::*;

use crate::abi::{
    self, dwarfs_c_writer, dwarfs_c_writer_options, CallError, DWARFS_C_COMPRESSION_BROTLI,
    DWARFS_C_COMPRESSION_LZMA, DWARFS_C_COMPRESSION_NONE, DWARFS_C_COMPRESSION_ZSTD,
    DWARFS_C_WRITER_OPTIONS_VERSION,
};
use crate::error::{reply_result, DwarfsError};
use crate::text::{has_nul, nul_free};
use crate::{path_cstring, NUL_PATH_MESSAGE};

verus! {

/// Message of the error for an image prefix that a C string cannot carry.
pub const NUL_PREFIX_MESSAGE: &'static str = "image_prefix contains an interior NUL byte";

/// Message of the error for an image path that a C string cannot carry.
pub const NUL_IMAGE_PATH_MESSAGE: &'static str = "image_path contains an interior NUL byte";

/// Block compression algorithm for [`WriterOptions`].
#[derive(Debug, Clone, Copy, PartialEq, Eq, Structural)]
pub enum Compression {
    /// Store blocks uncompressed (`"null"`).
    Null,
    /// Zstandard (the mkdwarfs default).
    Zstd,
    /// LZMA.
    Lzma,
    /// Brotli.
    Brotli,
}

impl Compression {
    /// The ABI code of a compression algorithm.
    pub open spec fn spec_to_raw(self) -> i32 {
        match self {
            Compression::Null => DWARFS_C_COMPRESSION_NONE,
            Compression::Zstd => DWARFS_C_COMPRESSION_ZSTD,
            Compression::Lzma => DWARFS_C_COMPRESSION_LZMA,
            Compression::Brotli => DWARFS_C_COMPRESSION_BROTLI,
        }
    }

    /// The ABI code of this algorithm.
    pub fn to_raw(self) -> (raw: i32)
        ensures
            raw == self.spec_to_raw(),
    {
        match self {
            Compression::Null => DWARFS_C_COMPRESSION_NONE,
            Compression::Zstd => DWARFS_C_COMPRESSION_ZSTD,
            Compression::Lzma => DWARFS_C_COMPRESSION_LZMA,
            Compression::Brotli => DWARFS_C_COMPRESSION_BROTLI,
        }
    }
}

impl Default for Compression {
    /// Zstandard, the mkdwarfs default.
    fn default() -> (c: Self)
        ensures
            c == Compression::Zstd,
    {
        Compression::Zstd
    }
}

/// Options for [`Writer::new`]; `Default` reproduces the mkdwarfs defaults
/// profile (zstd block compression at the default level, 16 MiB blocks,
/// categorizer off, one worker per CPU).
#[derive(Debug, Clone, Copy, PartialEq, Eq, Structural)]
pub struct WriterOptions {
    /// Block compression algorithm.
    pub compression: Compression,
    /// Algorithm-native compression level; `None` uses the mkdwarfs default
    /// for the chosen algorithm (zstd 22, lzma 9, brotli 11). Ignored for
    /// [`Compression::Null`].
    pub compression_level: Option<i32>,
    /// log2 of the block size (10..=30); `None` uses the mkdwarfs default
    /// (24, i.e. 16 MiB).
    pub block_size_bits: Option<u32>,
    /// Enable the `"pcmaudio"` categorizer (off by default, as in mkdwarfs).
    pub enable_categorizer: bool,
    /// Worker threads for scanning and compression; 0 = one per CPU.
    pub num_workers: u32,
}

impl WriterOptions {
    /// The mkdwarfs defaults profile.
    pub open spec fn spec_default() -> WriterOptions {
        WriterOptions {
            compression: Compression::Zstd,
            compression_level: Option::None,
            block_size_bits: Option::None,
            enable_categorizer: false,
            num_workers: 0,
        }
    }

    /// The ABI options record that these options stand for: unset levels
    /// and block sizes become the ABI's "default" markers (-1 and 0).
    pub open spec fn spec_to_raw(self) -> dwarfs_c_writer_options {
        dwarfs_c_writer_options {
            struct_version: DWARFS_C_WRITER_OPTIONS_VERSION,
            compression: self.compression.spec_to_raw(),
            compression_level: match self.compression_level {
                Option::Some(l) => l,
                Option::None => -1i32,
            },
            block_size_bits: match self.block_size_bits {
                Option::Some(b) => b,
                Option::None => 0u32,
            },
            enable_categorizer: if self.enable_categorizer { 1i32 } else { 0i32 },
            num_workers: self.num_workers,
        }
    }

    /// Options with a specific compression algorithm and level (other
    /// fields at their mkdwarfs defaults).
    pub fn with_compression(compression: Compression, level: Option<i32>) -> (o: WriterOptions)
        ensures
            o == (WriterOptions {
                compression,
                compression_level: level,
                ..Self::spec_default()
            }),
    {
        let defaults = WriterOptions::default();
        WriterOptions {
            compression,
            compression_level: level,
            block_size_bits: defaults.block_size_bits,
            enable_categorizer: defaults.enable_categorizer,
            num_workers: defaults.num_workers,
        }
    }

    /// The ABI options record for these options.
    pub fn to_raw(self) -> (raw: dwarfs_c_writer_options)
        ensures
            raw == self.spec_to_raw(),
            raw.struct_version == DWARFS_C_WRITER_OPTIONS_VERSION,
            raw.compression == self.compression.spec_to_raw(),
            self.compression_level matches Some(l) ==> raw.compression_level == l,
            self.compression_level is None ==> raw.compression_level == -1,
            self.block_size_bits matches Some(b) ==> raw.block_size_bits == b,
            self.block_size_bits is None ==> raw.block_size_bits == 0,
            raw.enable_categorizer == (if self.enable_categorizer { 1i32 } else { 0i32 }),
            raw.num_workers == self.num_workers,
    {
        dwarfs_c_writer_options {
            struct_version: DWARFS_C_WRITER_OPTIONS_VERSION,
            compression: self.compression.to_raw(),
            compression_level: match self.compression_level {
                Option::Some(l) => l,
                Option::None => -1,
            },
            block_size_bits: match self.block_size_bits {
                Option::Some(b) => b,
                Option::None => 0,
            },
            enable_categorizer: if self.enable_categorizer {
                1
            } else {
                0
            },
            num_workers: self.num_workers,
        }
    }
}

impl Default for WriterOptions {
    /// The mkdwarfs defaults profile.
    fn default() -> (o: Self)
        ensures
            o == WriterOptions::spec_default(),
    {
        WriterOptions {
            compression: Compression::default(),
            compression_level: Option::None,
            block_size_bits: Option::None,
            enable_categorizer: false,
            num_workers: 0,
        }
    }
}

/// The default options are the ABI's own defaults: converting
/// `WriterOptions::default()` gives exactly the record that
/// `dwarfs_c_writer_options_init` produces.
pub proof fn default_options_are_abi_defaults()
    ensures
        WriterOptions::spec_default().spec_to_raw() == abi::spec_default_writer_options(),
{
}

/// Distinct compression algorithms have distinct ABI codes, and every code
/// is one of the four `DWARFS_C_COMPRESSION_*` constants.
pub proof fn compression_codes_are_distinct(a: Compression, b: Compression)
    ensures
        a != b ==> a.spec_to_raw() != b.spec_to_raw(),
        0 <= a.spec_to_raw() <= 3,
{
}

/// The ABI record of a set of options carries the chosen level and block
/// size themselves, whatever their values; only unset ones become the
/// ABI's default markers (-1 for the level, 0 for the block size).
pub proof fn options_keep_level_and_block_size(o: WriterOptions)
    ensures
        forall|l: i32| o.compression_level == Some(l) ==> o.spec_to_raw().compression_level == l,
        o.compression_level is None ==> o.spec_to_raw().compression_level == -1,
        forall|b: u32| o.block_size_bits == Some(b) ==> o.spec_to_raw().block_size_bits == b,
        o.block_size_bits is None ==> o.spec_to_raw().block_size_bits == 0,
        o.spec_to_raw().num_workers == o.num_workers,
        o.spec_to_raw().enable_categorizer == 1 <==> o.enable_categorizer,
        o.spec_to_raw().struct_version == DWARFS_C_WRITER_OPTIONS_VERSION,
{
}

/// Two option sets that differ only in their levels give ABI records that
/// differ exactly in their levels when both levels are set.
pub proof fn options_levels_are_kept_apart(o: WriterOptions, l1: i32, l2: i32)
    ensures
        (WriterOptions { compression_level: Some(l1), ..o }).spec_to_raw().compression_level == l1,
        l1 != l2 ==> (WriterOptions { compression_level: Some(l1), ..o }).spec_to_raw()
            != (WriterOptions { compression_level: Some(l2), ..o }).spec_to_raw(),
{
}

/// An in-process DwarFS image writer (single-shot; see the module docs).
#[derive(Debug)]
pub struct Writer {
    handle: dwarfs_c_writer,
}

/// Whether `r` is what writer creation gives for the library's reply: a
/// writer over the returned handle, or the error that the error channel
/// reports.
pub open spec fn create_result(reply: Result<dwarfs_c_writer, CallError>, r: Result<Writer, DwarfsError>) -> bool {
    match reply {
        Ok(h) => r matches Ok(w) && w.spec_handle() == h,
        Err(last) => r matches Err(e) && e.reports(last),
    }
}

impl Writer {
    /// The library handle of this writer.
    pub closed spec fn spec_handle(&self) -> dwarfs_c_writer {
        self.handle
    }

    /// The writer for the library's reply to a create call: a writer over
    /// the returned handle, or the error that the error channel reports.
    pub fn from_create_reply(reply: Result<dwarfs_c_writer, CallError>) -> (r: Result<
        Writer,
        DwarfsError,
    >)
        ensures
            create_result(reply, r),
    {
        match reply {
            Ok(handle) => Ok(Writer { handle }),
            Err(last) => Err(DwarfsError::from_last_error(last)),
        }
    }

    /// Create a writer from an ABI options record: the library's reply
    /// decides (see [`create_result`]), which in this build is a failure
    /// with `ENOTSUP`.
    pub fn from_raw(raw: &dwarfs_c_writer_options) -> (r: Result<Writer, DwarfsError>)
        ensures
            exists|reply: Result<dwarfs_c_writer, CallError>| create_result(reply, r),
            r matches Err(e) && e.is_not_supported(),
    {
        let reply = abi::dwarfs_c_writer_create(raw);
        let ghost g = reply;
        let r = Self::from_create_reply(reply);
        assert(create_result(g, r));
        r
    }

    /// Create a writer from explicit options.
    ///
    /// This build links no native library, so creation fails with
    /// `ENOTSUP`.
    pub fn new(options: WriterOptions) -> (r: Result<Writer, DwarfsError>)
        ensures
            r matches Err(e) && e.is_not_supported(),
    {
        let raw = options.to_raw();
        Self::from_raw(&raw)
    }

    /// Create a writer with a specific compression algorithm and level
    /// (everything else at the mkdwarfs defaults).
    pub fn with_compression(compression: Compression, level: Option<i32>) -> (r: Result<
        Writer,
        DwarfsError,
    >)
        ensures
            r matches Err(e) && e.is_not_supported(),
    {
        Self::new(WriterOptions::with_compression(compression, level))
    }

    /// Add a whole directory tree to the image (the mkdwarfs `-i <dir>`
    /// equivalent): the directory's content lands at the image root.
    ///
    /// A `host_path` or `image_prefix` with an interior NUL byte is refused
    /// with `EINVAL` (the path first); otherwise the library decides.
    pub fn add_tree(&mut self, host_path: &str, image_prefix: &str) -> (r: Result<(), DwarfsError>)
        ensures
            has_nul(host_path) ==> (r matches Err(e) && e.is_invalid_input_with(
                NUL_PATH_MESSAGE@,
            )),
            !has_nul(host_path) && has_nul(image_prefix) ==> (r matches Err(e)
                && e.is_invalid_input_with(NUL_PREFIX_MESSAGE@)),
            !has_nul(host_path) && !has_nul(image_prefix) ==> exists|reply: Result<(), CallError>|
                reply_result(reply, r),
            final(self).spec_handle() == old(self).spec_handle(),
            !has_nul(host_path) && !has_nul(image_prefix) ==> (r matches Err(e)
                && e.is_not_supported()),
    {
        let host = match path_cstring(host_path) {
            Ok(h) => h,
            Err(e) => return Err(e),
        };
        if !nul_free(image_prefix) {
            return Err(DwarfsError::invalid_input(NUL_PREFIX_MESSAGE));
        }
        let reply = abi::dwarfs_c_writer_add_tree(&mut self.handle, host, image_prefix);
        let ghost g = reply;
        let r = DwarfsError::from_reply(reply);
        assert(reply_result(g, r));
        r
    }

    /// Add a single file at the image root. `image_path` must equal
    /// basename(host_path); all files added to one writer must live in the
    /// same directory.
    ///
    /// A `host_path` or `image_path` with an interior NUL byte is refused
    /// with `EINVAL` (the path first); otherwise the library decides.
    pub fn add_file(&mut self, host_path: &str, image_path: &str) -> (r: Result<(), DwarfsError>)
        ensures
            has_nul(host_path) ==> (r matches Err(e) && e.is_invalid_input_with(
                NUL_PATH_MESSAGE@,
            )),
            !has_nul(host_path) && has_nul(image_path) ==> (r matches Err(e)
                && e.is_invalid_input_with(NUL_IMAGE_PATH_MESSAGE@)),
            !has_nul(host_path) && !has_nul(image_path) ==> exists|reply: Result<(), CallError>|
                reply_result(reply, r),
            final(self).spec_handle() == old(self).spec_handle(),
            !has_nul(host_path) && !has_nul(image_path) ==> (r matches Err(e)
                && e.is_not_supported()),
    {
        let host = match path_cstring(host_path) {
            Ok(h) => h,
            Err(e) => return Err(e),
        };
        if !nul_free(image_path) {
            return Err(DwarfsError::invalid_input(NUL_IMAGE_PATH_MESSAGE));
        }
        let reply = abi::dwarfs_c_writer_add_file(&mut self.handle, host, image_path);
        let ghost g = reply;
        let r = DwarfsError::from_reply(reply);
        assert(reply_result(g, r));
        r
    }

    /// Write the image to `out_path`, consuming the writer. This is where
    /// all scanning and compression happens.
    ///
    /// An `out_path` with an interior NUL byte is refused with `EINVAL`;
    /// otherwise the library decides.
    pub fn write(self, out_path: &str) -> (r: Result<(), DwarfsError>)
        ensures
            has_nul(out_path) ==> (r matches Err(e) && e.is_invalid_input_with(
                NUL_PATH_MESSAGE@,
            )),
            !has_nul(out_path) ==> exists|reply: Result<(), CallError>| reply_result(reply, r),
            !has_nul(out_path) ==> (r matches Err(e) && e.is_not_supported()),
    {
        let out = match path_cstring(out_path) {
            Ok(o) => o,
            Err(e) => return Err(e),
        };
        let mut handle = self.handle;
        let reply = abi::dwarfs_c_writer_write(&mut handle, out);
        let ghost g = reply;
        let r = DwarfsError::from_reply(reply);
        assert(reply_result(g, r));
        r
    }
}

} // verus!
