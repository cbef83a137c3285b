# dwarfs_t

Safe access to DwarFS images through the stable `libdwarfs_c` ABI, written
in Verus: every function in `src/` carries a contract that Verus proves.

- `src/abi.rs` — the ABI surface (handles, plain records, constants, entry
  points). This build links no native library: each entry point fails
  with `ENOTSUP`, except the pure options initializer.
- `src/errno.rs` — the target's errno codes, read from `libc`.
- `src/error.rs` — `DwarfsError` and the errno classification `ErrorKind`.
- `src/metadata.rs` — `FileType` and `Metadata` from ABI records.
- `src/fs.rs`, `src/dir.rs` — the `Filesystem` reader and `ReadDir`.
- `src/writer.rs` — `Writer`, `WriterOptions`, `Compression`.
- `src/text.rs` — decimal rendering and the interior-NUL check.
- `app/` — a twin of the error type with `Display` and `std::error::Error`.
