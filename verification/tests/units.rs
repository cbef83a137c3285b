//! Unit-level tests of the library's own logic: errno classification,
//! error text, argument checks, metadata and writer option conversion.

use dwarfs_t::abi::{
    dwarfs_c_abi_version, dwarfs_c_dirent, CallError, dwarfs_c_error_message, dwarfs_c_stat, dwarfs_c_strerror,
    dwarfs_c_writer_options_init, DWARFS_C_ABI_VERSION, DWARFS_C_COMPRESSION_BROTLI,
    DWARFS_C_COMPRESSION_LZMA, DWARFS_C_COMPRESSION_NONE, DWARFS_C_COMPRESSION_ZSTD,
    DWARFS_C_WRITER_OPTIONS_VERSION, SKELETON_MESSAGE,
};
use dwarfs_t::text::{decimal_i32, nul_free};
use dwarfs_t::{
    lookup_cstring, path_cstring, Compression, DirEntry, DwarfsError, ErrorKind, FileType, Filesystem,
    Metadata, ReadDir, Writer, WriterOptions, OFFSET_AUTO,
};

#[test]
fn errno_values_classify_to_their_kinds() {
    assert_eq!(ErrorKind::from_errno(libc::ENOENT), ErrorKind::NotFound);
    assert_eq!(ErrorKind::from_errno(libc::EISDIR), ErrorKind::IsADirectory);
    assert_eq!(ErrorKind::from_errno(libc::ENOTDIR), ErrorKind::NotADirectory);
    assert_eq!(ErrorKind::from_errno(libc::EINVAL), ErrorKind::InvalidInput);
    assert_eq!(ErrorKind::from_errno(libc::ENOMEM), ErrorKind::OutOfMemory);
    assert_eq!(ErrorKind::from_errno(libc::EIO), ErrorKind::Io);
    assert_eq!(ErrorKind::from_errno(libc::ENOTSUP), ErrorKind::NotSupported);
}

#[test]
fn other_errno_values_are_kept() {
    assert_eq!(ErrorKind::from_errno(libc::EEXIST), ErrorKind::Other(libc::EEXIST));
    assert_eq!(ErrorKind::from_errno(libc::EALREADY), ErrorKind::Other(libc::EALREADY));
    assert_eq!(ErrorKind::from_errno(0), ErrorKind::Other(0));
    assert_eq!(ErrorKind::from_errno(-7), ErrorKind::Other(-7));
}

#[test]
fn error_accessors_report_what_was_given() {
    let e = DwarfsError::new(libc::EIO, String::from("bad block"));
    assert_eq!(e.errno(), libc::EIO);
    assert_eq!(e.kind(), ErrorKind::Io);
    assert_eq!(e.message(), "bad block");
}

#[test]
fn invalid_input_errors_carry_einval() {
    let e = DwarfsError::invalid_input("nope");
    assert_eq!(e.errno(), libc::EINVAL);
    assert_eq!(e.kind(), ErrorKind::InvalidInput);
    assert_eq!(e.message(), "nope");
}

#[test]
fn display_text_without_message() {
    let e = DwarfsError::new(libc::ENOENT, String::new());
    assert_eq!(e.to_string(), format!("not found (errno {})", libc::ENOENT));
    let e = DwarfsError::new(libc::ENOTSUP, String::new());
    assert_eq!(e.to_string(), format!("not supported (errno {})", libc::ENOTSUP));
}

#[test]
fn display_text_with_message() {
    let e = DwarfsError::new(libc::EISDIR, String::from("is /"));
    assert_eq!(e.to_string(), format!("is a directory ({}: is /)", libc::EISDIR));
    let e = DwarfsError::new(libc::ENOMEM, String::from("oom"));
    assert_eq!(e.to_string(), format!("out of memory ({}: oom)", libc::ENOMEM));
    let e = DwarfsError::new(libc::EIO, String::from("x"));
    assert_eq!(e.to_string(), format!("i/o error ({}: x)", libc::EIO));
    let e = DwarfsError::new(libc::ENOTDIR, String::from("f"));
    assert_eq!(e.to_string(), format!("not a directory ({}: f)", libc::ENOTDIR));
    let e = DwarfsError::invalid_input("bad");
    assert_eq!(e.to_string(), format!("invalid input ({}: bad)", libc::EINVAL));
}

#[test]
fn display_text_of_other_errno() {
    let e = DwarfsError::new(-7, String::from("odd"));
    assert_eq!(e.to_string(), "error -7 (-7: odd)");
    let e = DwarfsError::new(i32::MIN, String::new());
    assert_eq!(e.to_string(), "error -2147483648 (errno -2147483648)");
    let e = DwarfsError::new(libc::EEXIST, String::new());
    assert_eq!(
        e.to_string(),
        format!("error {} (errno {})", libc::EEXIST, libc::EEXIST)
    );
}

#[test]
fn decimal_text_matches_std_formatting() {
    for x in [0, 1, 9, 10, 11, 99, 100, 1234567, -1, -10, -909, i32::MAX, i32::MIN] {
        assert_eq!(decimal_i32(x), format!("{x}"));
    }
}

#[test]
fn nul_bytes_are_detected() {
    assert!(nul_free("abc"));
    assert!(nul_free(""));
    assert!(nul_free("ünïcödé/path"));
    assert!(!nul_free("a\0b"));
    assert!(!nul_free("\0"));
    assert!(!nul_free("tail\0"));
}

#[test]
fn path_checks_refuse_interior_nul() {
    assert_eq!(path_cstring("dir/file").unwrap(), "dir/file");
    assert_eq!(lookup_cstring("/format.sh").unwrap(), "/format.sh");
    let e = path_cstring("bad\0path").unwrap_err();
    assert_eq!(e.kind(), ErrorKind::InvalidInput);
    assert_eq!(e.message(), "path contains an interior NUL byte");
    let e = lookup_cstring("\0").unwrap_err();
    assert_eq!(e.errno(), libc::EINVAL);
}

#[test]
fn open_refuses_nul_path_before_the_library() {
    let e = Filesystem::open("image\0.dwarfs").unwrap_err();
    assert_eq!(e.kind(), ErrorKind::InvalidInput);
    assert_eq!(e.message(), "path contains an interior NUL byte");
}

#[test]
fn open_region_checks_arguments_in_order() {
    let e = Filesystem::open_region("x", -5, 100).unwrap_err();
    assert_eq!(e.kind(), ErrorKind::InvalidInput);
    assert_eq!(e.message(), "offset must be >= 0 or OFFSET_AUTO");

    let e = Filesystem::open_region("x", -5, 0).unwrap_err();
    assert_eq!(e.message(), "length must be positive");

    let e = Filesystem::open_region("x", 0, u64::MAX).unwrap_err();
    assert_eq!(e.kind(), ErrorKind::InvalidInput);
    assert_eq!(e.message(), "length does not fit into i64");

    let e = Filesystem::open_region("x\0", 0, u64::MAX).unwrap_err();
    assert_eq!(e.message(), "path contains an interior NUL byte");

    let e = Filesystem::open_region("x", OFFSET_AUTO, 16).unwrap_err();
    assert_eq!(e.kind(), ErrorKind::NotSupported);

    let e = Filesystem::open_region("x", 128, i64::MAX as u64).unwrap_err();
    assert_eq!(e.kind(), ErrorKind::NotSupported);
}

#[test]
fn open_memory_refuses_empty_data() {
    let e = Filesystem::open_memory(&[]).unwrap_err();
    assert_eq!(e.message(), "data must not be empty");
}

#[test]
fn abi_reports_skeleton_state() {
    assert_eq!(dwarfs_c_abi_version(), DWARFS_C_ABI_VERSION);
    assert_eq!(dwarfs_c_error_message(), SKELETON_MESSAGE);
    assert_eq!(dwarfs_c_strerror(libc::ENOENT), SKELETON_MESSAGE);
    assert_eq!(Filesystem::version_string(), "0.0.0-skeleton");
}

#[test]
fn file_type_codes_classify() {
    assert_eq!(FileType::from_raw(0), FileType::Unknown);
    assert_eq!(FileType::from_raw(1), FileType::Regular);
    assert_eq!(FileType::from_raw(2), FileType::Directory);
    assert_eq!(FileType::from_raw(3), FileType::Symlink);
    assert_eq!(FileType::from_raw(4), FileType::Other);
    assert_eq!(FileType::from_raw(5), FileType::Unknown);
    assert_eq!(FileType::from_raw(-1), FileType::Unknown);
}

fn raw_stat(size: i64, file_type: i32) -> dwarfs_c_stat {
    dwarfs_c_stat {
        size,
        mtime: 1_700_000_000,
        mtime_nsec: 123,
        mode: 0o100644,
        uid: 1000,
        gid: 100,
        nlink: 2,
        file_type,
    }
}

#[test]
fn metadata_converts_stat_records() {
    let m = Metadata::from_raw(&raw_stat(4096, 1));
    assert_eq!(
        m,
        Metadata {
            size: 4096,
            mtime: 1_700_000_000,
            mtime_nsec: 123,
            mode: 0o100644,
            uid: 1000,
            gid: 100,
            nlink: 2,
            file_type: FileType::Regular,
        }
    );
    assert!(m.is_file());
    assert!(!m.is_dir());
    assert!(!m.is_symlink());
}

#[test]
fn metadata_clamps_negative_size() {
    let m = Metadata::from_raw(&raw_stat(-5, 2));
    assert_eq!(m.size, 0);
    assert!(m.is_dir());
    let m = Metadata::from_raw(&raw_stat(i64::MAX, 3));
    assert_eq!(m.size, i64::MAX as u64);
    assert!(m.is_symlink());
}

#[test]
fn compression_codes() {
    assert_eq!(Compression::default(), Compression::Zstd);
    assert_eq!(Compression::Null.to_raw(), DWARFS_C_COMPRESSION_NONE);
    assert_eq!(Compression::Zstd.to_raw(), DWARFS_C_COMPRESSION_ZSTD);
    assert_eq!(Compression::Lzma.to_raw(), DWARFS_C_COMPRESSION_LZMA);
    assert_eq!(Compression::Brotli.to_raw(), DWARFS_C_COMPRESSION_BROTLI);
}

#[test]
fn default_writer_options_are_the_abi_defaults() {
    let o = WriterOptions::default();
    assert_eq!(o.compression, Compression::Zstd);
    assert_eq!(o.compression_level, None);
    assert_eq!(o.block_size_bits, None);
    assert!(!o.enable_categorizer);
    assert_eq!(o.num_workers, 0);
    assert_eq!(o.to_raw(), dwarfs_c_writer_options_init());
}

#[test]
fn writer_options_convert_to_abi_record() {
    let o = WriterOptions {
        compression: Compression::Brotli,
        compression_level: Some(4),
        block_size_bits: Some(20),
        enable_categorizer: true,
        num_workers: 8,
    };
    let raw = o.to_raw();
    assert_eq!(raw.struct_version, DWARFS_C_WRITER_OPTIONS_VERSION);
    assert_eq!(raw.compression, DWARFS_C_COMPRESSION_BROTLI);
    assert_eq!(raw.compression_level, 4);
    assert_eq!(raw.block_size_bits, 20);
    assert_eq!(raw.enable_categorizer, 1);
    assert_eq!(raw.num_workers, 8);
}

#[test]
fn with_compression_keeps_other_defaults() {
    let o = WriterOptions::with_compression(Compression::Lzma, Some(3));
    assert_eq!(
        o,
        WriterOptions {
            compression: Compression::Lzma,
            compression_level: Some(3),
            ..WriterOptions::default()
        }
    );
    let raw = WriterOptions::with_compression(Compression::Null, None).to_raw();
    assert_eq!(raw.compression, DWARFS_C_COMPRESSION_NONE);
    assert_eq!(raw.compression_level, -1);
    assert_eq!(raw.block_size_bits, 0);
    assert_eq!(raw.enable_categorizer, 0);
}

#[test]
fn writer_with_compression_reports_not_supported() {
    let e = Writer::with_compression(Compression::Zstd, Some(3)).unwrap_err();
    assert_eq!(e.kind(), ErrorKind::NotSupported);
    assert_eq!(e.errno(), libc::ENOTSUP);
}




fn channel(errno: i32, message: Option<&str>) -> CallError {
    CallError {
        errno,
        message: message.map(String::from),
    }
}

#[test]
fn last_error_carries_the_channel() {
    let e = DwarfsError::from_last_error(channel(libc::ENOENT, Some("no such file")));
    assert_eq!(e.errno(), libc::ENOENT);
    assert_eq!(e.kind(), ErrorKind::NotFound);
    assert_eq!(e.message(), "no such file");
    let e = DwarfsError::from_last_error(channel(libc::EIO, None));
    assert_eq!(e.kind(), ErrorKind::Io);
    assert_eq!(e.message(), "");
}

#[test]
fn replies_pass_values_and_map_failures() {
    let r: Result<String, DwarfsError> = DwarfsError::from_reply(Ok(String::from("{}")));
    assert_eq!(r.unwrap(), "{}");
    let r: Result<(), DwarfsError> =
        DwarfsError::from_reply(Err(channel(libc::EEXIST, Some("exists"))));
    let e = r.unwrap_err();
    assert_eq!(e.errno(), libc::EEXIST);
    assert_eq!(e.message(), "exists");
}

#[test]
fn stat_reply_converts_the_record() {
    let m = Filesystem::stat_from_reply(Ok(raw_stat(4096, 1))).unwrap();
    assert_eq!(m.size, 4096);
    assert_eq!(m.file_type, FileType::Regular);
    assert_eq!(m.nlink, 2);
    let m = Filesystem::stat_from_reply(Ok(raw_stat(-1, 2))).unwrap();
    assert_eq!(m.size, 0);
    assert!(m.is_dir());
    let e = Filesystem::stat_from_reply(Err(channel(libc::ENOENT, Some("missing")))).unwrap_err();
    assert_eq!(e.kind(), ErrorKind::NotFound);
    assert_eq!(e.message(), "missing");
}

#[test]
fn pread_reply_reports_the_count() {
    assert_eq!(Filesystem::pread_from_reply(Ok(16)).unwrap(), 16);
    assert_eq!(Filesystem::pread_from_reply(Ok(0)).unwrap(), 0);
    let e = Filesystem::pread_from_reply(Err(channel(libc::EISDIR, None))).unwrap_err();
    assert_eq!(e.kind(), ErrorKind::IsADirectory);
}

#[test]
fn readdir_step_yields_entries_and_finishes() {
    let (item, finished) = ReadDir::step(Ok(Some(dwarfs_c_dirent {
        name: Some(String::from("format.sh")),
        file_type: 1,
    })));
    assert!(!finished);
    assert_eq!(
        item.unwrap().unwrap(),
        DirEntry {
            name: String::from("format.sh"),
            file_type: FileType::Regular,
        }
    );

    let (item, finished) = ReadDir::step(Ok(Some(dwarfs_c_dirent {
        name: None,
        file_type: 9,
    })));
    assert!(!finished);
    let entry = item.unwrap().unwrap();
    assert_eq!(entry.name, "");
    assert_eq!(entry.file_type, FileType::Unknown);

    let (item, finished) = ReadDir::step(Ok(None));
    assert!(finished);
    assert!(item.is_none());

    let (item, finished) = ReadDir::step(Err(channel(libc::ENOTDIR, Some("not a dir"))));
    assert!(finished);
    let e = item.unwrap().unwrap_err();
    assert_eq!(e.kind(), ErrorKind::NotADirectory);
    assert_eq!(e.message(), "not a dir");
}

#[test]
fn entry_from_record() {
    let e = ReadDir::entry_from_raw(dwarfs_c_dirent {
        name: Some(String::from("sub")),
        file_type: 2,
    });
    assert_eq!(e.name, "sub");
    assert_eq!(e.file_type, FileType::Directory);
}

#[test]
fn writer_create_reply_maps_failures() {
    let e = Writer::from_create_reply(Err(channel(libc::EINVAL, Some("bad options")))).unwrap_err();
    assert_eq!(e.kind(), ErrorKind::InvalidInput);
    assert_eq!(e.message(), "bad options");
    let e = Writer::from_raw(&dwarfs_c_writer_options_init()).unwrap_err();
    assert_eq!(e.kind(), ErrorKind::NotSupported);
}
