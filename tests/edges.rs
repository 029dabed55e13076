use zipatch::chunk::{
    AddDirectoryChunk, ApplyFreeSpaceChunk, ApplyOptionChunk, ApplyOptionKind, EndOfFileChunk,
    ZiPatchChunk,
};
use zipatch::sqpk::{IndexCommandKind, SqpkIndex, SqpkPatchInfo};
use zipatch::sqpk::delete_data::empty_file_block_header;
use zipatch::util::retry::{next_step, OpenFailure, RetryStep};
use zipatch::util::sqex_file::join;
use zipatch::util::{AdvanceGuard, ChecksumReader, SqexFile, SqpackDatFile, SqpackIndexFile};
use zipatch::{Platform, ZiPatchChangeSet, ZiPatchConfig, ZiPatchError};

fn dat(id: [u8; 8]) -> SqpackDatFile {
    SqpackDatFile::read_from(&mut ChecksumReader::new(id.to_vec())).unwrap()
}

fn index(id: [u8; 8]) -> SqpackIndexFile {
    SqpackIndexFile::read_from(&mut ChecksumReader::new(id.to_vec())).unwrap()
}

#[test]
fn pack_names_follow_platform_and_pad_hex() {
    let id = [0x12, 0x34, 0x0A, 0xBC, 0x00, 0x00, 0x00, 0x0C];
    assert_eq!(dat(id).get_file_name(Platform::Ps3), "/sqpack/ex10/12340abc.ps3.dat12");
    assert_eq!(index(id).get_file_name(Platform::Ps4), "/sqpack/ex10/12340abc.ps4.index12");
    let small = [0x00, 0x01, 0x00, 0x02, 0x00, 0x00, 0x00, 0x00];
    assert_eq!(dat(small).get_file_name(Platform::Unknown), "/sqpack/ffxiv/010002.unknown.dat0");
    assert_eq!(index(small).get_file_name(Platform::Win32), "/sqpack/ffxiv/010002.win32.index");
}

#[test]
fn resolve_path_records_the_name() {
    let mut d = dat([0x00, 0x0A, 0x03, 0x00, 0, 0, 0, 1]);
    assert_eq!(d.sqex_file().relative_path, "/sqpack/ex3/");
    d.resolve_path(Platform::Win32);
    assert_eq!(d.sqex_file().relative_path, "/sqpack/ex3/0a0300.win32.dat1");
    d.sqex_file_mut().relative_path = "elsewhere".to_string();
    assert_eq!(d.sqpack.sqex_file.relative_path, "elsewhere");
}

#[test]
fn joining_paths() {
    assert_eq!(join("/g", "a/b"), "/g/a/b");
    assert_eq!(join("/g/", "a/b"), "/g/a/b");
    assert_eq!(join("/g", "/sqpack/x"), "/g/sqpack/x");
    assert_eq!(join("", "a"), "a");
}

#[test]
fn platform_numbers() {
    assert_eq!(Platform::from_u8(1).unwrap(), Platform::Ps3);
    assert_eq!(Platform::from_u16(3).unwrap(), Platform::Unknown);
    assert_eq!(Platform::from_u16(0x0104).unwrap_err(), ZiPatchError::InvalidPlatform(4));
    assert_eq!(Platform::from_u8(200).unwrap_err(), ZiPatchError::InvalidPlatform(200));
    assert_eq!(Platform::Ps4.as_u16(), 2);
    assert_eq!(Platform::default(), Platform::Unknown);
}

#[test]
fn empty_block_header_layout() {
    let mut expected = Vec::new();
    for v in [128u32, 0, 0, 9, 0] {
        expected.extend_from_slice(&v.to_le_bytes());
    }
    assert_eq!(empty_file_block_header(10), expected);
    let wrapped = empty_file_block_header(0);
    assert_eq!(&wrapped[12..16], &[0xFF, 0xFF, 0xFF, 0xFF]);
}

#[test]
fn names_stop_at_nul_and_replace_bad_bytes() {
    let mut body = 6u32.to_be_bytes().to_vec();
    body.extend_from_slice(&[b'a', 0xFF, b'b', 0, b'c', b'd']);
    let mut reader = ChecksumReader::new(body);
    let chunk = AddDirectoryChunk::read(&mut reader, 10).unwrap();
    assert_eq!(chunk.dir_name, "a\u{FFFD}b");
    assert_eq!(reader.position(), 10);
}

#[test]
fn retry_steps() {
    assert_eq!(next_step(5, OpenFailure::Busy), RetryStep::Retry(4));
    assert_eq!(next_step(2, OpenFailure::Other), RetryStep::Fail);
    assert_eq!(next_step(1, OpenFailure::Busy), RetryStep::Exhausted);
    assert_eq!(next_step(1, OpenFailure::Other), RetryStep::Fail);
    assert_eq!(next_step(0, OpenFailure::Busy), RetryStep::Exhausted);
}

#[test]
fn guard_past_the_end_is_refused() {
    let mut reader = ChecksumReader::new(vec![1, 2, 3]);
    assert_eq!(AdvanceGuard::new(&mut reader, 4).unwrap_err(), ZiPatchError::UnexpectedEof(0));
    let guard = AdvanceGuard::new(&mut reader, 3).unwrap();
    assert_eq!(guard.offset_before(), 0);
    assert_eq!(guard.offset_after(), 3);
    // Reads stop at the end of the scope.
    reader.read_u8().unwrap();
    assert_eq!(reader.read_u32_be().unwrap_err(), ZiPatchError::UnexpectedEof(1));
    guard.advance(&mut reader);
    assert_eq!(reader.position(), 3);
}

#[test]
fn short_reads_consume_nothing() {
    let mut reader = ChecksumReader::new(vec![0x12, 0x34, 0x56]);
    assert_eq!(reader.read_u32_be().unwrap_err(), ZiPatchError::UnexpectedEof(0));
    assert_eq!(reader.position(), 0);
    assert_eq!(reader.read_u16_be().unwrap(), 0x1234);
    assert_eq!(reader.read_i16_be().unwrap_err(), ZiPatchError::UnexpectedEof(2));
}

#[test]
fn signed_and_little_endian_reads() {
    let mut reader = ChecksumReader::new(vec![
        0xFF, 0xFE, 0xFF, 0xFF, 0xFF, 0xFD, 0x01, 0x02, 0x03, 0x04, 0x80, 0, 0, 0, 0, 0, 0, 0,
    ]);
    assert_eq!(reader.read_i16_be().unwrap(), -2);
    assert_eq!(reader.read_i32_be().unwrap(), -3);
    assert_eq!(reader.read_u32_le().unwrap(), 0x04030201);
    assert_eq!(reader.read_i64_be().unwrap(), i64::MIN);
}

#[test]
fn change_set_records_and_finishes() {
    let mut cs = ZiPatchChangeSet::new();
    let a = ZiPatchChunk::AddDirectory(AddDirectoryChunk { dir_name: "x".to_string() });
    cs.record_chunk(&a, Platform::Win32);
    cs.record_chunk(&a, Platform::Win32);
    assert_eq!(cs.added, vec!["x".to_string()]);
    cs.modified.push("x".to_string());
    cs.finish();
    assert!(cs.added.is_empty());
    assert_eq!(cs.total_changes(), 1);
}

#[test]
fn config_builder_sets_fields() {
    let c = ZiPatchConfig::builder("/g".to_string())
        .platform(Platform::Ps3)
        .ignore_missing(true)
        .ignore_old_mismatch(true)
        .build();
    assert_eq!(c.game_path(), "/g");
    assert_eq!(c.platform, Platform::Ps3);
    assert!(c.ignore_missing && c.ignore_old_mismatch);
    let d = ZiPatchConfig::new("/h".to_string());
    assert_eq!(d.platform, Platform::Unknown);
    assert!(!d.ignore_missing && !d.ignore_old_mismatch);
    assert_eq!(SqexFile::new("p".to_string()).resolve_full_path("/h"), "/h/p");
}

#[test]
fn chunks_as_text() {
    let apfs = ZiPatchChunk::ApplyFreeSpace(ApplyFreeSpaceChunk { unknown_field_a: -5, unknown_field_b: 7 });
    assert_eq!(apfs.to_display_string(), "APFS:-5:7");
    let aply = ZiPatchChunk::ApplyOption(ApplyOptionChunk {
        option_kind: ApplyOptionKind::IgnoreOldMismatch,
        option_value: true,
    });
    assert_eq!(aply.to_display_string(), "APLY:IgnoreOldMismatch:true");
    assert_eq!(ZiPatchChunk::EndOfFile(EndOfFileChunk {}).to_display_string(), "EOF_");
    let info = zipatch::SqpkCommand::PatchInfo(SqpkPatchInfo { status: 1, version: 2, install_size: 300 });
    assert_eq!(info.to_display_string(), "SQPK:X:1:2:300");
    let idx = SqpkIndex {
        index_command: IndexCommandKind::Delete,
        is_synonym: false,
        target_file: index([0x00, 0x0A, 0x00, 0x00, 0, 0, 0, 0]),
        file_hash: 0xBEEF,
        block_offset: 3,
        block_number: 4,
    };
    assert_eq!(idx.to_display_string(), "SQPK:I:Delete:false:/sqpack/ffxiv/0a0000.win32.index:BEEF:3:4");
    assert_eq!(i64::MIN.to_string().len(), 20);
    let big = ZiPatchChunk::ApplyFreeSpace(ApplyFreeSpaceChunk { unknown_field_a: i64::MIN, unknown_field_b: 0 });
    assert_eq!(big.to_display_string(), format!("APFS:{}:0", i64::MIN));
}
