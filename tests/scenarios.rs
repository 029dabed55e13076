use zipatch::chunk::{ApplyOptionKind, ZiPatchChunk};
use zipatch::sqpk::{OperationKind, SqpkCommand, SqpkFile};
use zipatch::util::{ChecksumReader, SqpkCompressedBlock};
use zipatch::{PatchAction, Platform, ZiPatchConfig, ZiPatchError, ZiPatchFile};

const MAGIC: [u8; 12] = [0x91, 0x5A, 0x49, 0x50, 0x41, 0x54, 0x43, 0x48, 0x0D, 0x0A, 0x1A, 0x0A];

fn be32(v: u32) -> [u8; 4] {
    v.to_be_bytes()
}

/// A chunk: size, tag, body, CRC-32 of tag and body.
fn frame(tag: &[u8; 4], body: &[u8]) -> Vec<u8> {
    let mut covered = tag.to_vec();
    covered.extend_from_slice(body);
    let mut out = be32(body.len() as u32).to_vec();
    out.extend_from_slice(&covered);
    out.extend_from_slice(&be32(crc32fast::hash(&covered)));
    out
}

fn fhdr_body(version: u8) -> Vec<u8> {
    let mut b = vec![0, 0, version, 0];
    b.extend_from_slice(b"DIFF");
    b.extend_from_slice(&be32(7));
    if version == 3 {
        for v in [1u32, 2, 3, 4, 5, 0xAABBCCDD, 6, 7, 8, 9, 10, 11] {
            b.extend_from_slice(&be32(v));
        }
        b.extend(std::iter::repeat(0xEEu8).take(0xB8));
    } else {
        b.extend(std::iter::repeat(0xEEu8).take(0x08));
    }
    b
}

fn patch(chunks: &[Vec<u8>]) -> Vec<u8> {
    let mut out = MAGIC.to_vec();
    out.extend(frame(b"FHDR", &fhdr_body(3)));
    for c in chunks {
        out.extend_from_slice(c);
    }
    out.extend(frame(b"EOF_", &[]));
    out
}

fn sqpk(code: u8, fields: &[u8]) -> Vec<u8> {
    let size = (5 + fields.len()) as u32;
    let mut body = be32(size).to_vec();
    body.push(code);
    body.extend_from_slice(fields);
    frame(b"SQPK", &body)
}

fn named(name: &str) -> Vec<u8> {
    let mut b = be32(name.len() as u32).to_vec();
    b.extend_from_slice(name.as_bytes());
    b
}

fn apply_all(data: Vec<u8>, config: &mut ZiPatchConfig) -> Vec<PatchAction> {
    let mut patch = ZiPatchFile::new(data).unwrap();
    let mut it = patch.chunks();
    let mut actions = Vec::new();
    while let Some(chunk) = it.next(&mut patch) {
        let mut chunk = chunk.unwrap();
        actions.extend(chunk.apply(config).unwrap());
    }
    actions
}

#[test]
fn empty_patch_has_no_commands_and_no_changes() {
    let mut patch = ZiPatchFile::new(patch(&[])).unwrap();
    let counts = patch.calculate_actual_counts().unwrap();
    assert_eq!(counts.total_commands, 0);
    assert_eq!(counts.add_directories, 0);
    assert_eq!(counts.delete_directories, 0);
    assert_eq!(counts.sqpk_add_commands, 0);
    assert_eq!(counts.sqpk_delete_commands, 0);
    assert_eq!(counts.sqpk_expand_commands, 0);
    assert_eq!(counts.sqpk_header_commands, 0);
    assert_eq!(counts.sqpk_file_commands, 0);
    let config = ZiPatchConfig::new("/tmp/g".to_string());
    let changes = patch.calculate_changed_files(&config).unwrap();
    assert!(changes.is_empty());
    assert_eq!(patch.header().repository_name, 0xAABBCCDD);
}

#[test]
fn directory_add_then_remove() {
    let data = patch(&[frame(b"ADIR", &named("a/b")), frame(b"DELD", &named("a/b"))]);
    let mut file = ZiPatchFile::new(data.clone()).unwrap();
    let config = ZiPatchConfig::new("/tmp/g".to_string());
    let changes = file.calculate_changed_files(&config).unwrap();
    assert_eq!(changes.added, vec!["a/b".to_string()]);
    assert_eq!(changes.deleted, vec!["a/b".to_string()]);
    assert!(changes.modified.is_empty());
    let counts = file.calculate_actual_counts().unwrap();
    assert_eq!(counts.total_commands, 2);
    assert_eq!(counts.add_directories, 1);
    assert_eq!(counts.delete_directories, 1);

    let mut config = ZiPatchConfig::new("/tmp/g".to_string());
    let actions = apply_all(data, &mut config);
    assert_eq!(
        actions,
        vec![
            PatchAction::CreateDirAll { path: "/tmp/g/a/b".to_string() },
            PatchAction::RemoveDir { path: "/tmp/g/a/b".to_string() },
        ]
    );
}

fn target_info(platform: u16) -> Vec<u8> {
    let mut f = vec![0, 0, 0];
    f.extend_from_slice(&platform.to_be_bytes());
    f.extend_from_slice(&(-1i16).to_be_bytes());
    f.extend_from_slice(&0i16.to_be_bytes());
    f.extend_from_slice(&0u16.to_be_bytes());
    f.extend_from_slice(&0u64.to_le_bytes());
    f.extend_from_slice(&0u64.to_le_bytes());
    sqpk(b'T', &f)
}

#[test]
fn target_info_switches_platform() {
    let mut config = ZiPatchConfig::builder("/tmp/g".to_string()).platform(Platform::Win32).build();
    let actions = apply_all(patch(&[target_info(2)]), &mut config);
    assert!(actions.is_empty());
    assert_eq!(config.platform, Platform::Ps4);
}

#[test]
fn target_info_with_unknown_platform_is_refused() {
    let mut patch = ZiPatchFile::new(patch(&[target_info(9)])).unwrap();
    let mut it = patch.chunks();
    assert!(matches!(it.next(&mut patch), Some(Ok(ZiPatchChunk::FileHeader(_)))));
    assert!(matches!(it.next(&mut patch), Some(Err(ZiPatchError::InvalidPlatform(9)))));
    assert!(it.next(&mut patch).is_none());
}

fn header_command(file_kind: u8, header_kind: u8, id: [u8; 8], fill: u8) -> Vec<u8> {
    let mut f = vec![file_kind, header_kind, 0];
    f.extend_from_slice(&id);
    f.extend(std::iter::repeat(fill).take(1024));
    sqpk(b'H', &f)
}

#[test]
fn header_command_writes_named_pack_file() {
    let id = [0x00, 0x0A, 0x01, 0x00, 0, 0, 0, 0];
    let mut config = ZiPatchConfig::builder("/g".to_string()).platform(Platform::Win32).build();
    let actions = apply_all(patch(&[header_command(b'D', b'V', id, 0x5A)]), &mut config);
    assert_eq!(
        actions,
        vec![PatchAction::WriteAt {
            path: "/g/sqpack/ex1/0a0100.win32.dat0".to_string(),
            offset: 0,
            data: vec![0x5A; 1024],
        }]
    );
}

#[test]
fn index_header_goes_after_the_version_header() {
    let id = [0x00, 0x0A, 0x00, 0x00, 0, 0, 0, 3];
    let mut config = ZiPatchConfig::builder("/g".to_string()).platform(Platform::Ps3).build();
    let actions = apply_all(patch(&[header_command(b'I', b'I', id, 1)]), &mut config);
    assert_eq!(
        actions,
        vec![PatchAction::WriteAt {
            path: "/g/sqpack/ffxiv/0a0000.ps3.index3".to_string(),
            offset: 1024,
            data: vec![1; 1024],
        }]
    );
}

#[test]
fn add_data_writes_payload_then_zeroes() {
    let mut f = vec![0, 0, 0];
    f.extend_from_slice(&[0; 8]);
    f.extend_from_slice(&be32(2));
    f.extend_from_slice(&be32(1));
    f.extend_from_slice(&be32(1));
    let payload: Vec<u8> = (0..128u32).map(|i| (i * 7) as u8).collect();
    f.extend_from_slice(&payload);
    let mut config = ZiPatchConfig::builder("/g".to_string()).platform(Platform::Win32).build();
    let actions = apply_all(patch(&[sqpk(b'A', &f)]), &mut config);
    let path = "/g/sqpack/ffxiv/000000.win32.dat0".to_string();
    assert_eq!(
        actions,
        vec![
            PatchAction::WriteAt { path: path.clone(), offset: 256, data: payload },
            PatchAction::Wipe { path, offset: 384, length: 128 },
        ]
    );
}

#[test]
fn delete_data_blanks_and_writes_empty_block_header() {
    let mut f = vec![0, 0, 0];
    f.extend_from_slice(&[0, 1, 0, 0, 0, 0, 0, 2]);
    f.extend_from_slice(&be32(3));
    f.extend_from_slice(&be32(4));
    f.extend_from_slice(&be32(0));
    let mut config = ZiPatchConfig::builder("/g".to_string()).platform(Platform::Win32).build();
    let actions = apply_all(patch(&[sqpk(b'D', &f)]), &mut config);
    let path = "/g/sqpack/ffxiv/010000.win32.dat2".to_string();
    let mut header = Vec::new();
    for v in [128i32, 0, 0, 3, 0] {
        header.extend_from_slice(&v.to_le_bytes());
    }
    assert_eq!(
        actions,
        vec![
            PatchAction::Wipe { path: path.clone(), offset: 384, length: 512 },
            PatchAction::WriteAt { path, offset: 384, data: header },
        ]
    );
}

#[test]
fn flipped_bit_gives_checksum_mismatch_at_chunk_start() {
    let mut data = patch(&[frame(b"ADIR", &named("a/b"))]);
    let fhdr_len = 12 + fhdr_body(3).len();
    let adir_start = 12 + fhdr_len;
    // First byte of the directory name.
    data[adir_start + 12] ^= 0x01;
    let mut patch = ZiPatchFile::new(data.clone()).unwrap();
    let mut it = patch.chunks();
    assert!(matches!(it.next(&mut patch), Some(Ok(ZiPatchChunk::FileHeader(_)))));
    match it.next(&mut patch) {
        Some(Err(ZiPatchError::ChecksumMismatch { offset, expected, actual })) => {
            assert_eq!(offset, adir_start as u64);
            let body_end = adir_start + 8 + 7;
            assert_eq!(expected, crc32fast::hash(&data[adir_start + 4..body_end]));
            let stored = u32::from_be_bytes(data[body_end..body_end + 4].try_into().unwrap());
            assert_eq!(actual, stored);
            assert_ne!(expected, actual);
        },
        other => panic!("expected a checksum mismatch, got {:?}", other),
    }
    let config = ZiPatchConfig::new("/g".to_string());
    assert!(matches!(
        patch.calculate_changed_files(&config),
        Err(ZiPatchError::ChecksumMismatch { .. })
    ));
}

#[test]
fn file_header_versions() {
    for version in [2u8, 3] {
        let mut reader = ChecksumReader::new(frame(b"FHDR", &fhdr_body(version)));
        match ZiPatchChunk::read(&mut reader).unwrap() {
            ZiPatchChunk::FileHeader(h) => {
                assert_eq!(h.version, version);
                assert_eq!(h.patch_type, "DIFF");
                assert_eq!(h.entry_files, 7);
                if version == 3 {
                    let c = h.command_counts.unwrap();
                    assert_eq!(c.add_directories, 1);
                    assert_eq!(c.total_commands, 6);
                    assert_eq!(c.sqpk_file_commands, 11);
                    assert_eq!(h.delete_data_size, 3 | (4i64 << 32));
                    assert_eq!(h.minor_version, 5);
                    assert_eq!(h.repository_name, 0xAABBCCDD);
                } else {
                    assert!(h.command_counts.is_none());
                    assert_eq!(h.repository_name, 0);
                }
            },
            other => panic!("expected a file header, got {:?}", other),
        }
        // The unread tail of the body is consumed: the reader ends after the CRC.
        assert_eq!(reader.position(), 12 + fhdr_body(version).len());
    }
    for version in [1u8, 4] {
        let mut reader = ChecksumReader::new(frame(b"FHDR", &fhdr_body(version)));
        assert_eq!(
            ZiPatchChunk::read(&mut reader).unwrap_err(),
            ZiPatchError::InvalidFileHeaderVersion(version)
        );
    }
}

#[test]
fn unknown_chunk_tag_is_refused() {
    let mut reader = ChecksumReader::new(frame(b"ABCD", &[1, 2, 3]));
    assert_eq!(
        ZiPatchChunk::read(&mut reader).unwrap_err(),
        ZiPatchError::UnknownChunkType("ABCD".to_string(), 0)
    );
}

#[test]
fn unknown_sqpk_command_is_refused() {
    let mut reader = ChecksumReader::new(sqpk(b'Q', &[0; 8]));
    assert_eq!(
        ZiPatchChunk::read(&mut reader).unwrap_err(),
        ZiPatchError::UnknownSqpkCommand('Q', 0)
    );
}

#[test]
fn sqpk_inner_size_must_match() {
    let mut body = be32(99).to_vec();
    body.push(b'X');
    body.extend_from_slice(&[0; 11]);
    let mut reader = ChecksumReader::new(frame(b"SQPK", &body));
    assert_eq!(
        ZiPatchChunk::read(&mut reader).unwrap_err(),
        ZiPatchError::SqpkSizeMismatch { outer: 16, inner: 99 }
    );
}

#[test]
fn bad_magic_is_refused() {
    let mut data = patch(&[]);
    data[0] = 0;
    assert_eq!(
        ZiPatchFile::new(data).unwrap_err(),
        ZiPatchError::InvalidMagic([0x50495A00, 0x48435441, 0x0A1A0A0D])
    );
}

#[test]
fn patch_without_header_is_refused() {
    let mut data = MAGIC.to_vec();
    data.extend(frame(b"EOF_", &[]));
    assert!(matches!(ZiPatchFile::new(data), Err(ZiPatchError::Custom(_))));
}

#[test]
fn truncated_chunk_is_refused() {
    let data = frame(b"APLY", &[0; 12]);
    let mut reader = ChecksumReader::new(data[..data.len() - 1].to_vec());
    assert!(matches!(ZiPatchChunk::read(&mut reader), Err(ZiPatchError::UnexpectedEof(_))));
}

#[test]
fn apply_option_sets_flags() {
    let mut body = be32(1).to_vec();
    body.extend_from_slice(&[0, 0, 0, 4]);
    body.extend_from_slice(&be32(1));
    let mut body2 = be32(2).to_vec();
    body2.extend_from_slice(&[0, 0, 0, 4]);
    body2.extend_from_slice(&be32(5));
    let mut config = ZiPatchConfig::new("/g".to_string());
    let actions = apply_all(patch(&[frame(b"APLY", &body), frame(b"APLY", &body2)]), &mut config);
    assert!(actions.is_empty());
    assert!(config.ignore_missing);
    assert!(config.ignore_old_mismatch);
    assert_eq!(ApplyOptionKind::from_u32(7), ApplyOptionKind::Unknown);
}

fn file_command(op: u8, offset: i64, path: &str, expansion: u16, blocks: &[u8]) -> Vec<u8> {
    let mut f = vec![op, 0, 0];
    f.extend_from_slice(&offset.to_be_bytes());
    f.extend_from_slice(&0i64.to_be_bytes());
    f.extend_from_slice(&be32(path.len() as u32));
    f.extend_from_slice(&expansion.to_be_bytes());
    f.extend_from_slice(&[0, 0]);
    f.extend_from_slice(path.as_bytes());
    f.extend_from_slice(blocks);
    sqpk(b'F', &f)
}

fn raw_block(data: &[u8]) -> Vec<u8> {
    let mut b = Vec::new();
    b.extend_from_slice(&16i32.to_le_bytes());
    b.extend_from_slice(&0u32.to_le_bytes());
    b.extend_from_slice(&0x7d00i32.to_le_bytes());
    b.extend_from_slice(&(data.len() as i32).to_le_bytes());
    b.extend_from_slice(data);
    let total = (data.len() + 143) & !0x7F;
    b.resize(total, 0);
    b
}

fn deflate_block(data: &[u8]) -> Vec<u8> {
    let mut enc = flate2::write::DeflateEncoder::new(Vec::new(), flate2::Compression::default());
    std::io::Write::write_all(&mut enc, data).unwrap();
    let packed = enc.finish().unwrap();
    let mut b = Vec::new();
    b.extend_from_slice(&16i32.to_le_bytes());
    b.extend_from_slice(&0u32.to_le_bytes());
    b.extend_from_slice(&(packed.len() as i32).to_le_bytes());
    b.extend_from_slice(&(data.len() as i32).to_le_bytes());
    b.extend_from_slice(&packed);
    let total = (packed.len() + 143) & !0x7F;
    b.resize(total, 0);
    b
}

#[test]
fn add_file_at_offset_zero_truncates_then_writes_blocks() {
    let mut blocks = raw_block(b"raw part|");
    blocks.extend(deflate_block(b"deflated part, deflated part, deflated part"));
    let mut config = ZiPatchConfig::new("/g".to_string());
    let actions = apply_all(patch(&[file_command(b'A', 0, "x/y.bin", 0, &blocks)]), &mut config);
    assert_eq!(
        actions,
        vec![
            PatchAction::CreateParentDirs { path: "/g/x/y.bin".to_string() },
            PatchAction::Truncate { path: "/g/x/y.bin".to_string() },
            PatchAction::WriteAt {
                path: "/g/x/y.bin".to_string(),
                offset: 0,
                data: b"raw part|deflated part, deflated part, deflated part".to_vec(),
            },
        ]
    );
}

#[test]
fn add_file_at_later_offset_does_not_truncate() {
    let blocks = raw_block(b"tail");
    let data = patch(&[file_command(b'A', 4096, "x/y.bin", 0, &blocks)]);
    let mut config = ZiPatchConfig::new("/g".to_string());
    let actions = apply_all(data.clone(), &mut config);
    assert_eq!(
        actions,
        vec![
            PatchAction::CreateParentDirs { path: "/g/x/y.bin".to_string() },
            PatchAction::WriteAt { path: "/g/x/y.bin".to_string(), offset: 4096, data: b"tail".to_vec() },
        ]
    );
    let mut file = ZiPatchFile::new(data).unwrap();
    let changes = file.calculate_changed_files(&config).unwrap();
    assert_eq!(changes.modified, vec!["x/y.bin".to_string()]);
    assert!(changes.added.is_empty());
}

#[test]
fn corrupt_deflate_block_fails_to_apply() {
    let block = SqpkCompressedBlock {
        header_size: 16,
        compressed_size: 4,
        decompressed_size: 10,
        compressed_block: vec![0xFF, 0xFF, 0xFF, 0xFF],
    };
    assert!(matches!(block.decompress(), Err(ZiPatchError::DecompressionFailed(_))));
}

#[test]
fn deflate_block_is_inflated() {
    let bytes = deflate_block(b"hello hello hello hello");
    let mut reader = ChecksumReader::new(bytes);
    let block = SqpkCompressedBlock::read_from(&mut reader).unwrap();
    assert!(block.is_compressed());
    assert_eq!(block.decompress().unwrap(), b"hello hello hello hello".to_vec());
    assert_eq!(reader.position(), 128);
}

#[test]
fn remove_all_and_file_operations() {
    let mut config = ZiPatchConfig::new("/g".to_string());
    let data = patch(&[
        file_command(b'R', 0, "", 2, &[]),
        file_command(b'D', 0, "old.txt", 0, &[]),
        file_command(b'M', 0, "new/dir", 0, &[]),
    ]);
    let actions = apply_all(data.clone(), &mut config);
    assert_eq!(
        actions,
        vec![
            PatchAction::RemoveExpansionFiles {
                sqpack_dir: "/g/sqpack/ex2".to_string(),
                movie_dir: "/g/movie/ex2".to_string(),
            },
            PatchAction::RemoveFile { path: "/g/old.txt".to_string() },
            PatchAction::CreateDirAll { path: "/g/new/dir".to_string() },
        ]
    );
    let mut file = ZiPatchFile::new(data).unwrap();
    let changes = file.calculate_changed_files(&config).unwrap();
    assert_eq!(
        changes.deleted,
        vec!["sqpack/ex2/".to_string(), "movie/ex2/".to_string(), "old.txt".to_string()]
    );
    assert_eq!(changes.added, vec!["new/dir".to_string()]);
    let counts = file.calculate_actual_counts().unwrap();
    assert_eq!(counts.sqpk_file_commands, 3);
    assert_eq!(counts.total_commands, 3);
}

#[test]
fn remove_all_keeps_var_and_first_movies() {
    assert!(!SqpkFile::remove_all_filter("/g/sqpack/ex1/a.var"));
    assert!(!SqpkFile::remove_all_filter("/g/movie/ex1/00000.bk2"));
    assert!(!SqpkFile::remove_all_filter("/g/movie/ex1/00003.bk2"));
    assert!(SqpkFile::remove_all_filter("/g/movie/ex1/00004.bk2"));
    assert!(SqpkFile::remove_all_filter("/g/sqpack/ex1/020000.win32.dat0"));
    assert!(SqpkFile::remove_all_filter(""));
    assert_eq!(OperationKind::from_u8(b'Z'), None);
}

#[test]
fn sqpk_command_codes() {
    let mut reader = ChecksumReader::new(sqpk(b'X', &[1, 2, 0, 0, 0, 0, 0, 0, 0, 0, 9]));
    match ZiPatchChunk::read(&mut reader).unwrap() {
        ZiPatchChunk::Sqpk(cmd) => {
            assert_eq!(cmd.command_char(), 'X');
            match cmd {
                SqpkCommand::PatchInfo(p) => {
                    assert_eq!(p.status, 1);
                    assert_eq!(p.version, 2);
                    assert_eq!(p.install_size, 9);
                },
                other => panic!("unexpected {:?}", other),
            }
        },
        other => panic!("unexpected {:?}", other),
    }
}

#[test]
fn add_data_fields_write_back_to_the_body() {
    let mut f = vec![0, 0, 0];
    f.extend_from_slice(&[0x00, 0x0A, 0x02, 0x00, 0, 0, 0, 5]);
    f.extend_from_slice(&be32(9));
    f.extend_from_slice(&be32(1));
    f.extend_from_slice(&be32(3));
    f.extend((0..128u32).map(|i| i as u8));
    let framed = sqpk(b'A', &f);
    let body = framed[8..framed.len() - 4].to_vec();
    let mut reader = ChecksumReader::new(framed);
    let cmd = match ZiPatchChunk::read(&mut reader).unwrap() {
        ZiPatchChunk::Sqpk(SqpkCommand::AddData(a)) => a,
        other => panic!("unexpected {:?}", other),
    };
    let mut written = be32(body.len() as u32).to_vec();
    written.push(b'A');
    written.extend_from_slice(&[0, 0, 0]);
    written.extend_from_slice(&cmd.target_file.sqpack.main_id.to_be_bytes());
    written.extend_from_slice(&cmd.target_file.sqpack.sub_id.to_be_bytes());
    written.extend_from_slice(&cmd.target_file.sqpack.file_id.to_be_bytes());
    written.extend_from_slice(&((cmd.block_offset / 128) as u32).to_be_bytes());
    written.extend_from_slice(&((cmd.block_number / 128) as u32).to_be_bytes());
    written.extend_from_slice(&((cmd.block_delete_number / 128) as u32).to_be_bytes());
    written.extend_from_slice(&cmd.block_data);
    assert_eq!(written, body);
}

#[test]
fn refused_header_and_size_read_only_their_first_word() {
    let mut reader = ChecksumReader::new(vec![0, 0, 7, 0, 1, 2, 3, 4, 5, 6, 7, 8, 9, 10, 11, 12]);
    assert_eq!(
        zipatch::chunk::FileHeaderChunk::read(&mut reader, 16).unwrap_err(),
        ZiPatchError::InvalidFileHeaderVersion(7)
    );
    assert_eq!(reader.position(), 4);
    let mut body = be32(40).to_vec();
    body.extend_from_slice(&[b'X', 0, 0, 0]);
    let mut reader = ChecksumReader::new(body);
    assert_eq!(
        SqpkCommand::read(&mut reader, 8, 0).unwrap_err(),
        ZiPatchError::SqpkSizeMismatch { outer: 8, inner: 40 }
    );
    assert_eq!(reader.position(), 4);
}
