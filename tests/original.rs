use zipatch::util::{
    AdvanceGuard, Crc32, ChecksumReader, SqexFile, SqpackDatFile, SqpackFile, SqpackIndexFile,
    SqpkCompressedBlock,
};
use zipatch::{Platform, ZiPatchChangeSet};

#[test]
fn test_new_changeset() {
    let cs = ZiPatchChangeSet::new();
    assert!(cs.is_empty());
    assert_eq!(cs.total_changes(), 0);
}

#[test]
fn test_with_changes() {
    let cs = ZiPatchChangeSet::with_changes(
        vec!["file1.dat".to_string()],
        vec!["file2.dat".to_string()],
        vec!["file3.dat".to_string()],
    );
    assert_eq!(cs.total_changes(), 3);
    assert!(!cs.is_empty());
}

#[test]
fn test_advance_guard_normal_read() {
    let data = vec![1, 2, 3, 4, 5, 6, 7, 8];
    let mut cursor = ChecksumReader::new(data);
    {
        let guard = AdvanceGuard::new(&mut cursor, 4).unwrap();
        cursor.read_bytes_required(4).unwrap();
        guard.advance(&mut cursor);
    }
    assert_eq!(cursor.position(), 4);
}

#[test]
fn test_advance_guard_partial_read() {
    let data = vec![1, 2, 3, 4, 5, 6, 7, 8];
    let mut cursor = ChecksumReader::new(data);
    {
        let guard = AdvanceGuard::new(&mut cursor, 8).unwrap();
        // Only two of the eight bytes are read.
        cursor.read_bytes_required(2).unwrap();
        guard.advance(&mut cursor);
    }
    assert_eq!(cursor.position(), 8);
}

#[test]
fn test_num_bytes_remaining() {
    let data = vec![1, 2, 3, 4, 5, 6, 7, 8];
    let mut cursor = ChecksumReader::new(data);
    {
        let guard = AdvanceGuard::new(&mut cursor, 6).unwrap();
        assert_eq!(guard.num_bytes_remaining(&cursor), 6);
        guard.advance(&mut cursor);
    }
    assert_eq!(cursor.position(), 6);
}

#[test]
fn test_read_u32_be() {
    let data = vec![0x00, 0x00, 0x00, 0x2A];
    let mut cursor = ChecksumReader::new(data);
    assert_eq!(cursor.read_u32_be().unwrap(), 42);
}

#[test]
fn test_read_fixed_string() {
    let data = b"FHDR\0\0\0\0".to_vec();
    let mut cursor = ChecksumReader::new(data);
    let s = cursor.read_fixed_string(8).unwrap();
    assert_eq!(s, "FHDR");
}

#[test]
fn test_read_fixed_string_no_null() {
    let data = b"SQPK".to_vec();
    let mut cursor = ChecksumReader::new(data);
    let s = cursor.read_fixed_string(4).unwrap();
    assert_eq!(s, "SQPK");
}

#[test]
fn test_read_chunk_type() {
    let data = b"EOF_".to_vec();
    let mut cursor = ChecksumReader::new(data);
    let chunk_type = cursor.read_chunk_type().unwrap();
    assert_eq!(chunk_type, "EOF_");
}

#[test]
fn test_read_bytes_required() {
    let data = vec![1, 2, 3, 4, 5];
    let mut cursor = ChecksumReader::new(data);
    let bytes = cursor.read_bytes_required(3).unwrap();
    assert_eq!(bytes, vec![1, 2, 3]);
}

#[test]
fn test_checksum_reader() {
    let data = b"Hello, World!";
    let mut reader = ChecksumReader::new(data.to_vec());
    reader.read_bytes_required(13).unwrap();
    let checksum = reader.get_crc32();
    let expected = crc32fast::hash(data);
    assert_eq!(checksum, expected);
}

#[test]
fn test_checksum_reader_reset() {
    let data = b"Test data here";
    let mut reader = ChecksumReader::new(data.to_vec());
    reader.read_bytes_required(4).unwrap();
    reader.init_crc32();
    reader.read_bytes_required(5).unwrap();
    let checksum = reader.get_crc32();
    let expected = crc32fast::hash(&data[4..9]);
    assert_eq!(checksum, expected);
}

#[test]
fn test_is_compressed() {
    let block = SqpkCompressedBlock {
        header_size: 16,
        compressed_size: 100,
        decompressed_size: 200,
        compressed_block: vec![],
    };
    assert!(block.is_compressed());

    let block2 = SqpkCompressedBlock {
        header_size: 16,
        compressed_size: 0x7d00,
        decompressed_size: 200,
        compressed_block: vec![],
    };
    assert!(!block2.is_compressed());
}

#[test]
fn test_compressed_block_length() {
    let block = SqpkCompressedBlock {
        header_size: 16,
        compressed_size: 100,
        decompressed_size: 200,
        compressed_block: vec![],
    };
    // (100 + 143) rounded down to a multiple of 128
    assert_eq!(block.compressed_block_length(), 128);
}

#[test]
fn test_uncompressed_block() {
    let data = b"Hello, World!";
    let block = SqpkCompressedBlock {
        header_size: 16,
        compressed_size: 0x7d00,
        decompressed_size: data.len() as i32,
        compressed_block: data.to_vec(),
    };
    let decompressed = block.decompress().unwrap();
    assert_eq!(decompressed, data);
}

#[test]
fn test_get_expansion_folder() {
    assert_eq!(SqexFile::get_expansion_folder(0), "ffxiv");
    assert_eq!(SqexFile::get_expansion_folder(1), "ex1");
    assert_eq!(SqexFile::get_expansion_folder(2), "ex2");
    assert_eq!(SqexFile::get_expansion_folder(5), "ex5");
}

#[test]
fn test_resolve_full_path() {
    let file = SqexFile::new("sqpack/ffxiv/000000.win32.dat0".to_string());
    let full_path = file.resolve_full_path("/game");
    assert_eq!(full_path, "/game/sqpack/ffxiv/000000.win32.dat0");
}

#[test]
fn test_display() {
    let file = SqexFile::new("test/path.dat".to_string());
    assert_eq!(file.to_display_string(), "test/path.dat");
}

#[test]
fn test_sqpack_file_read() {
    // MainId=0x0A, SubId=0x0000, FileId=0
    let data = vec![0x00, 0x0A, 0x00, 0x00, 0x00, 0x00, 0x00, 0x00];
    let mut cursor = ChecksumReader::new(data);
    let sqpack = SqpackFile::read_from(&mut cursor).unwrap();
    assert_eq!(sqpack.main_id, 0x0A);
    assert_eq!(sqpack.sub_id, 0x0000);
    assert_eq!(sqpack.file_id, 0);
    assert_eq!(sqpack.expansion_id(), 0);
}

#[test]
fn test_sqpack_dat_file_name() {
    let data = vec![0x00, 0x0A, 0x00, 0x00, 0x00, 0x00, 0x00, 0x00];
    let mut cursor = ChecksumReader::new(data);
    let dat = SqpackDatFile::read_from(&mut cursor).unwrap();
    let filename = dat.get_file_name(Platform::Win32);
    assert_eq!(filename, "/sqpack/ffxiv/0a0000.win32.dat0");
}

#[test]
fn test_sqpack_index_file_name() {
    let data = vec![0x00, 0x0A, 0x00, 0x00, 0x00, 0x00, 0x00, 0x00];
    let mut cursor = ChecksumReader::new(data);
    let index = SqpackIndexFile::read_from(&mut cursor).unwrap();
    let filename = index.get_file_name(Platform::Win32);
    assert_eq!(filename, "/sqpack/ffxiv/0a0000.win32.index");
}

#[test]
fn test_sqpack_index_file_name_with_id() {
    let data = vec![0x00, 0x0A, 0x00, 0x00, 0x00, 0x00, 0x00, 0x02];
    let mut cursor = ChecksumReader::new(data);
    let index = SqpackIndexFile::read_from(&mut cursor).unwrap();
    let filename = index.get_file_name(Platform::Win32);
    assert_eq!(filename, "/sqpack/ffxiv/0a0000.win32.index2");
}

#[test]
fn test_expansion_id_extraction() {
    let data = vec![0x00, 0x0A, 0x01, 0x00, 0x00, 0x00, 0x00, 0x00];
    let mut cursor = ChecksumReader::new(data);
    let sqpack = SqpackFile::read_from(&mut cursor).unwrap();
    assert_eq!(sqpack.expansion_id(), 1);
}

#[test]
fn test_crc32_empty() {
    let crc = Crc32::calculate(&[]);
    assert_eq!(crc, 0);
}

#[test]
fn test_crc32_incremental() {
    let data = b"Hello, World!";
    let mut crc = Crc32::new();
    crc.update(data);
    let result1 = crc.finalize();
    let result2 = Crc32::calculate(data);
    assert_eq!(result1, result2);
}

#[test]
fn test_crc32_reset() {
    let mut crc = Crc32::new();
    crc.update(b"test");
    crc.init();
    crc.update(b"data");
    let expected = Crc32::calculate(b"data");
    assert_eq!(crc.finalize(), expected);
}
