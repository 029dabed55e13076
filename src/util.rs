//! Byte-level building blocks: integer decoding, the checksummed reader, the
//! position guard, compressed blocks and pack-file naming.
pub mod advance_guard;
pub mod binary_reader;
pub mod checksum_reader;
pub mod compressed_block;
pub mod crc32;
pub mod digits;
pub mod retry;
pub mod sqex_file;
pub mod sqpack_file;

pub use advance_guard::AdvanceGuard;
pub use checksum_reader::ChecksumReader;
pub use compressed_block::SqpkCompressedBlock;
pub use crc32::Crc32;
pub use sqex_file::SqexFile;
pub use sqpack_file::{SqpackDatFile, SqpackFile, SqpackIndexFile};
