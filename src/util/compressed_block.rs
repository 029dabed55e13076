//! One block of an add-file command: a 16-byte little-endian header, then
//! deflate data or raw bytes, padded to a multiple of 128 bytes.
use vstd::prelude::*;

use crate::error::ZiPatchError;
use crate::util::binary_reader::{le32, signed32};
use crate::util::checksum_reader::ChecksumReader;

verus! {

/// The `compressed_size` that marks a block as stored raw.
pub const UNCOMPRESSED_MARK: i32 = 0x7d00;

/// What flate2's raw-deflate decoder makes of `b`: the inflated bytes, or
/// nothing when it rejects the stream.
pub uninterp spec fn inflated(b: Seq<u8>) -> Option<Seq<u8>>;

/// Relies on `flate2::read::DeflateDecoder`: reading the raw deflate stream
/// `b` to its end gives the inflated bytes or an error, which depend on `b`
/// alone.
#[verifier::external_body]
fn inflate(b: &[u8]) -> (r: Result<Vec<u8>, String>)
    ensures
        r is Ok <==> inflated(b@) is Some,
        r is Ok ==> r->Ok_0@ == inflated(b@)->0,
{
    let mut out = Vec::new();
    match std::io::Read::read_to_end(&mut flate2::read::DeflateDecoder::new(b), &mut out) {
        Ok(_) => Ok(out),
        Err(e) => Err(e.to_string()),
    }
}

/// A block's length on the wire, header included: its payload (the
/// compressed size, or for a raw block the decompressed size) plus 143,
/// rounded down to a multiple of 128.
pub open spec fn block_len_of(compressed_size: int, decompressed_size: int) -> int {
    let size = if compressed_size != UNCOMPRESSED_MARK as int {
        compressed_size
    } else {
        decompressed_size
    };
    (size + 143) - (size + 143) % 128
}

/// Header size of the block at `b[q..]`.
pub open spec fn header_size_at(b: Seq<u8>, q: int) -> int {
    signed32(le32(b, q))
}

/// Compressed size of the block at `b[q..]`.
pub open spec fn compressed_size_at(b: Seq<u8>, q: int) -> int {
    signed32(le32(b, q + 8))
}

/// Decompressed size of the block at `b[q..]`.
pub open spec fn decompressed_size_at(b: Seq<u8>, q: int) -> int {
    signed32(le32(b, q + 12))
}

/// Length on the wire of the block at `b[q..]`, from its header.
pub open spec fn block_len_at(b: Seq<u8>, q: int) -> int {
    block_len_of(compressed_size_at(b, q), decompressed_size_at(b, q))
}

/// Whether the block at `b[q..]` is deflate data.
pub open spec fn compressed_at(b: Seq<u8>, q: int) -> bool {
    compressed_size_at(b, q) != UNCOMPRESSED_MARK as int
}

/// How many bytes of data the block at `b[q..]` stores after its header.
pub open spec fn stored_len_at(b: Seq<u8>, q: int) -> int {
    if compressed_at(b, q) {
        block_len_at(b, q) - header_size_at(b, q)
    } else {
        decompressed_size_at(b, q)
    }
}

/// How many filler bytes follow the data of the block at `b[q..]`.
pub open spec fn filler_len_at(b: Seq<u8>, q: int) -> int {
    let f = block_len_at(b, q) - header_size_at(b, q) - decompressed_size_at(b, q);
    if compressed_at(b, q) || f <= 0 {
        0
    } else {
        f
    }
}

/// How many bytes reading the block at `b[q..]` consumes.
pub open spec fn block_wire_len(b: Seq<u8>, q: int) -> int {
    16 + stored_len_at(b, q) + filler_len_at(b, q)
}

/// A block can be read at `b[q..]` without passing `limit`.
pub open spec fn block_fits(b: Seq<u8>, q: int, limit: int) -> bool {
    &&& q + 16 <= limit
    &&& stored_len_at(b, q) >= 0
    &&& q + block_wire_len(b, q) <= limit
}

/// A block of an add-file command.
#[derive(Debug, Clone, PartialEq, Eq)]
pub struct SqpkCompressedBlock {
    /// Size of the block header.
    pub header_size: i32,
    /// Size of the deflate data, or `0x7d00` for a raw block.
    pub compressed_size: i32,
    /// Size of the data once inflated.
    pub decompressed_size: i32,
    /// The deflate data, or the raw bytes.
    pub compressed_block: Vec<u8>,
}

impl SqpkCompressedBlock {
    /// `self` is the block stored at `b[q..]`.
    pub open spec fn decoded_from(&self, b: Seq<u8>, q: int) -> bool {
        &&& self.header_size == header_size_at(b, q)
        &&& self.compressed_size == compressed_size_at(b, q)
        &&& self.decompressed_size == decompressed_size_at(b, q)
        &&& self.compressed_block@ == b.subrange(q + 16, q + 16 + stored_len_at(b, q))
    }

    /// Whether the block is deflate data.
    pub open spec fn spec_is_compressed(&self) -> bool {
        self.compressed_size != UNCOMPRESSED_MARK
    }

    /// The block's data once expanded, if it expands.
    pub open spec fn expanded(&self) -> Option<Seq<u8>> {
        if self.spec_is_compressed() {
            inflated(self.compressed_block@)
        } else {
            Some(self.compressed_block@)
        }
    }

    /// Reads a block: its header, its stored data, and for a raw block the
    /// filler up to its padded length.
    pub fn read_from(reader: &mut ChecksumReader) -> (r: Result<Self, ZiPatchError>)
        requires
            old(reader).wf(),
        ensures
            final(reader).wf(),
            final(reader).bytes() == old(reader).bytes(),
            final(reader).limit() == old(reader).limit(),
            final(reader).crc_start() == old(reader).crc_start(),
            ({
                let b = old(reader).bytes();
                let q = old(reader).pos() as int;
                &&& r is Ok <==> block_fits(b, q, old(reader).limit() as int)
                &&& r is Ok ==> r->Ok_0.decoded_from(b, q) && final(reader).pos() == q
                    + block_wire_len(b, q)
                &&& r is Err ==> r->Err_0 is UnexpectedEof
            }),
    {
        let header_size = reader.read_i32_le()?;
        let _pad = reader.read_u32_le()?;
        let compressed_size = reader.read_i32_le()?;
        let decompressed_size = reader.read_i32_le()?;
        let block_length = SqpkCompressedBlock::calculate_compressed_block_length(
            compressed_size,
            decompressed_size,
        );
        if compressed_size != UNCOMPRESSED_MARK {
            let n = block_length - header_size as i64;
            if n < 0 || n as u64 > (reader.read_limit() - reader.position()) as u64 {
                return Err(ZiPatchError::UnexpectedEof(reader.position() as u64));
            }
            let compressed_block = reader.read_bytes_required(n as usize)?;
            Ok(SqpkCompressedBlock { header_size, compressed_size, decompressed_size,
                compressed_block })
        } else {
            if decompressed_size < 0 {
                return Err(ZiPatchError::UnexpectedEof(reader.position() as u64));
            }
            let compressed_block = reader.read_bytes_required(decompressed_size as usize)?;
            let padding = block_length - header_size as i64 - decompressed_size as i64;
            if padding > 0 {
                if padding as u64 > (reader.read_limit() - reader.position()) as u64 {
                    return Err(ZiPatchError::UnexpectedEof(reader.position() as u64));
                }
                let _filler = reader.read_bytes_required(padding as usize)?;
            }
            Ok(SqpkCompressedBlock { header_size, compressed_size, decompressed_size,
                compressed_block })
        }
    }

    /// Whether the block is deflate data.
    pub fn is_compressed(&self) -> (r: bool)
        ensures
            r == self.spec_is_compressed(),
    {
        self.compressed_size != UNCOMPRESSED_MARK
    }

    /// The block's length on the wire, padding included.
    pub fn compressed_block_length(&self) -> (r: i64)
        ensures
            r == block_len_of(self.compressed_size as int, self.decompressed_size as int),
    {
        SqpkCompressedBlock::calculate_compressed_block_length(
            self.compressed_size,
            self.decompressed_size,
        )
    }

    /// A block's length on the wire from its two sizes.
    pub fn calculate_compressed_block_length(compressed_size: i32, decompressed_size: i32) -> (r:
        i64)
        ensures
            r == block_len_of(compressed_size as int, decompressed_size as int),
    {
        let size: i64 = if compressed_size != UNCOMPRESSED_MARK {
            compressed_size as i64
        } else {
            decompressed_size as i64
        };
        let x = size + 143;
        let m = x % 128;
        if m < 0 {
            x - (m + 128)
        } else {
            x - m
        }
    }

    /// The block's data expanded: deflate data is inflated, a raw block is
    /// copied as it is.
    pub fn decompress(&self) -> (r: Result<Vec<u8>, ZiPatchError>)
        ensures
            r is Ok <==> self.expanded() is Some,
            r is Ok ==> r->Ok_0@ == self.expanded()->0,
            r is Err ==> r->Err_0 is DecompressionFailed,
    {
        if self.is_compressed() {
            match inflate(self.compressed_block.as_slice()) {
                Ok(v) => Ok(v),
                Err(e) => Err(ZiPatchError::DecompressionFailed(e)),
            }
        } else {
            Ok(self.compressed_block.clone())
        }
    }
}

} // verus!
