//! A cursor over the bytes of a patch that keeps a running CRC-32 of what it
//! has consumed since the last reset.
use vstd::prelude::*;

use crate::error::ZiPatchError;
use crate::util::binary_reader::{
    be16, be32, be64, le32, le64, lemma_trim_nul, lossy_string, signed16, signed32, signed64,
    trim_nul, utf8_lossy,
};
use crate::util::crc32::{crc32, crc32_of};

verus! {

/// Reads a byte buffer front to back. Reads stop at a limit (the end of the
/// buffer, or the end of the chunk body being decoded) and fail, consuming
/// nothing, when too few bytes are left. The checksum covers every byte read
/// since the last call of `init_crc32`.
#[derive(Debug)]
pub struct ChecksumReader {
    data: Vec<u8>,
    pos: usize,
    limit: usize,
    crc_start: usize,
}

impl ChecksumReader {
    /// The whole buffer.
    pub closed spec fn bytes(&self) -> Seq<u8> {
        self.data@
    }

    /// Where the next read starts.
    pub closed spec fn pos(&self) -> nat {
        self.pos as nat
    }

    /// Where reads must stop.
    pub closed spec fn limit(&self) -> nat {
        self.limit as nat
    }

    /// Where the checksum was last reset.
    pub closed spec fn crc_start(&self) -> nat {
        self.crc_start as nat
    }

    pub open spec fn wf(&self) -> bool {
        self.crc_start() <= self.pos() <= self.limit() <= self.bytes().len() <= usize::MAX
    }

    /// The bytes that can still be read.
    pub open spec fn avail(&self) -> Seq<u8> {
        self.bytes().subrange(self.pos() as int, self.limit() as int)
    }

    /// `next` is `self` moved on by `n` bytes, all else kept.
    pub open spec fn moved(&self, next: &ChecksumReader, n: nat) -> bool {
        &&& next.bytes() == self.bytes()
        &&& next.limit() == self.limit()
        &&& next.crc_start() == self.crc_start()
        &&& next.pos() == self.pos() + n
        &&& next.wf()
    }

    /// What a read of `n` bytes owes: on success `n` bytes consumed, else
    /// nothing consumed and the offset of the failed read reported.
    pub open spec fn read_outcome<T>(
        &self,
        next: &ChecksumReader,
        n: nat,
        r: Result<T, ZiPatchError>,
    ) -> bool {
        &&& r is Ok <==> self.pos() + n <= self.limit()
        &&& r is Ok ==> self.moved(next, n)
        &&& r is Err ==> self.moved(next, 0) && r == Err::<T, ZiPatchError>(
            ZiPatchError::UnexpectedEof(self.pos() as u64),
        )
    }

    /// A reader over `data`, at its start.
    pub fn new(data: Vec<u8>) -> (r: Self)
        ensures
            r.bytes() == data@,
            r.pos() == 0,
            r.limit() == data@.len(),
            r.crc_start() == 0,
            r.wf(),
    {
        let limit = data.len();
        ChecksumReader { data, pos: 0, limit, crc_start: 0 }
    }

    /// Resets the checksum: it covers what is read from here on.
    pub fn init_crc32(&mut self)
        requires
            old(self).wf(),
        ensures
            final(self).bytes() == old(self).bytes(),
            final(self).pos() == old(self).pos(),
            final(self).limit() == old(self).limit(),
            final(self).crc_start() == old(self).pos(),
            final(self).wf(),
    {
        self.crc_start = self.pos;
    }

    /// The CRC-32 of the bytes read since the last reset.
    pub fn get_crc32(&self) -> (r: u32)
        requires
            self.wf(),
        ensures
            r == crc32_of(self.bytes().subrange(self.crc_start() as int, self.pos() as int)),
    {
        crc32(vstd::slice::slice_subrange(self.data.as_slice(), self.crc_start, self.pos))
    }

    /// The offset of the next read.
    pub fn position(&self) -> (r: usize)
        ensures
            r == self.pos(),
    {
        self.pos
    }

    /// The offset where reads stop.
    pub fn read_limit(&self) -> (r: usize)
        ensures
            r == self.limit(),
    {
        self.limit
    }

    /// The buffer read from.
    pub fn get_ref(&self) -> (r: &Vec<u8>)
        ensures
            r@ == self.bytes(),
    {
        &self.data
    }

    /// Gives the buffer back.
    pub fn into_inner(self) -> (r: Vec<u8>)
        ensures
            r@ == self.bytes(),
    {
        self.data
    }

    /// Moves to `pos` and lifts the limit to the end of the buffer; the
    /// checksum then starts afresh there.
    pub fn seek(&mut self, pos: usize) -> (r: Result<(), ZiPatchError>)
        ensures
            r is Ok <==> pos <= old(self).bytes().len(),
            r is Ok ==> final(self).pos() == pos && final(self).crc_start() == pos
                && final(self).limit() == old(self).bytes().len(),
            r is Err ==> *final(self) == *old(self) && r == Err::<(), ZiPatchError>(
                ZiPatchError::UnexpectedEof(pos as u64),
            ),
            final(self).bytes() == old(self).bytes(),
            old(self).wf() ==> final(self).wf(),
    {
        if pos <= self.data.len() {
            self.pos = pos;
            self.crc_start = pos;
            self.limit = self.data.len();
            Ok(())
        } else {
            Err(ZiPatchError::UnexpectedEof(pos as u64))
        }
    }

    /// Sets where reads stop.
    pub(crate) fn set_limit(&mut self, limit: usize)
        requires
            old(self).wf(),
            old(self).pos() <= limit <= old(self).bytes().len(),
        ensures
            final(self).bytes() == old(self).bytes(),
            final(self).pos() == old(self).pos(),
            final(self).crc_start() == old(self).crc_start(),
            final(self).limit() == limit,
            final(self).wf(),
    {
        self.limit = limit;
    }

    /// Consumes every byte up to `end`, which folds them into the checksum.
    pub(crate) fn consume_to(&mut self, end: usize)
        requires
            old(self).wf(),
            old(self).pos() <= end <= old(self).limit(),
        ensures
            old(self).moved(final(self), (end - old(self).pos()) as nat),
    {
        self.pos = end;
    }

    /// Reads one byte.
    pub fn read_u8(&mut self) -> (r: Result<u8, ZiPatchError>)
        requires
            old(self).wf(),
        ensures
            old(self).read_outcome(final(self), 1, r),
            r is Ok ==> r->Ok_0 == old(self).bytes()[old(self).pos() as int],
    {
        if self.pos < self.limit {
            let b = self.data[self.pos];
            self.pos = self.pos + 1;
            Ok(b)
        } else {
            Err(ZiPatchError::UnexpectedEof(self.pos as u64))
        }
    }

    /// Reads exactly `length` bytes.
    pub fn read_bytes_required(&mut self, length: usize) -> (r: Result<Vec<u8>, ZiPatchError>)
        requires
            old(self).wf(),
        ensures
            old(self).read_outcome(final(self), length as nat, r),
            r is Ok ==> r->Ok_0@ == old(self).bytes().subrange(
                old(self).pos() as int,
                old(self).pos() + length,
            ),
    {
        if length <= self.limit - self.pos {
            let end = self.pos + length;
            let v = vstd::slice::slice_to_vec(vstd::slice::slice_subrange(self.data.as_slice(),
                self.pos, end));
            self.pos = end;
            Ok(v)
        } else {
            Err(ZiPatchError::UnexpectedEof(self.pos as u64))
        }
    }

    /// Reads a big-endian `u16`.
    pub fn read_u16_be(&mut self) -> (r: Result<u16, ZiPatchError>)
        requires
            old(self).wf(),
        ensures
            old(self).read_outcome(final(self), 2, r),
            r is Ok ==> r->Ok_0 == be16(old(self).bytes(), old(self).pos() as int),
    {
        if 2 <= self.limit - self.pos {
            let p = self.pos;
            let v = (self.data[p] as u16) * 256 + self.data[p + 1] as u16;
            self.pos = p + 2;
            Ok(v)
        } else {
            Err(ZiPatchError::UnexpectedEof(self.pos as u64))
        }
    }

    /// Reads a big-endian `i16`.
    pub fn read_i16_be(&mut self) -> (r: Result<i16, ZiPatchError>)
        requires
            old(self).wf(),
        ensures
            old(self).read_outcome(final(self), 2, r),
            r is Ok ==> r->Ok_0 == signed16(be16(old(self).bytes(), old(self).pos() as int)),
    {
        let v = self.read_u16_be()?;
        if v < 0x8000 {
            Ok(v as i16)
        } else {
            Ok(((v - 0x8000) as i16) - 0x7FFF - 1)
        }
    }

    /// Reads a big-endian `u32`.
    pub fn read_u32_be(&mut self) -> (r: Result<u32, ZiPatchError>)
        requires
            old(self).wf(),
        ensures
            old(self).read_outcome(final(self), 4, r),
            r is Ok ==> r->Ok_0 == be32(old(self).bytes(), old(self).pos() as int),
    {
        if 4 <= self.limit - self.pos {
            let p = self.pos;
            let hi = (self.data[p] as u32) * 256 + self.data[p + 1] as u32;
            let lo = (self.data[p + 2] as u32) * 256 + self.data[p + 3] as u32;
            self.pos = p + 4;
            Ok(hi * 65536 + lo)
        } else {
            Err(ZiPatchError::UnexpectedEof(self.pos as u64))
        }
    }

    /// Reads a big-endian `i32`.
    pub fn read_i32_be(&mut self) -> (r: Result<i32, ZiPatchError>)
        requires
            old(self).wf(),
        ensures
            old(self).read_outcome(final(self), 4, r),
            r is Ok ==> r->Ok_0 == signed32(be32(old(self).bytes(), old(self).pos() as int)),
    {
        let v = self.read_u32_be()?;
        Ok(to_i32(v))
    }

    /// Reads a big-endian `u64`.
    pub fn read_u64_be(&mut self) -> (r: Result<u64, ZiPatchError>)
        requires
            old(self).wf(),
        ensures
            old(self).read_outcome(final(self), 8, r),
            r is Ok ==> r->Ok_0 == be64(old(self).bytes(), old(self).pos() as int),
    {
        if 8 <= self.limit - self.pos {
            let hi = self.read_u32_be()?;
            let lo = self.read_u32_be()?;
            Ok((hi as u64) * 0x1_0000_0000 + lo as u64)
        } else {
            Err(ZiPatchError::UnexpectedEof(self.pos as u64))
        }
    }

    /// Reads a big-endian `i64`.
    pub fn read_i64_be(&mut self) -> (r: Result<i64, ZiPatchError>)
        requires
            old(self).wf(),
        ensures
            old(self).read_outcome(final(self), 8, r),
            r is Ok ==> r->Ok_0 == signed64(be64(old(self).bytes(), old(self).pos() as int)),
    {
        let v = self.read_u64_be()?;
        if v < 0x8000_0000_0000_0000 {
            Ok(v as i64)
        } else {
            Ok(((v - 0x8000_0000_0000_0000) as i64) - 0x7FFF_FFFF_FFFF_FFFF - 1)
        }
    }

    /// Reads a little-endian `u32`.
    pub fn read_u32_le(&mut self) -> (r: Result<u32, ZiPatchError>)
        requires
            old(self).wf(),
        ensures
            old(self).read_outcome(final(self), 4, r),
            r is Ok ==> r->Ok_0 == le32(old(self).bytes(), old(self).pos() as int),
    {
        if 4 <= self.limit - self.pos {
            let p = self.pos;
            let lo = self.data[p] as u32 + (self.data[p + 1] as u32) * 256;
            let hi = self.data[p + 2] as u32 + (self.data[p + 3] as u32) * 256;
            self.pos = p + 4;
            Ok(lo + hi * 65536)
        } else {
            Err(ZiPatchError::UnexpectedEof(self.pos as u64))
        }
    }

    /// Reads a little-endian `i32`.
    pub fn read_i32_le(&mut self) -> (r: Result<i32, ZiPatchError>)
        requires
            old(self).wf(),
        ensures
            old(self).read_outcome(final(self), 4, r),
            r is Ok ==> r->Ok_0 == signed32(le32(old(self).bytes(), old(self).pos() as int)),
    {
        let v = self.read_u32_le()?;
        Ok(to_i32(v))
    }

    /// Reads a little-endian `u64`.
    pub fn read_u64_le(&mut self) -> (r: Result<u64, ZiPatchError>)
        requires
            old(self).wf(),
        ensures
            old(self).read_outcome(final(self), 8, r),
            r is Ok ==> r->Ok_0 == le64(old(self).bytes(), old(self).pos() as int),
    {
        if 8 <= self.limit - self.pos {
            let lo = self.read_u32_le()?;
            let hi = self.read_u32_le()?;
            Ok(lo as u64 + (hi as u64) * 0x1_0000_0000)
        } else {
            Err(ZiPatchError::UnexpectedEof(self.pos as u64))
        }
    }

    /// Reads `length` bytes and makes text of those before the first NUL.
    pub fn read_fixed_string(&mut self, length: usize) -> (r: Result<String, ZiPatchError>)
        requires
            old(self).wf(),
        ensures
            old(self).read_outcome(final(self), length as nat, r),
            r is Ok ==> r->Ok_0@ == utf8_lossy(
                trim_nul(
                    old(self).bytes().subrange(old(self).pos() as int, old(self).pos() + length),
                ),
            ),
    {
        let buffer = self.read_bytes_required(length)?;
        Ok(text_of(buffer.as_slice()))
    }

    /// Reads a four-character chunk tag.
    pub fn read_chunk_type(&mut self) -> (r: Result<String, ZiPatchError>)
        requires
            old(self).wf(),
        ensures
            old(self).read_outcome(final(self), 4, r),
            r is Ok ==> r->Ok_0@ == utf8_lossy(
                trim_nul(old(self).bytes().subrange(old(self).pos() as int, (old(self).pos()
                    + 4) as int)),
            ),
    {
        self.read_fixed_string(4)
    }
}

/// The text of the bytes before the first NUL.
pub(crate) fn text_of(buffer: &[u8]) -> (r: String)
    ensures
        r@ == utf8_lossy(trim_nul(buffer@)),
{
    let mut i: usize = 0;
    while i < buffer.len() && buffer[i] != 0
        invariant
            i <= buffer@.len(),
            forall|j: int| 0 <= j < i ==> buffer@[j] != 0,
        decreases buffer@.len() - i,
    {
        i = i + 1;
    }
    proof {
        lemma_trim_nul(buffer@, i as int);
    }
    lossy_string(vstd::slice::slice_subrange(buffer, 0, i))
}

/// The `i32` with the bit pattern of `v`.
pub(crate) fn to_i32(v: u32) -> (r: i32)
    ensures
        r == signed32(v as nat),
{
    if v < 0x8000_0000 {
        v as i32
    } else {
        ((v - 0x8000_0000) as i32) - 0x7FFF_FFFF - 1
    }
}

} // verus!
