//! Holds the decoding of a chunk body to the body's bytes, and afterwards
//! consumes whatever the decoder left, so that the checksum still covers it.
use vstd::prelude::*;

use crate::error::ZiPatchError;
use crate::util::checksum_reader::ChecksumReader;

verus! {

/// A scope of `size` bytes opened at a reader's position. While it is open
/// the reader cannot read past its end; `advance` closes it.
#[derive(Debug)]
pub struct AdvanceGuard {
    offset_before: u64,
    offset_after: u64,
    outer_limit: usize,
}

impl AdvanceGuard {
    /// Where the scope starts.
    pub closed spec fn before(&self) -> nat {
        self.offset_before as nat
    }

    /// Where the scope ends.
    pub closed spec fn after(&self) -> nat {
        self.offset_after as nat
    }

    /// The limit the reader had before the scope was opened.
    pub closed spec fn outer(&self) -> nat {
        self.outer_limit as nat
    }

    /// `reader` is held to this scope.
    pub open spec fn scopes(&self, reader: &ChecksumReader) -> bool {
        &&& reader.wf()
        &&& reader.limit() == self.after()
        &&& self.after() <= self.outer() <= reader.bytes().len()
    }

    /// Opens a scope of `size` bytes at the reader's position. This fails,
    /// changing nothing, when fewer than `size` bytes are left to read.
    pub fn new(stream: &mut ChecksumReader, size: u64) -> (r: Result<Self, ZiPatchError>)
        requires
            old(stream).wf(),
        ensures
            r is Ok <==> old(stream).pos() + size <= old(stream).limit(),
            r is Ok ==> {
                &&& r->Ok_0.before() == old(stream).pos()
                &&& r->Ok_0.after() == old(stream).pos() + size
                &&& r->Ok_0.outer() == old(stream).limit()
                &&& r->Ok_0.scopes(final(stream))
                &&& final(stream).bytes() == old(stream).bytes()
                &&& final(stream).pos() == old(stream).pos()
                &&& final(stream).crc_start() == old(stream).crc_start()
            },
            r is Err ==> *final(stream) == *old(stream) && r == Err::<Self, ZiPatchError>(
                ZiPatchError::UnexpectedEof(old(stream).pos() as u64),
            ),
    {
        let offset_before = stream.position();
        let outer_limit = stream.read_limit();
        if size > (outer_limit - offset_before) as u64 {
            return Err(ZiPatchError::UnexpectedEof(offset_before as u64));
        }
        let end = offset_before + size as usize;
        stream.set_limit(end);
        Ok(AdvanceGuard { offset_before: offset_before as u64, offset_after: end as u64,
            outer_limit })
    }

    /// Where the scope starts.
    pub fn offset_before(&self) -> (r: u64)
        ensures
            r == self.before(),
    {
        self.offset_before
    }

    /// Where the scope ends.
    pub fn offset_after(&self) -> (r: u64)
        ensures
            r == self.after(),
    {
        self.offset_after
    }

    /// How many bytes of the scope are left unread.
    pub fn num_bytes_remaining(&self, stream: &ChecksumReader) -> (r: u64)
        ensures
            r == if stream.pos() < self.after() {
                self.after() - stream.pos()
            } else {
                0
            },
    {
        let current = stream.position() as u64;
        self.offset_after.saturating_sub(current)
    }

    /// Closes the scope: consumes the bytes left in it, which the checksum
    /// then covers, and gives the reader its former limit back.
    pub fn advance(self, stream: &mut ChecksumReader)
        requires
            self.scopes(old(stream)),
        ensures
            final(stream).wf(),
            final(stream).bytes() == old(stream).bytes(),
            final(stream).crc_start() == old(stream).crc_start(),
            final(stream).pos() == self.after(),
            final(stream).limit() == self.outer(),
    {
        stream.consume_to(self.offset_after as usize);
        stream.set_limit(self.outer_limit);
    }
}

} // verus!
