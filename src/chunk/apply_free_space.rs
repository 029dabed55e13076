use vstd::prelude::*;

use crate::action::PatchAction;
use crate::config::ZiPatchConfig;
use crate::error::ZiPatchError;
use crate::util::binary_reader::{be64, signed64};
use crate::util::checksum_reader::ChecksumReader;
use crate::util::digits::{push_signed, signed_decimal};

verus! {

/// The apply-free-space chunk (`APFS`): two numbers of unknown meaning;
/// applying it does nothing.
#[derive(Debug, Clone, Copy, PartialEq, Eq, Structural)]
pub struct ApplyFreeSpaceChunk {
    /// First field.
    pub unknown_field_a: i64,
    /// Second field.
    pub unknown_field_b: i64,
}

impl ApplyFreeSpaceChunk {
    /// `self` holds the two `i64` BE fields at `b[p..p+16]`.
    pub open spec fn decoded_from(&self, b: Seq<u8>, p: int) -> bool {
        &&& self.unknown_field_a == signed64(be64(b, p))
        &&& self.unknown_field_b == signed64(be64(b, p + 8))
    }

    /// Decodes the sixteen bytes of the chunk.
    pub fn read(reader: &mut ChecksumReader, _size: u32) -> (r: Result<Self, ZiPatchError>)
        requires
            old(reader).wf(),
        ensures
            old(reader).read_outcome(final(reader), 16, r),
            r is Ok ==> r->Ok_0.decoded_from(old(reader).bytes(), old(reader).pos() as int),
    {
        if reader.read_limit() - reader.position() < 16 {
            return Err(ZiPatchError::UnexpectedEof(reader.position() as u64));
        }
        let unknown_field_a = reader.read_i64_be()?;
        let unknown_field_b = reader.read_i64_be()?;
        Ok(ApplyFreeSpaceChunk { unknown_field_a, unknown_field_b })
    }

    /// `APFS:{a}:{b}`.
    pub open spec fn display(&self) -> Seq<char> {
        "APFS:"@ + signed_decimal(self.unknown_field_a as int) + ":"@
            + signed_decimal(self.unknown_field_b as int)
    }

    /// `APFS:{a}:{b}`.
    pub fn to_display_string(&self) -> (r: String)
        ensures
            r@ == self.display(),
    {
        let mut s = String::new();
        s.append("APFS:");
        push_signed(&mut s, self.unknown_field_a as i64);
        s.append(":");
        push_signed(&mut s, self.unknown_field_b as i64);
        assert(s@ =~= self.display());
        s
    }

    /// Does nothing.
    pub fn apply(&self, config: &mut ZiPatchConfig) -> (r: Result<Vec<PatchAction>, ZiPatchError>)
        ensures
            r is Ok && r->Ok_0@.len() == 0,
            *final(config) == *old(config),
    {
        Ok(Vec::new())
    }
}

} // verus!
