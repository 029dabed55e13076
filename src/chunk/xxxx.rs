use vstd::prelude::*;

use crate::action::PatchAction;
use crate::config::ZiPatchConfig;
use crate::error::ZiPatchError;
use crate::util::checksum_reader::ChecksumReader;

verus! {

/// The `XXXX` chunk, never seen in practice. It holds nothing, and
/// applying it does nothing.
#[derive(Debug, Clone, Copy, PartialEq, Eq, Structural)]
pub struct XXXXChunk {}

impl XXXXChunk {
    /// Reads nothing: whatever the body holds is skipped.
    pub fn read(reader: &mut ChecksumReader, _size: u32) -> (r: Result<Self, ZiPatchError>)
        requires
            old(reader).wf(),
        ensures
            r is Ok,
            *final(reader) == *old(reader),
    {
        Ok(XXXXChunk {})
    }

    /// `XXXX`.
    pub open spec fn display(&self) -> Seq<char> {
        "XXXX"@
    }

    /// `XXXX`.
    pub fn to_display_string(&self) -> (r: String)
        ensures
            r@ == self.display(),
    {
        let mut s = String::new();
        s.append("XXXX");
        assert(s@ =~= self.display());
        s
    }

    /// Does nothing.
    pub fn apply(&self, config: &mut ZiPatchConfig) -> (r: Result<Vec<PatchAction>, ZiPatchError>)
        ensures
            r is Ok && r->Ok_0@.len() == 0,
            *final(config) == *old(config),
    {
        Ok(Vec::new())
    }
}

} // verus!
