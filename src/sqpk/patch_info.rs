use vstd::prelude::*;

use crate::action::PatchAction;
use crate::config::ZiPatchConfig;
use crate::error::ZiPatchError;
use crate::util::binary_reader::be64;
use crate::util::checksum_reader::ChecksumReader;
use crate::util::digits::{decimal, push_decimal};

verus! {

/// The SQPK patch-info command (`X`): decoded, but applying it does nothing.
#[derive(Debug, Clone, Copy, PartialEq, Eq, Structural)]
pub struct SqpkPatchInfo {
    /// Status byte.
    pub status: u8,
    /// Version byte.
    pub version: u8,
    /// Size of the installation.
    pub install_size: u64,
}

impl SqpkPatchInfo {
    /// `self` holds the fields at `b[p..p+11]`: status, version, an
    /// alignment byte, install size (`u64` BE).
    pub open spec fn decoded_from(&self, b: Seq<u8>, p: int) -> bool {
        &&& self.status == b[p]
        &&& self.version == b[p + 1]
        &&& self.install_size == be64(b, p + 3)
    }

    /// `SQPK:X:{status}:{version}:{install_size}`.
    pub open spec fn display(&self) -> Seq<char> {
        "SQPK:X:"@ + decimal(self.status as nat) + ":"@ + decimal(self.version as nat) + ":"@
            + decimal(self.install_size as nat)
    }

    /// `SQPK:X:{status}:{version}:{install_size}`.
    pub fn to_display_string(&self) -> (r: String)
        ensures
            r@ == self.display(),
    {
        let mut s = String::new();
        s.append("SQPK:X:");
        push_decimal(&mut s, self.status as u64);
        s.append(":");
        push_decimal(&mut s, self.version as u64);
        s.append(":");
        push_decimal(&mut s, self.install_size as u64);
        assert(s@ =~= self.display());
        s
    }

    /// Decodes the eleven bytes of the command.
    pub fn read(reader: &mut ChecksumReader) -> (r: Result<Self, ZiPatchError>)
        requires
            old(reader).wf(),
        ensures
            old(reader).read_outcome(final(reader), 11, r),
            r is Ok ==> r->Ok_0.decoded_from(old(reader).bytes(), old(reader).pos() as int),
    {
        if reader.read_limit() - reader.position() < 11 {
            return Err(ZiPatchError::UnexpectedEof(reader.position() as u64));
        }
        let status = reader.read_u8()?;
        let version = reader.read_u8()?;
        let _alignment = reader.read_u8()?;
        let install_size = reader.read_u64_be()?;
        Ok(SqpkPatchInfo { status, version, install_size })
    }

    /// Does nothing.
    pub fn apply(&self, config: &mut ZiPatchConfig) -> (r: Result<Vec<PatchAction>, ZiPatchError>)
        ensures
            r is Ok && r->Ok_0@.len() == 0,
            *final(config) == *old(config),
    {
        Ok(Vec::new())
    }
}

} // verus!
