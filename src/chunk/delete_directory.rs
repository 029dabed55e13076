use vstd::prelude::*;

use crate::action::PatchAction;
use crate::config::ZiPatchConfig;
use crate::error::ZiPatchError;
use crate::util::binary_reader::{be32, trim_nul, utf8_lossy};
use crate::util::checksum_reader::ChecksumReader;
use crate::util::sqex_file::{join, join_path};

verus! {

/// The delete-directory chunk (`DELD`): removes a directory, if it exists.
#[derive(Debug, Clone, PartialEq, Eq)]
pub struct DeleteDirectoryChunk {
    /// The directory's path below the installation directory.
    pub dir_name: String,
}

impl DeleteDirectoryChunk {
    /// `self` holds the name whose length (`u32` BE) is at `b[p]`.
    pub open spec fn decoded_from(&self, b: Seq<u8>, p: int) -> bool {
        self.dir_name@ == utf8_lossy(trim_nul(b.subrange(p + 4, p + 4 + be32(b, p))))
    }

    /// Decodes the name length and the name.
    pub fn read(reader: &mut ChecksumReader, _size: u32) -> (r: Result<Self, ZiPatchError>)
        requires
            old(reader).wf(),
        ensures
            final(reader).wf(),
            final(reader).bytes() == old(reader).bytes(),
            final(reader).limit() == old(reader).limit(),
            final(reader).crc_start() == old(reader).crc_start(),
            ({
                let b = old(reader).bytes();
                let p = old(reader).pos() as int;
                &&& r is Ok <==> p + 4 <= old(reader).limit() && p + 4 + be32(b, p)
                    <= old(reader).limit()
                &&& r is Ok ==> r->Ok_0.decoded_from(b, p) && final(reader).pos() == p + 4 + be32(
                    b,
                    p,
                )
                &&& r is Err ==> r->Err_0 is UnexpectedEof
            }),
    {
        let dir_name_len = reader.read_u32_be()?;
        let dir_name = reader.read_fixed_string(dir_name_len as usize)?;
        Ok(DeleteDirectoryChunk { dir_name })
    }

    /// `DELD:{name}`.
    pub open spec fn display(&self) -> Seq<char> {
        "DELD:"@ + self.dir_name@
    }

    /// `DELD:{name}`.
    pub fn to_display_string(&self) -> (r: String)
        ensures
            r@ == self.display(),
    {
        let mut s = String::new();
        s.append("DELD:");
        s.append(self.dir_name.as_str());
        assert(s@ =~= self.display());
        s
    }

    /// Removes the directory, below the installation directory, if it exists.
    pub fn apply(&self, config: &mut ZiPatchConfig) -> (r: Result<Vec<PatchAction>, ZiPatchError>)
        ensures
            r is Ok,
            r->Ok_0@.len() == 1,
            r->Ok_0@[0].is_remove_dir(join_path(old(config).game_path@, self.dir_name@)),
            *final(config) == *old(config),
    {
        let path = join(config.game_path.as_str(), self.dir_name.as_str());
        let mut actions = Vec::new();
        actions.push(PatchAction::RemoveDir { path });
        Ok(actions)
    }
}

} // verus!
