use vstd::prelude::*;

use crate::action::PatchAction;
use crate::config::{Platform, ZiPatchConfig};
use crate::error::ZiPatchError;
use crate::sqpk::add_data::{
    block_write_actions, block_write_decoded, block_write_len, read_block_write,
};
use crate::util::checksum_reader::ChecksumReader;
use crate::util::sqex_file::join_path;
use crate::util::sqpack_file::{dat_name, SqpackDatFile};
use crate::util::digits::{push_signed, signed_decimal};

verus! {

/// The SQPK expand-data command (`E`), sent when free space is added to a
/// data file: laid out and applied as an add-data command.
#[derive(Debug, Clone, PartialEq, Eq)]
pub struct SqpkExpandData {
    /// The data file written.
    pub target_file: SqpackDatFile,
    /// Where the data goes, in bytes.
    pub block_offset: i64,
    /// How many bytes of data there are.
    pub block_number: i64,
    /// How many bytes after the data are zeroed.
    pub block_delete_number: i64,
    /// The data.
    pub block_data: Vec<u8>,
}

impl SqpkExpandData {
    /// `self` holds the command whose fields start at `b[p]`.
    pub open spec fn decoded_from(&self, b: Seq<u8>, p: int) -> bool {
        block_write_decoded(
            self.target_file,
            self.block_offset,
            self.block_number,
            self.block_delete_number,
            self.block_data@,
            b,
            p,
        )
    }

    /// What applying the command under `game_path` and `platform` yields:
    /// write the data at the block offset of the data file, then zero
    /// `block_delete_number` bytes right after it.
    pub open spec fn work(
        &self,
        game_path: Seq<char>,
        platform: Platform,
        r: Result<Vec<PatchAction>, ZiPatchError>,
    ) -> bool {
        let f = self.target_file.sqpack;
        let path = join_path(game_path, dat_name(f.main_id, f.sub_id, f.file_id, platform));
        &&& r is Ok
        &&& r->Ok_0@.len() == 2
        &&& r->Ok_0@[0].is_write(path, (self.block_offset as u64) as int, self.block_data@)
        &&& r->Ok_0@[1].is_wipe(
            path,
            ((self.block_offset as u64) as int + self.block_data@.len()) % 0x1_0000_0000_0000_0000,
            (self.block_delete_number as u64) as int,
        )
    }

    /// `SQPK:E:{target}:{offset}:{number}:{delete_number}`, the target named for Win32.
    pub open spec fn display(&self) -> Seq<char> {
        "SQPK:E:"@ + self.target_file.display() + ":"@ + signed_decimal(self.block_offset as int)
            + ":"@ + signed_decimal(self.block_number as int) + ":"@
            + signed_decimal(self.block_delete_number as int)
    }

    /// `SQPK:E:{target}:{offset}:{number}:{delete_number}`, the target named for Win32.
    pub fn to_display_string(&self) -> (r: String)
        ensures
            r@ == self.display(),
    {
        let mut s = String::new();
        s.append("SQPK:E:");
        let t = self.target_file.to_display_string();
        s.append(t.as_str());
        s.append(":");
        push_signed(&mut s, self.block_offset as i64);
        s.append(":");
        push_signed(&mut s, self.block_number as i64);
        s.append(":");
        push_signed(&mut s, self.block_delete_number as i64);
        assert(s@ =~= self.display());
        s
    }

    /// Decodes the command's fields and data.
    pub fn read(reader: &mut ChecksumReader) -> (r: Result<Self, ZiPatchError>)
        requires
            old(reader).wf(),
        ensures
            final(reader).wf(),
            final(reader).bytes() == old(reader).bytes(),
            final(reader).limit() == old(reader).limit(),
            final(reader).crc_start() == old(reader).crc_start(),
            ({
                let b = old(reader).bytes();
                let p = old(reader).pos() as int;
                &&& r is Ok <==> p + 23 <= old(reader).limit() && p + block_write_len(b, p)
                    <= old(reader).limit()
                &&& r is Ok ==> r->Ok_0.decoded_from(b, p) && final(reader).pos() == p
                    + block_write_len(b, p)
                &&& r is Err ==> r->Err_0 is UnexpectedEof
            }),
    {
        let (target_file, block_offset, block_number, block_delete_number, block_data) =
            read_block_write(reader)?;
        Ok(SqpkExpandData { target_file, block_offset, block_number, block_delete_number,
            block_data })
    }

    /// Names the target for the configured platform, and yields the work:
    /// write the data at the block offset, then zero `block_delete_number`
    /// bytes right after it.
    pub fn apply(&mut self, config: &mut ZiPatchConfig) -> (r: Result<
        Vec<PatchAction>,
        ZiPatchError,
    >)
        ensures
            *final(config) == *old(config),
            final(self).block_offset == old(self).block_offset,
            final(self).block_delete_number == old(self).block_delete_number,
            final(self).block_data@ == old(self).block_data@,
            final(self).target_file.sqpack.sqex_file.relative_path@ == dat_name(
                old(self).target_file.sqpack.main_id,
                old(self).target_file.sqpack.sub_id,
                old(self).target_file.sqpack.file_id,
                old(config).platform,
            ),
            old(self).work(old(config).game_path@, old(config).platform, r),
    {
        self.target_file.resolve_path(config.platform);
        let path = self.target_file.sqex_file().resolve_full_path(config.game_path.as_str());
        Ok(block_write_actions(path, self.block_offset, self.block_delete_number, &self.block_data))
    }
}

} // verus!
