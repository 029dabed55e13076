use vstd::prelude::*;

use crate::action::PatchAction;
use crate::config::{Platform, ZiPatchConfig};
use crate::error::ZiPatchError;
use crate::util::binary_reader::{be32, le32_bytes};
use crate::util::checksum_reader::ChecksumReader;
use crate::util::sqex_file::join_path;
use crate::util::sqpack_file::{dat_name, SqpackDatFile};
use crate::util::digits::{decimal, push_decimal, push_signed, signed_decimal};

verus! {

/// The header of an empty file block spanning `block_number` blocks: the
/// little-endian `i32` values 128, 0, 0, `block_number - 1`, 0.
pub open spec fn empty_block_header(block_number: u32) -> Seq<u8> {
    le32_bytes(128) + le32_bytes(0) + le32_bytes(0) + le32_bytes(
        ((block_number as int + 0xFFFF_FFFF) % 0x1_0000_0000) as nat,
    ) + le32_bytes(0)
}

fn push_le32(v: &mut Vec<u8>, x: u32)
    ensures
        final(v)@ == old(v)@ + le32_bytes(x as nat),
{
    v.push((x % 256) as u8);
    v.push(((x / 256) % 256) as u8);
    v.push(((x / 65536) % 256) as u8);
    v.push(((x / 16777216) % 256) as u8);
    assert(final(v)@ =~= old(v)@ + le32_bytes(x as nat));
}

/// The header of an empty file block spanning `block_number` blocks.
pub fn empty_file_block_header(block_number: u32) -> (r: Vec<u8>)
    ensures
        r@ == empty_block_header(block_number),
{
    let mut v = Vec::new();
    push_le32(&mut v, 128);
    push_le32(&mut v, 0);
    push_le32(&mut v, 0);
    push_le32(&mut v, block_number.wrapping_sub(1));
    push_le32(&mut v, 0);
    assert(v@ =~= empty_block_header(block_number));
    v
}

/// The SQPK delete-data command (`D`): blanks a run of blocks of a data file
/// and marks it as one empty file block.
#[derive(Debug, Clone, PartialEq, Eq)]
pub struct SqpkDeleteData {
    /// The data file changed.
    pub target_file: SqpackDatFile,
    /// Where the run starts, in bytes.
    pub block_offset: i64,
    /// How many 128-byte blocks the run spans.
    pub block_number: u32,
}

impl SqpkDeleteData {
    /// `self` holds the fields at `b[p..p+23]`: three alignment bytes, the
    /// identifier, the block offset (`u32` BE, times 128), the block count
    /// (`u32` BE) and four reserved bytes.
    pub open spec fn decoded_from(&self, b: Seq<u8>, p: int) -> bool {
        &&& self.target_file.sqpack.decoded_from(b, p + 3)
        &&& self.block_offset == be32(b, p + 11) * 128
        &&& self.block_number == be32(b, p + 15)
    }

    /// What applying the command under `game_path` and `platform` yields:
    /// zero `block_number * 128` bytes at the block offset of the data file,
    /// then write the empty-block header there.
    pub open spec fn work(
        &self,
        game_path: Seq<char>,
        platform: Platform,
        r: Result<Vec<PatchAction>, ZiPatchError>,
    ) -> bool {
        let f = self.target_file.sqpack;
        let path = join_path(game_path, dat_name(f.main_id, f.sub_id, f.file_id, platform));
        &&& r is Ok
        &&& r->Ok_0@.len() == 2
        &&& r->Ok_0@[0].is_wipe(path, (self.block_offset as u64) as int,
            self.block_number as int * 128)
        &&& r->Ok_0@[1].is_write(path, (self.block_offset as u64) as int,
            empty_block_header(self.block_number))
    }

    /// `SQPK:D:{target}:{offset}:{number}`, the target named for Win32.
    pub open spec fn display(&self) -> Seq<char> {
        "SQPK:D:"@ + self.target_file.display() + ":"@ + signed_decimal(self.block_offset as int)
            + ":"@ + decimal(self.block_number as nat)
    }

    /// `SQPK:D:{target}:{offset}:{number}`, the target named for Win32.
    pub fn to_display_string(&self) -> (r: String)
        ensures
            r@ == self.display(),
    {
        let mut s = String::new();
        s.append("SQPK:D:");
        let t = self.target_file.to_display_string();
        s.append(t.as_str());
        s.append(":");
        push_signed(&mut s, self.block_offset as i64);
        s.append(":");
        push_decimal(&mut s, self.block_number as u64);
        assert(s@ =~= self.display());
        s
    }

    /// Decodes the 23 bytes of the command.
    pub fn read(reader: &mut ChecksumReader) -> (r: Result<Self, ZiPatchError>)
        requires
            old(reader).wf(),
        ensures
            old(reader).read_outcome(final(reader), 23, r),
            r is Ok ==> r->Ok_0.decoded_from(old(reader).bytes(), old(reader).pos() as int),
    {
        if reader.read_limit() - reader.position() < 23 {
            return Err(ZiPatchError::UnexpectedEof(reader.position() as u64));
        }
        let _alignment = reader.read_bytes_required(3)?;
        let target_file = SqpackDatFile::read_from(reader)?;
        let block_offset = reader.read_u32_be()? as i64 * 128;
        let block_number = reader.read_u32_be()?;
        let _reserved = reader.read_u32_be()?;
        Ok(SqpkDeleteData { target_file, block_offset, block_number })
    }

    /// Names the target for the configured platform, and yields the work:
    /// zero `block_number * 128` bytes at the block offset, then write the
    /// empty-block header there.
    pub fn apply(&mut self, config: &mut ZiPatchConfig) -> (r: Result<
        Vec<PatchAction>,
        ZiPatchError,
    >)
        ensures
            *final(config) == *old(config),
            final(self).block_offset == old(self).block_offset,
            final(self).block_number == old(self).block_number,
            final(self).target_file.sqpack.sqex_file.relative_path@ == dat_name(
                old(self).target_file.sqpack.main_id,
                old(self).target_file.sqpack.sub_id,
                old(self).target_file.sqpack.file_id,
                old(config).platform,
            ),
            old(self).work(old(config).game_path@, old(config).platform, r),
    {
        self.target_file.resolve_path(config.platform);
        let path = self.target_file.sqex_file().resolve_full_path(config.game_path.as_str());
        let offset = self.block_offset as u64;
        let mut actions = Vec::new();
        actions.push(
            PatchAction::Wipe { path: path.clone(), offset,
                length: self.block_number as u64 * 128 },
        );
        actions.push(
            PatchAction::WriteAt {
                path,
                offset,
                data: empty_file_block_header(self.block_number),
            },
        );
        Ok(actions)
    }
}

} // verus!
