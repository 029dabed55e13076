//! The SQPK chunk and the commands it carries.
pub mod add_data;
pub mod delete_data;
pub mod expand_data;
pub mod file;
pub mod header;
pub mod index;
pub mod patch_info;
pub mod target_info;

pub use add_data::SqpkAddData;
pub use delete_data::SqpkDeleteData;
pub use expand_data::SqpkExpandData;
pub use file::{OperationKind, SqpkFile};
pub use header::{SqpkHeader, TargetFile, TargetFileKind, TargetHeaderKind};
pub use index::{IndexCommandKind, SqpkIndex};
pub use patch_info::SqpkPatchInfo;
pub use target_info::{RegionId, SqpkTargetInfo};

use vstd::prelude::*;

use crate::action::PatchAction;
use crate::config::{platform_of, Platform, ZiPatchConfig};
use crate::error::ZiPatchError;
use crate::sqpk::add_data::block_write_len;
use crate::util::binary_reader::{be16, be32, signed32};
use crate::util::checksum_reader::{to_i32, ChecksumReader};

verus! {

/// The command code of the SQPK command at `b[p..]`.
pub open spec fn command_code(b: Seq<u8>, p: int) -> u8 {
    b[p + 4]
}

/// An add-data or expand-data command fits in `b[p..limit]`.
pub open spec fn block_write_fits(b: Seq<u8>, p: int, limit: int) -> bool {
    p + 23 <= limit && p + block_write_len(b, p) <= limit
}

/// The command fields after the code, at `b[p+5..]`, can be read within `limit`.
pub open spec fn command_body_fits(b: Seq<u8>, p: int, limit: int, outer_size: u32) -> bool {
    let c = command_code(b, p);
    let q = p + 5;
    if c == 0x41 || c == 0x45 {
        block_write_fits(b, q, limit)
    } else if c == 0x44 {
        q + 23 <= limit
    } else if c == 0x46 {
        SqpkFile::fits(b, q, limit, if outer_size >= 5 { outer_size - 5 } else { 0 })
    } else if c == 0x48 {
        q + 1035 <= limit
    } else if c == 0x49 {
        q + 27 <= limit
    } else if c == 0x58 {
        q + 11 <= limit
    } else if c == 0x54 {
        q + 27 <= limit && platform_of(be16(b, q + 3)) is Some
    } else {
        false
    }
}

/// Whether `c` is the code of a known SQPK command.
pub open spec fn known_command(c: u8) -> bool {
    c == 0x41 || c == 0x44 || c == 0x45 || c == 0x46 || c == 0x48 || c == 0x49 || c == 0x58
        || c == 0x54
}

/// The error other than a short read that reading the SQPK command at
/// `b[p..limit]` gives, if any: a differing inner size, an unknown command
/// code, or for a target-info command an unknown platform.
pub open spec fn command_error(b: Seq<u8>, p: int, limit: int, outer_size: u32, offset: u64) -> Option<
    ZiPatchError,
> {
    let inner = signed32(be32(b, p));
    let c = command_code(b, p);
    if p + 4 > limit {
        None
    } else if inner != signed32(outer_size as nat) {
        Some(ZiPatchError::SqpkSizeMismatch { outer: outer_size, inner: inner as i32 })
    } else if p + 5 > limit {
        None
    } else if !known_command(c) {
        Some(ZiPatchError::UnknownSqpkCommand(c as char, offset))
    } else if c == 0x54 && p + 10 <= limit && platform_of(be16(b, p + 8)) is None {
        Some(ZiPatchError::InvalidPlatform(be16(b, p + 8) as u8))
    } else {
        None
    }
}

/// One command of an SQPK chunk.
#[derive(Debug, Clone, PartialEq, Eq)]
pub enum SqpkCommand {
    AddData(SqpkAddData),
    DeleteData(SqpkDeleteData),
    ExpandData(SqpkExpandData),
    File(SqpkFile),
    Header(SqpkHeader),
    Index(SqpkIndex),
    PatchInfo(SqpkPatchInfo),
    TargetInfo(SqpkTargetInfo),
}

impl SqpkCommand {
    /// `self` is the command at `b[p..limit]` of a chunk of `outer_size`
    /// bytes: an inner size (`i32` BE) equal to the outer one, a command
    /// code, and the command's fields.
    pub open spec fn decoded_from(&self, b: Seq<u8>, p: int, limit: int, outer_size: u32) -> bool {
        let c = command_code(b, p);
        let q = p + 5;
        &&& signed32(be32(b, p)) == signed32(outer_size as nat)
        &&& match self {
            SqpkCommand::AddData(x) => c == 0x41 && x.decoded_from(b, q),
            SqpkCommand::DeleteData(x) => c == 0x44 && x.decoded_from(b, q),
            SqpkCommand::ExpandData(x) => c == 0x45 && x.decoded_from(b, q),
            SqpkCommand::File(x) => c == 0x46 && x.decoded_from(
                b,
                q,
                limit,
                if outer_size >= 5 { outer_size - 5 } else { 0 },
            ),
            SqpkCommand::Header(x) => c == 0x48 && x.decoded_from(b, q),
            SqpkCommand::Index(x) => c == 0x49 && x.decoded_from(b, q),
            SqpkCommand::PatchInfo(x) => c == 0x58 && x.decoded_from(b, q),
            SqpkCommand::TargetInfo(x) => c == 0x54 && x.decoded_from(b, q),
        }
    }

    /// Decodes an SQPK command from a chunk body of `outer_size` bytes that
    /// starts at `offset`. A differing inner size and an unknown command
    /// code are refused.
    pub fn read(reader: &mut ChecksumReader, outer_size: u32, offset: u64) -> (r: Result<
        Self,
        ZiPatchError,
    >)
        requires
            old(reader).wf(),
        ensures
            final(reader).wf(),
            final(reader).bytes() == old(reader).bytes(),
            final(reader).limit() == old(reader).limit(),
            final(reader).crc_start() == old(reader).crc_start(),
            ({
                let b = old(reader).bytes();
                let p = old(reader).pos() as int;
                let l = old(reader).limit() as int;
                let inner = signed32(be32(b, p));
                let sizes_agree = inner == signed32(outer_size as nat);
                &&& r is Ok <==> p + 4 <= l && sizes_agree && p + 5 <= l && command_body_fits(
                    b,
                    p,
                    l,
                    outer_size,
                )
                &&& r is Ok ==> r->Ok_0.decoded_from(b, p, l, outer_size)
                &&& command_error(b, p, l, outer_size, offset) is Some ==> r == Err::<
                    Self,
                    ZiPatchError,
                >(command_error(b, p, l, outer_size, offset)->0)
                &&& r is Err && command_error(b, p, l, outer_size, offset) is None ==> r->Err_0
                    is UnexpectedEof
                &&& p + 4 <= l && !sizes_agree ==> final(reader).pos() == p + 4
            }),
    {
        let inner_size = reader.read_i32_be()?;
        if inner_size != to_i32(outer_size) {
            return Err(ZiPatchError::SqpkSizeMismatch { outer: outer_size, inner: inner_size });
        }
        let code = reader.read_u8()?;
        let remaining_size = outer_size.saturating_sub(5) as u64;
        let command = match code {
            0x41 => SqpkCommand::AddData(SqpkAddData::read(reader)?),
            0x44 => SqpkCommand::DeleteData(SqpkDeleteData::read(reader)?),
            0x45 => SqpkCommand::ExpandData(SqpkExpandData::read(reader)?),
            0x46 => SqpkCommand::File(SqpkFile::read(reader, remaining_size)?),
            0x48 => SqpkCommand::Header(SqpkHeader::read(reader)?),
            0x49 => SqpkCommand::Index(SqpkIndex::read(reader)?),
            0x58 => SqpkCommand::PatchInfo(SqpkPatchInfo::read(reader)?),
            0x54 => SqpkCommand::TargetInfo(SqpkTargetInfo::read(reader)?),
            _ => {
                return Err(ZiPatchError::UnknownSqpkCommand(code as char, offset));
            },
        };
        Ok(command)
    }

    /// What applying the command under `game_path` and `platform` yields.
    pub open spec fn work(
        &self,
        game_path: Seq<char>,
        platform: Platform,
        r: Result<Vec<PatchAction>, ZiPatchError>,
    ) -> bool {
        match self {
            SqpkCommand::AddData(x) => x.work(game_path, platform, r),
            SqpkCommand::DeleteData(x) => x.work(game_path, platform, r),
            SqpkCommand::ExpandData(x) => x.work(game_path, platform, r),
            SqpkCommand::File(x) => x.work(game_path, r),
            SqpkCommand::Header(x) => x.work(game_path, platform, r),
            _ => r is Ok && r->Ok_0@.len() == 0,
        }
    }

    /// The platform the settings hold once the command is applied: a
    /// target-info command sets it, the others keep it.
    pub open spec fn platform_after(&self, platform: Platform) -> Platform {
        match self {
            SqpkCommand::TargetInfo(x) => x.platform,
            _ => platform,
        }
    }

    /// Applies the command: yields its file-system work, and for a
    /// target-info command switches the platform.
    pub fn apply(&mut self, config: &mut ZiPatchConfig) -> (r: Result<
        Vec<PatchAction>,
        ZiPatchError,
    >)
        ensures
            old(self).work(old(config).game_path@, old(config).platform, r),
            *final(config) == (ZiPatchConfig {
                platform: old(self).platform_after(old(config).platform),
                ..*old(config)
            }),
    {
        match self {
            SqpkCommand::AddData(cmd) => cmd.apply(config),
            SqpkCommand::DeleteData(cmd) => cmd.apply(config),
            SqpkCommand::ExpandData(cmd) => cmd.apply(config),
            SqpkCommand::File(cmd) => cmd.apply(config),
            SqpkCommand::Header(cmd) => cmd.apply(config),
            SqpkCommand::Index(cmd) => cmd.apply(config),
            SqpkCommand::PatchInfo(cmd) => cmd.apply(config),
            SqpkCommand::TargetInfo(cmd) => cmd.apply(config),
        }
    }

    /// The command as text, as each kind of command writes itself.
    pub open spec fn display(&self) -> Seq<char> {
        match self {
            SqpkCommand::AddData(x) => x.display(),
            SqpkCommand::DeleteData(x) => x.display(),
            SqpkCommand::ExpandData(x) => x.display(),
            SqpkCommand::File(x) => x.display(),
            SqpkCommand::Header(x) => x.display(),
            SqpkCommand::Index(x) => x.display(),
            SqpkCommand::PatchInfo(x) => x.display(),
            SqpkCommand::TargetInfo(x) => x.display(),
        }
    }

    /// The command as text, as each kind of command writes itself.
    pub fn to_display_string(&self) -> (r: String)
        ensures
            r@ == self.display(),
    {
        match self {
            SqpkCommand::AddData(x) => x.to_display_string(),
            SqpkCommand::DeleteData(x) => x.to_display_string(),
            SqpkCommand::ExpandData(x) => x.to_display_string(),
            SqpkCommand::File(x) => x.to_display_string(),
            SqpkCommand::Header(x) => x.to_display_string(),
            SqpkCommand::Index(x) => x.to_display_string(),
            SqpkCommand::PatchInfo(x) => x.to_display_string(),
            SqpkCommand::TargetInfo(x) => x.to_display_string(),
        }
    }

    /// The command's code.
    pub fn command_char(&self) -> (r: char)
        ensures
            r == match self {
                SqpkCommand::AddData(_) => 'A',
                SqpkCommand::DeleteData(_) => 'D',
                SqpkCommand::ExpandData(_) => 'E',
                SqpkCommand::File(_) => 'F',
                SqpkCommand::Header(_) => 'H',
                SqpkCommand::Index(_) => 'I',
                SqpkCommand::PatchInfo(_) => 'X',
                SqpkCommand::TargetInfo(_) => 'T',
            },
    {
        match self {
            SqpkCommand::AddData(_) => 'A',
            SqpkCommand::DeleteData(_) => 'D',
            SqpkCommand::ExpandData(_) => 'E',
            SqpkCommand::File(_) => 'F',
            SqpkCommand::Header(_) => 'H',
            SqpkCommand::Index(_) => 'I',
            SqpkCommand::PatchInfo(_) => 'X',
            SqpkCommand::TargetInfo(_) => 'T',
        }
    }
}

} // verus!
