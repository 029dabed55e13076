use vstd::prelude::*;

use crate::action::PatchAction;
use crate::config::ZiPatchConfig;
use crate::error::ZiPatchError;
use crate::inspection::command_counts::ZiPatchCommandCounts;
use crate::util::binary_reader::{be32, le32, signed64, trim_nul, utf8_lossy};
use crate::util::checksum_reader::ChecksumReader;
use crate::util::digits::{decimal, push_decimal};

verus! {

/// The version byte of a file header at `b[p..]`: bits 16 to 23 of its
/// first little-endian word.
pub open spec fn header_version(b: Seq<u8>, p: int) -> nat {
    (le32(b, p) / 65536) % 256
}

/// How many bytes the fields of a header of version `version` take.
pub open spec fn header_len(version: nat) -> nat {
    if version == 3 { 60 } else { 12 }
}

/// The file header chunk (`FHDR`): the patch's version and, from version 3
/// on, the number of commands of each kind it holds.
#[derive(Debug, Clone, PartialEq, Eq)]
pub struct FileHeaderChunk {
    /// Format version: 2 or 3.
    pub version: u8,
    /// Four-character patch type.
    pub patch_type: String,
    /// Number of entry files.
    pub entry_files: u32,
    /// Command counts (version 3 only).
    pub command_counts: Option<ZiPatchCommandCounts>,
    /// Add-directory count (version 3 only, else 0).
    pub add_directories: u32,
    /// Delete-directory count (version 3 only, else 0).
    pub delete_directories: u32,
    /// Size of deleted data (version 3 only, else 0).
    pub delete_data_size: i64,
    /// Minor version (version 3 only, else 0).
    pub minor_version: u32,
    /// Repository name (version 3 only, else 0).
    pub repository_name: u32,
}

impl FileHeaderChunk {
    /// `self` holds the header whose fields start at `b[p]`.
    pub open spec fn decoded_from(&self, b: Seq<u8>, p: int) -> bool {
        &&& self.version == header_version(b, p)
        &&& self.patch_type@ == utf8_lossy(trim_nul(b.subrange(p + 4, p + 8)))
        &&& self.entry_files == be32(b, p + 8)
        &&& if self.version == 3 {
            &&& self.add_directories == be32(b, p + 12)
            &&& self.delete_directories == be32(b, p + 16)
            &&& self.delete_data_size == signed64(be32(b, p + 20) + be32(b, p + 24) * 0x1_0000_0000)
            &&& self.minor_version == be32(b, p + 28)
            &&& self.repository_name == be32(b, p + 32)
            &&& self.command_counts == Some(
                ZiPatchCommandCounts::spec_with_counts(
                    be32(b, p + 12) as u32,
                    be32(b, p + 16) as u32,
                    be32(b, p + 36) as u32,
                    be32(b, p + 40) as u32,
                    be32(b, p + 44) as u32,
                    be32(b, p + 48) as u32,
                    be32(b, p + 52) as u32,
                    be32(b, p + 56) as u32,
                ),
            )
        } else {
            &&& self.command_counts is None
            &&& self.add_directories == 0
            &&& self.delete_directories == 0
            &&& self.delete_data_size == 0
            &&& self.minor_version == 0
            &&& self.repository_name == 0
        }
    }

    /// Decodes a file header. A version other than 2 or 3 is refused; the
    /// bytes after the fields are left for the caller to skip.
    pub fn read(reader: &mut ChecksumReader, _size: u32) -> (r: Result<Self, ZiPatchError>)
        requires
            old(reader).wf(),
        ensures
            final(reader).wf(),
            final(reader).bytes() == old(reader).bytes(),
            final(reader).limit() == old(reader).limit(),
            final(reader).crc_start() == old(reader).crc_start(),
            ({
                let b = old(reader).bytes();
                let p = old(reader).pos() as int;
                let v = header_version(b, p);
                &&& r is Ok <==> p + 4 <= old(reader).limit() && (v == 2 || v == 3) && p
                    + header_len(v) <= old(reader).limit()
                &&& r is Ok ==> r->Ok_0.decoded_from(b, p) && final(reader).pos() == p
                    + header_len(v)
                &&& p + 4 > old(reader).limit() ==> r == Err::<Self, ZiPatchError>(
                    ZiPatchError::UnexpectedEof(p as u64),
                )
                &&& p + 4 <= old(reader).limit() && !(v == 2 || v == 3) ==> r == Err::<
                    Self,
                    ZiPatchError,
                >(ZiPatchError::InvalidFileHeaderVersion(v as u8)) && final(reader).pos() == p + 4
                &&& r is Err && !(p + 4 <= old(reader).limit() && !(v == 2 || v == 3)) ==> r->Err_0
                    is UnexpectedEof
            }),
    {
        let version_field = reader.read_u32_le()?;
        let version = ((version_field / 65536) % 256) as u8;
        if version != 2 && version != 3 {
            return Err(ZiPatchError::InvalidFileHeaderVersion(version));
        }
        let rest: usize = if version == 3 { 56 } else { 8 };
        if reader.read_limit() - reader.position() < rest {
            return Err(ZiPatchError::UnexpectedEof(reader.position() as u64));
        }
        let patch_type = reader.read_fixed_string(4)?;
        let entry_files = reader.read_u32_be()?;
        if version == 3 {
            let adir = reader.read_u32_be()?;
            let deld = reader.read_u32_be()?;
            let delete_size_low = reader.read_u32_be()?;
            let delete_size_high = reader.read_u32_be()?;
            let minor_version = reader.read_u32_be()?;
            let repository_name = reader.read_u32_be()?;
            let total = reader.read_u32_be()?;
            let sqpk_add = reader.read_u32_be()?;
            let sqpk_delete = reader.read_u32_be()?;
            let sqpk_expand = reader.read_u32_be()?;
            let sqpk_header = reader.read_u32_be()?;
            let sqpk_file = reader.read_u32_be()?;
            let counts = ZiPatchCommandCounts::with_counts(
                adir,
                deld,
                total,
                sqpk_add,
                sqpk_delete,
                sqpk_expand,
                sqpk_header,
                sqpk_file,
            );
            let delete_data_size = to_i64(
                delete_size_low as u64 + (delete_size_high as u64) * 0x1_0000_0000,
            );
            Ok(FileHeaderChunk {
                version,
                patch_type,
                entry_files,
                command_counts: Some(counts),
                add_directories: adir,
                delete_directories: deld,
                delete_data_size,
                minor_version,
                repository_name,
            })
        } else {
            Ok(FileHeaderChunk {
                version,
                patch_type,
                entry_files,
                command_counts: None,
                add_directories: 0,
                delete_directories: 0,
                delete_data_size: 0,
                minor_version: 0,
                repository_name: 0,
            })
        }
    }
}

impl FileHeaderChunk {
    /// `FHDR:V{version}:{repository_name}`.
    pub open spec fn display(&self) -> Seq<char> {
        "FHDR:V"@ + decimal(self.version as nat) + ":"@ + decimal(self.repository_name as nat)
    }

    /// `FHDR:V{version}:{repository_name}`.
    pub fn to_display_string(&self) -> (r: String)
        ensures
            r@ == self.display(),
    {
        let mut s = String::new();
        s.append("FHDR:V");
        push_decimal(&mut s, self.version as u64);
        s.append(":");
        push_decimal(&mut s, self.repository_name as u64);
        assert(s@ =~= self.display());
        s
    }

    /// Does nothing: the header only describes the patch.
    pub fn apply(&self, config: &mut ZiPatchConfig) -> (r: Result<Vec<PatchAction>, ZiPatchError>)
        ensures
            r is Ok && r->Ok_0@.len() == 0,
            *final(config) == *old(config),
    {
        Ok(Vec::new())
    }
}

/// The `i64` with the bit pattern of `v`.
pub(crate) fn to_i64(v: u64) -> (r: i64)
    ensures
        r == signed64(v as nat),
{
    if v < 0x8000_0000_0000_0000 {
        v as i64
    } else {
        ((v - 0x8000_0000_0000_0000) as i64) - 0x7FFF_FFFF_FFFF_FFFF - 1
    }
}

} // verus!
