use vstd::prelude::*;

use crate::action::PatchAction;
use crate::config::ZiPatchConfig;
use crate::error::ZiPatchError;
use crate::util::binary_reader::{be32, be64};
use crate::util::checksum_reader::ChecksumReader;
use crate::util::sqpack_file::SqpackIndexFile;
use crate::util::digits::{
    bool_text, decimal, push_bool, push_decimal, push_upper_hex, upper_hex_digits,
};

verus! {

/// Whether an index command adds or deletes.
#[derive(Debug, Clone, Copy, PartialEq, Eq, Structural)]
pub enum IndexCommandKind {
    /// Add (`A`).
    Add,
    /// Delete (`D`).
    Delete,
}

/// The index command kind coded by `v`.
pub open spec fn index_kind_of(v: u8) -> Option<IndexCommandKind> {
    if v == 0x41 {
        Some(IndexCommandKind::Add)
    } else if v == 0x44 {
        Some(IndexCommandKind::Delete)
    } else {
        None
    }
}

impl IndexCommandKind {
    /// The variant's name.
    pub open spec fn spec_label(self) -> Seq<char> {
        match self {
            IndexCommandKind::Add => "Add"@,
            IndexCommandKind::Delete => "Delete"@,
        }
    }

    /// The variant's name.
    pub fn label(self) -> (r: &'static str)
        ensures
            r@ == self.spec_label(),
    {
        match self {
            IndexCommandKind::Add => "Add",
            IndexCommandKind::Delete => "Delete",
        }
    }

    /// The kind coded by `value`: `A` or `D`.
    pub fn from_u8(value: u8) -> (r: Option<Self>)
        ensures
            r == index_kind_of(value),
    {
        match value {
            0x41 => Some(IndexCommandKind::Add),
            0x44 => Some(IndexCommandKind::Delete),
            _ => None,
        }
    }
}

/// The SQPK index command (`I`): decoded, but applying it does nothing.
#[derive(Debug, Clone, PartialEq, Eq)]
pub struct SqpkIndex {
    /// Add or delete (an unknown code reads as add).
    pub index_command: IndexCommandKind,
    /// Whether the entry is a synonym.
    pub is_synonym: bool,
    /// The index file named.
    pub target_file: SqpackIndexFile,
    /// Hash of the file.
    pub file_hash: u64,
    /// Block offset.
    pub block_offset: u32,
    /// Block number.
    pub block_number: u32,
}

impl SqpkIndex {
    /// `self` holds the fields at `b[p..p+27]`.
    pub open spec fn decoded_from(&self, b: Seq<u8>, p: int) -> bool {
        &&& self.index_command == match index_kind_of(b[p]) {
            Some(k) => k,
            None => IndexCommandKind::Add,
        }
        &&& self.is_synonym == (b[p + 1] != 0)
        &&& self.target_file.sqpack.decoded_from(b, p + 3)
        &&& self.file_hash == be64(b, p + 11)
        &&& self.block_offset == be32(b, p + 19)
        &&& self.block_number == be32(b, p + 23)
    }

    /// `SQPK:I:{kind}:{synonym}:{target}:{HASH}:{offset}:{number}`, the target named for Win32 and
    /// the hash in uppercase hexadecimal.
    pub open spec fn display(&self) -> Seq<char> {
        "SQPK:I:"@ + self.index_command.spec_label() + ":"@ + bool_text(self.is_synonym) + ":"@
            + self.target_file.display() + ":"@ + upper_hex_digits(self.file_hash as nat) + ":"@
            + decimal(self.block_offset as nat) + ":"@ + decimal(self.block_number as nat)
    }

    /// `SQPK:I:{kind}:{synonym}:{target}:{HASH}:{offset}:{number}`, the target named for Win32 and
    /// the hash in uppercase hexadecimal.
    pub fn to_display_string(&self) -> (r: String)
        ensures
            r@ == self.display(),
    {
        let mut s = String::new();
        s.append("SQPK:I:");
        s.append(self.index_command.label());
        s.append(":");
        push_bool(&mut s, self.is_synonym);
        s.append(":");
        let t = self.target_file.to_display_string();
        s.append(t.as_str());
        s.append(":");
        push_upper_hex(&mut s, self.file_hash as u64);
        s.append(":");
        push_decimal(&mut s, self.block_offset as u64);
        s.append(":");
        push_decimal(&mut s, self.block_number as u64);
        assert(s@ =~= self.display());
        s
    }

    /// Decodes the 27 bytes of the command.
    pub fn read(reader: &mut ChecksumReader) -> (r: Result<Self, ZiPatchError>)
        requires
            old(reader).wf(),
        ensures
            old(reader).read_outcome(final(reader), 27, r),
            r is Ok ==> r->Ok_0.decoded_from(old(reader).bytes(), old(reader).pos() as int),
    {
        if reader.read_limit() - reader.position() < 27 {
            return Err(ZiPatchError::UnexpectedEof(reader.position() as u64));
        }
        let index_command = match IndexCommandKind::from_u8(reader.read_u8()?) {
            Some(k) => k,
            None => IndexCommandKind::Add,
        };
        let is_synonym = reader.read_u8()? != 0;
        let _alignment = reader.read_u8()?;
        let target_file = SqpackIndexFile::read_from(reader)?;
        let file_hash = reader.read_u64_be()?;
        let block_offset = reader.read_u32_be()?;
        let block_number = reader.read_u32_be()?;
        Ok(SqpkIndex { index_command, is_synonym, target_file, file_hash, block_offset,
            block_number })
    }

    /// Does nothing.
    pub fn apply(&self, config: &mut ZiPatchConfig) -> (r: Result<Vec<PatchAction>, ZiPatchError>)
        ensures
            r is Ok && r->Ok_0@.len() == 0,
            *final(config) == *old(config),
    {
        Ok(Vec::new())
    }
}

} // verus!
