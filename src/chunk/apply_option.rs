use vstd::prelude::*;

use crate::action::PatchAction;
use crate::config::ZiPatchConfig;
use crate::error::ZiPatchError;
use crate::util::binary_reader::be32;
use crate::util::checksum_reader::ChecksumReader;
use crate::util::digits::{bool_text, push_bool};

verus! {

/// Which setting an apply-option chunk sets.
#[derive(Debug, Clone, Copy, PartialEq, Eq, Structural)]
pub enum ApplyOptionKind {
    /// Tolerate missing old files (1).
    IgnoreMissing,
    /// Tolerate old files with other content (2).
    IgnoreOldMismatch,
    /// Any other number.
    Unknown,
}

/// The option kind numbered `v`.
pub open spec fn option_kind_of(v: nat) -> ApplyOptionKind {
    if v == 1 {
        ApplyOptionKind::IgnoreMissing
    } else if v == 2 {
        ApplyOptionKind::IgnoreOldMismatch
    } else {
        ApplyOptionKind::Unknown
    }
}

impl ApplyOptionKind {
    /// The variant's name.
    pub open spec fn spec_label(self) -> Seq<char> {
        match self {
            ApplyOptionKind::IgnoreMissing => "IgnoreMissing"@,
            ApplyOptionKind::IgnoreOldMismatch => "IgnoreOldMismatch"@,
            ApplyOptionKind::Unknown => "Unknown"@,
        }
    }

    /// The variant's name.
    pub fn label(self) -> (r: &'static str)
        ensures
            r@ == self.spec_label(),
    {
        match self {
            ApplyOptionKind::IgnoreMissing => "IgnoreMissing",
            ApplyOptionKind::IgnoreOldMismatch => "IgnoreOldMismatch",
            ApplyOptionKind::Unknown => "Unknown",
        }
    }

    /// The option kind numbered `value`; numbers other than 1 and 2 are `Unknown`.
    pub fn from_u32(value: u32) -> (r: Self)
        ensures
            r == option_kind_of(value as nat),
    {
        match value {
            1 => ApplyOptionKind::IgnoreMissing,
            2 => ApplyOptionKind::IgnoreOldMismatch,
            _ => ApplyOptionKind::Unknown,
        }
    }
}

/// The apply-option chunk (`APLY`): sets one flag of the settings.
#[derive(Debug, Clone, Copy, PartialEq, Eq, Structural)]
pub struct ApplyOptionChunk {
    /// The flag set.
    pub option_kind: ApplyOptionKind,
    /// Its new value (`false` for an unknown kind).
    pub option_value: bool,
}

impl ApplyOptionChunk {
    /// `self` holds the fields that start at `b[p]`: kind (`u32` BE), four
    /// padding bytes, value (`u32` BE, non-zero is true).
    pub open spec fn decoded_from(&self, b: Seq<u8>, p: int) -> bool {
        &&& self.option_kind == option_kind_of(be32(b, p))
        &&& self.option_value == (self.option_kind != ApplyOptionKind::Unknown && be32(b, p + 8)
            != 0)
    }

    /// Decodes the twelve bytes of an apply-option chunk.
    pub fn read(reader: &mut ChecksumReader, _size: u32) -> (r: Result<Self, ZiPatchError>)
        requires
            old(reader).wf(),
        ensures
            old(reader).read_outcome(final(reader), 12, r),
            r is Ok ==> r->Ok_0.decoded_from(old(reader).bytes(), old(reader).pos() as int),
    {
        if reader.read_limit() - reader.position() < 12 {
            return Err(ZiPatchError::UnexpectedEof(reader.position() as u64));
        }
        let option_kind = ApplyOptionKind::from_u32(reader.read_u32_be()?);
        let _padding = reader.read_bytes_required(4)?;
        let value = reader.read_u32_be()? != 0;
        let option_value = match option_kind {
            ApplyOptionKind::IgnoreMissing | ApplyOptionKind::IgnoreOldMismatch => value,
            ApplyOptionKind::Unknown => false,
        };
        Ok(ApplyOptionChunk { option_kind, option_value })
    }

    /// `APLY:{kind}:{value}`.
    pub open spec fn display(&self) -> Seq<char> {
        "APLY:"@ + self.option_kind.spec_label() + ":"@ + bool_text(self.option_value)
    }

    /// `APLY:{kind}:{value}`.
    pub fn to_display_string(&self) -> (r: String)
        ensures
            r@ == self.display(),
    {
        let mut s = String::new();
        s.append("APLY:");
        s.append(self.option_kind.label());
        s.append(":");
        push_bool(&mut s, self.option_value);
        assert(s@ =~= self.display());
        s
    }

    /// Sets the flag named by the chunk; an unknown kind changes nothing.
    /// There is no file-system work.
    pub fn apply(&self, config: &mut ZiPatchConfig) -> (r: Result<Vec<PatchAction>, ZiPatchError>)
        ensures
            r is Ok && r->Ok_0@.len() == 0,
            *final(config) == match self.option_kind {
                ApplyOptionKind::IgnoreMissing => ZiPatchConfig {
                    ignore_missing: self.option_value,
                    ..*old(config)
                },
                ApplyOptionKind::IgnoreOldMismatch => ZiPatchConfig {
                    ignore_old_mismatch: self.option_value,
                    ..*old(config)
                },
                ApplyOptionKind::Unknown => *old(config),
            },
    {
        match self.option_kind {
            ApplyOptionKind::IgnoreMissing => {
                config.ignore_missing = self.option_value;
            },
            ApplyOptionKind::IgnoreOldMismatch => {
                config.ignore_old_mismatch = self.option_value;
            },
            ApplyOptionKind::Unknown => {},
        }
        Ok(Vec::new())
    }
}

} // verus!
