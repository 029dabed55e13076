use vstd::prelude::*;

use crate::action::PatchAction;
use crate::config::{Platform, ZiPatchConfig};
use crate::error::ZiPatchError;
use crate::util::checksum_reader::ChecksumReader;
use crate::util::sqex_file::join_path;
use crate::util::sqpack_file::{dat_name, index_name, SqpackDatFile, SqpackIndexFile};

verus! {

/// Which kind of pack file a header command writes.
#[derive(Debug, Clone, Copy, PartialEq, Eq, Structural)]
pub enum TargetFileKind {
    /// A data file (`D`).
    Dat,
    /// An index file (`I`).
    Index,
}

/// The file kind coded by `v`.
pub open spec fn file_kind_of(v: u8) -> Option<TargetFileKind> {
    if v == 0x44 {
        Some(TargetFileKind::Dat)
    } else if v == 0x49 {
        Some(TargetFileKind::Index)
    } else {
        None
    }
}

impl TargetFileKind {
    /// The variant's name.
    pub open spec fn spec_label(self) -> Seq<char> {
        match self {
            TargetFileKind::Dat => "Dat"@,
            TargetFileKind::Index => "Index"@,
        }
    }

    /// The variant's name.
    pub fn label(self) -> (r: &'static str)
        ensures
            r@ == self.spec_label(),
    {
        match self {
            TargetFileKind::Dat => "Dat",
            TargetFileKind::Index => "Index",
        }
    }

    /// The file kind coded by `value`: `D` or `I`.
    pub fn from_u8(value: u8) -> (r: Option<Self>)
        ensures
            r == file_kind_of(value),
    {
        match value {
            0x44 => Some(TargetFileKind::Dat),
            0x49 => Some(TargetFileKind::Index),
            _ => None,
        }
    }
}

/// Which header of the file a header command writes.
#[derive(Debug, Clone, Copy, PartialEq, Eq, Structural)]
pub enum TargetHeaderKind {
    /// The version header (`V`), at offset 0.
    Version,
    /// The index header (`I`), at offset 1024.
    Index,
    /// The data header (`D`), at offset 1024.
    Data,
}

/// The header kind coded by `v`.
pub open spec fn header_kind_of(v: u8) -> Option<TargetHeaderKind> {
    if v == 0x56 {
        Some(TargetHeaderKind::Version)
    } else if v == 0x49 {
        Some(TargetHeaderKind::Index)
    } else if v == 0x44 {
        Some(TargetHeaderKind::Data)
    } else {
        None
    }
}

impl TargetHeaderKind {
    /// The variant's name.
    pub open spec fn spec_label(self) -> Seq<char> {
        match self {
            TargetHeaderKind::Version => "Version"@,
            TargetHeaderKind::Index => "Index"@,
            TargetHeaderKind::Data => "Data"@,
        }
    }

    /// The variant's name.
    pub fn label(self) -> (r: &'static str)
        ensures
            r@ == self.spec_label(),
    {
        match self {
            TargetHeaderKind::Version => "Version",
            TargetHeaderKind::Index => "Index",
            TargetHeaderKind::Data => "Data",
        }
    }

    /// The header kind coded by `value`: `V`, `I` or `D`.
    pub fn from_u8(value: u8) -> (r: Option<Self>)
        ensures
            r == header_kind_of(value),
    {
        match value {
            0x56 => Some(TargetHeaderKind::Version),
            0x49 => Some(TargetHeaderKind::Index),
            0x44 => Some(TargetHeaderKind::Data),
            _ => None,
        }
    }
}

/// The pack file a header command writes.
#[derive(Debug, Clone, PartialEq, Eq)]
pub enum TargetFile {
    Dat(SqpackDatFile),
    Index(SqpackIndexFile),
}

/// The path of a header command's target below the installation directory.
pub open spec fn target_name(t: TargetFile, platform: Platform) -> Seq<char> {
    match t {
        TargetFile::Dat(d) => dat_name(d.sqpack.main_id, d.sqpack.sub_id, d.sqpack.file_id,
            platform),
        TargetFile::Index(i) => index_name(
            i.sqpack.main_id,
            i.sqpack.sub_id,
            i.sqpack.file_id,
            platform,
        ),
    }
}

/// Size of the header data a header command carries.
pub const HEADER_SIZE: usize = 1024;

/// The SQPK header command (`H`): writes 1024 bytes of header into a data or
/// index file.
#[derive(Debug, Clone, PartialEq, Eq)]
pub struct SqpkHeader {
    /// Data or index file (an unknown code reads as data).
    pub file_kind: TargetFileKind,
    /// Which header (an unknown code reads as version).
    pub header_kind: TargetHeaderKind,
    /// The file written.
    pub target_file: TargetFile,
    /// The 1024 bytes of header.
    pub header_data: Vec<u8>,
}

impl SqpkHeader {
    /// `self` holds the fields at `b[p..p+1035]`: file kind, header kind, an
    /// alignment byte, the identifier, and the header data.
    pub open spec fn decoded_from(&self, b: Seq<u8>, p: int) -> bool {
        &&& self.file_kind == match file_kind_of(b[p]) {
            Some(k) => k,
            None => TargetFileKind::Dat,
        }
        &&& self.header_kind == match header_kind_of(b[p + 1]) {
            Some(k) => k,
            None => TargetHeaderKind::Version,
        }
        &&& match self.target_file {
            TargetFile::Dat(d) => self.file_kind == TargetFileKind::Dat && d.sqpack.decoded_from(
                b,
                p + 3,
            ),
            TargetFile::Index(i) => self.file_kind == TargetFileKind::Index
                && i.sqpack.decoded_from(b, p + 3),
        }
        &&& self.header_data@ == b.subrange(p + 11, p + 1035)
    }

    /// `SQPK:H:{file_kind}:{header_kind}:{target}`, the target named for Win32.
    pub open spec fn display(&self) -> Seq<char> {
        "SQPK:H:"@ + self.file_kind.spec_label() + ":"@ + self.header_kind.spec_label() + ":"@
            + target_name(self.target_file, Platform::Win32)
    }

    /// `SQPK:H:{file_kind}:{header_kind}:{target}`, the target named for Win32.
    pub fn to_display_string(&self) -> (r: String)
        ensures
            r@ == self.display(),
    {
        let mut s = String::new();
        s.append("SQPK:H:");
        s.append(self.file_kind.label());
        s.append(":");
        s.append(self.header_kind.label());
        s.append(":");
        let t = match &self.target_file {
            TargetFile::Dat(d) => d.get_file_name(Platform::Win32),
            TargetFile::Index(i) => i.get_file_name(Platform::Win32),
        };
        s.append(t.as_str());
        s
    }

    /// Where the header goes: 0 for the version header, 1024 for the others.
    pub open spec fn header_offset(&self) -> int {
        if self.header_kind == TargetHeaderKind::Version {
            0
        } else {
            1024
        }
    }

    /// What applying the command under `game_path` and `platform` yields:
    /// write the header data at the header's offset of the target file.
    pub open spec fn work(
        &self,
        game_path: Seq<char>,
        platform: Platform,
        r: Result<Vec<PatchAction>, ZiPatchError>,
    ) -> bool {
        &&& r is Ok
        &&& r->Ok_0@.len() == 1
        &&& r->Ok_0@[0].is_write(
            join_path(game_path, target_name(self.target_file, platform)),
            self.header_offset(),
            self.header_data@,
        )
    }

    /// Decodes the 1035 bytes of the command.
    pub fn read(reader: &mut ChecksumReader) -> (r: Result<Self, ZiPatchError>)
        requires
            old(reader).wf(),
        ensures
            old(reader).read_outcome(final(reader), 1035, r),
            r is Ok ==> r->Ok_0.decoded_from(old(reader).bytes(), old(reader).pos() as int),
    {
        if reader.read_limit() - reader.position() < 1035 {
            return Err(ZiPatchError::UnexpectedEof(reader.position() as u64));
        }
        let file_kind_byte = reader.read_u8()?;
        let header_kind_byte = reader.read_u8()?;
        let _alignment = reader.read_u8()?;
        let file_kind = match TargetFileKind::from_u8(file_kind_byte) {
            Some(k) => k,
            None => TargetFileKind::Dat,
        };
        let header_kind = match TargetHeaderKind::from_u8(header_kind_byte) {
            Some(k) => k,
            None => TargetHeaderKind::Version,
        };
        let target_file = match file_kind {
            TargetFileKind::Dat => TargetFile::Dat(SqpackDatFile::read_from(reader)?),
            TargetFileKind::Index => TargetFile::Index(SqpackIndexFile::read_from(reader)?),
        };
        let header_data = reader.read_bytes_required(HEADER_SIZE)?;
        Ok(SqpkHeader { file_kind, header_kind, target_file, header_data })
    }

    /// Names the target for the configured platform, and yields the work:
    /// write the header data at the header's offset.
    pub fn apply(&mut self, config: &mut ZiPatchConfig) -> (r: Result<
        Vec<PatchAction>,
        ZiPatchError,
    >)
        ensures
            *final(config) == *old(config),
            final(self).header_kind == old(self).header_kind,
            final(self).header_data@ == old(self).header_data@,
            old(self).work(old(config).game_path@, old(config).platform, r),
    {
        let offset: u64 = match self.header_kind {
            TargetHeaderKind::Version => 0,
            _ => HEADER_SIZE as u64,
        };
        let path = match &mut self.target_file {
            TargetFile::Dat(dat_file) => {
                dat_file.resolve_path(config.platform);
                dat_file.sqex_file().resolve_full_path(config.game_path.as_str())
            },
            TargetFile::Index(index_file) => {
                index_file.resolve_path(config.platform);
                index_file.sqex_file().resolve_full_path(config.game_path.as_str())
            },
        };
        let mut actions = Vec::new();
        actions.push(PatchAction::WriteAt { path, offset, data: self.header_data.clone() });
        Ok(actions)
    }
}

} // verus!
