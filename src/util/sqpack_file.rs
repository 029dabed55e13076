//! Pack files (`.dat{N}` and `.index[N]`) and how their names derive from an
//! eight-byte identifier and the platform.
use vstd::prelude::*;

use crate::config::{platform_name, Platform};
use crate::error::ZiPatchError;
use crate::util::binary_reader::{be16, be32};
use crate::util::checksum_reader::ChecksumReader;
use crate::util::digits::{decimal, hex, push_decimal, push_hex};
use crate::util::sqex_file::{expansion_folder, SqexFile};

verus! {

/// `/sqpack/{folder}/` for an expansion.
pub open spec fn expansion_path(expansion_id: nat) -> Seq<char> {
    "/sqpack/"@ + expansion_folder(expansion_id) + "/"@
}

/// `{main_id:02x}{sub_id:04x}.{platform}`.
pub open spec fn base_filename(main_id: u16, sub_id: u16, platform: Platform) -> Seq<char> {
    hex(main_id as nat, 2) + hex(sub_id as nat, 4) + "."@ + platform_name(platform)
}

/// The expansion a pack file belongs to: the high byte of its sub id.
pub open spec fn expansion_of(sub_id: u16) -> nat {
    sub_id as nat / 256
}

/// The path of a data file: `/sqpack/{exp}/{base}.dat{file_id}`.
pub open spec fn dat_name(main_id: u16, sub_id: u16, file_id: u32, platform: Platform) -> Seq<
    char,
> {
    expansion_path(expansion_of(sub_id)) + base_filename(main_id, sub_id, platform) + ".dat"@
        + decimal(file_id as nat)
}

/// The path of an index file: `/sqpack/{exp}/{base}.index`, with the file id
/// after it when that is not 0.
pub open spec fn index_name(main_id: u16, sub_id: u16, file_id: u32, platform: Platform) -> Seq<
    char,
> {
    expansion_path(expansion_of(sub_id)) + base_filename(main_id, sub_id, platform) + ".index"@
        + if file_id == 0 {
        Seq::<char>::empty()
    } else {
        decimal(file_id as nat)
    }
}

/// The identity of a pack file, as a patch names it.
#[derive(Debug, Clone, PartialEq, Eq)]
pub struct SqpackFile {
    /// First part of the file name.
    pub main_id: u16,
    /// Second part of the file name; its high byte is the expansion.
    pub sub_id: u16,
    /// Number of the file among its kind.
    pub file_id: u32,
    /// Where the file lies; set by `resolve_path` of the data or index file.
    pub sqex_file: SqexFile,
}

impl SqpackFile {
    /// `self` holds the identifier stored at `b[i..i+8]`.
    pub open spec fn decoded_from(&self, b: Seq<u8>, i: int) -> bool {
        &&& self.main_id == be16(b, i)
        &&& self.sub_id == be16(b, i + 2)
        &&& self.file_id == be32(b, i + 4)
        &&& self.sqex_file.relative_path@ == expansion_path(expansion_of(self.sub_id))
    }

    /// Reads the eight-byte identifier: `main_id: u16 BE, sub_id: u16 BE,
    /// file_id: u32 BE`.
    pub fn read_from(reader: &mut ChecksumReader) -> (r: Result<Self, ZiPatchError>)
        requires
            old(reader).wf(),
        ensures
            old(reader).read_outcome(final(reader), 8, r),
            r is Ok ==> r->Ok_0.decoded_from(old(reader).bytes(), old(reader).pos() as int),
    {
        if reader.read_limit() - reader.position() < 8 {
            return Err(ZiPatchError::UnexpectedEof(reader.position() as u64));
        }
        let main_id = reader.read_u16_be()?;
        let sub_id = reader.read_u16_be()?;
        let file_id = reader.read_u32_be()?;
        let expansion_path = SqpackFile::get_expansion_path((sub_id / 256) as u8);
        Ok(SqpackFile { main_id, sub_id, file_id, sqex_file: SqexFile::new(expansion_path) })
    }

    /// The expansion: the high byte of `sub_id`.
    pub fn expansion_id(&self) -> (r: u8)
        ensures
            r == expansion_of(self.sub_id),
    {
        (self.sub_id / 256) as u8
    }

    /// `/sqpack/{folder}/` for an expansion.
    pub fn get_expansion_path(expansion_id: u8) -> (r: String)
        ensures
            r@ == expansion_path(expansion_id as nat),
    {
        let mut s = String::from_str("/sqpack/");
        let folder = SqexFile::get_expansion_folder(expansion_id);
        s.append(folder.as_str());
        s.append("/");
        s
    }

    /// `{main_id:02x}{sub_id:04x}.{platform}`.
    pub fn get_base_filename(&self, platform: Platform) -> (r: String)
        ensures
            r@ == base_filename(self.main_id, self.sub_id, platform),
    {
        let mut s = String::new();
        push_hex(&mut s, self.main_id as u64, 2);
        push_hex(&mut s, self.sub_id as u64, 4);
        s.append(".");
        s.append(platform.name());
        assert(s@ =~= base_filename(self.main_id, self.sub_id, platform));
        s
    }
}

/// A data file (`.dat{N}`).
#[derive(Debug, Clone, PartialEq, Eq)]
pub struct SqpackDatFile {
    /// Its identity.
    pub sqpack: SqpackFile,
}

impl SqpackDatFile {
    /// The file's name for Win32.
    pub open spec fn display(&self) -> Seq<char> {
        dat_name(self.sqpack.main_id, self.sqpack.sub_id, self.sqpack.file_id, Platform::Win32)
    }

    /// The file's name for Win32.
    pub fn to_display_string(&self) -> (r: String)
        ensures
            r@ == self.display(),
    {
        self.get_file_name(Platform::Win32)
    }

    /// Reads the eight-byte identifier of a data file.
    pub fn read_from(reader: &mut ChecksumReader) -> (r: Result<Self, ZiPatchError>)
        requires
            old(reader).wf(),
        ensures
            old(reader).read_outcome(final(reader), 8, r),
            r is Ok ==> r->Ok_0.sqpack.decoded_from(
                old(reader).bytes(),
                old(reader).pos() as int,
            ),
    {
        let sqpack = SqpackFile::read_from(reader)?;
        Ok(SqpackDatFile { sqpack })
    }

    /// The file's path below the installation directory.
    pub fn get_file_name(&self, platform: Platform) -> (r: String)
        ensures
            r@ == dat_name(self.sqpack.main_id, self.sqpack.sub_id, self.sqpack.file_id, platform),
    {
        let mut s = SqpackFile::get_expansion_path(self.sqpack.expansion_id());
        let base = self.sqpack.get_base_filename(platform);
        s.append(base.as_str());
        s.append(".dat");
        push_decimal(&mut s, self.sqpack.file_id as u64);
        s
    }

    /// Records the file's path for `platform`.
    pub fn resolve_path(&mut self, platform: Platform)
        ensures
            final(self).sqpack.sqex_file.relative_path@ == dat_name(
                old(self).sqpack.main_id,
                old(self).sqpack.sub_id,
                old(self).sqpack.file_id,
                platform,
            ),
            final(self).sqpack.main_id == old(self).sqpack.main_id,
            final(self).sqpack.sub_id == old(self).sqpack.sub_id,
            final(self).sqpack.file_id == old(self).sqpack.file_id,
    {
        let name = self.get_file_name(platform);
        self.sqpack.sqex_file = SqexFile::new(name);
    }

    /// Where the file lies.
    pub fn sqex_file(&self) -> (r: &SqexFile)
        ensures
            *r == self.sqpack.sqex_file,
    {
        &self.sqpack.sqex_file
    }

    /// Where the file lies, to change.
    pub fn sqex_file_mut(&mut self) -> (r: &mut SqexFile)
        ensures
            *r == old(self).sqpack.sqex_file,
            final(self).sqpack == (SqpackFile { sqex_file: *final(r), ..old(self).sqpack }),
    {
        &mut self.sqpack.sqex_file
    }
}

/// An index file (`.index`, `.index{N}`).
#[derive(Debug, Clone, PartialEq, Eq)]
pub struct SqpackIndexFile {
    /// Its identity.
    pub sqpack: SqpackFile,
}

impl SqpackIndexFile {
    /// The file's name for Win32.
    pub open spec fn display(&self) -> Seq<char> {
        index_name(self.sqpack.main_id, self.sqpack.sub_id, self.sqpack.file_id, Platform::Win32)
    }

    /// The file's name for Win32.
    pub fn to_display_string(&self) -> (r: String)
        ensures
            r@ == self.display(),
    {
        self.get_file_name(Platform::Win32)
    }

    /// Reads the eight-byte identifier of an index file.
    pub fn read_from(reader: &mut ChecksumReader) -> (r: Result<Self, ZiPatchError>)
        requires
            old(reader).wf(),
        ensures
            old(reader).read_outcome(final(reader), 8, r),
            r is Ok ==> r->Ok_0.sqpack.decoded_from(
                old(reader).bytes(),
                old(reader).pos() as int,
            ),
    {
        let sqpack = SqpackFile::read_from(reader)?;
        Ok(SqpackIndexFile { sqpack })
    }

    /// The file's path below the installation directory.
    pub fn get_file_name(&self, platform: Platform) -> (r: String)
        ensures
            r@ == index_name(
                self.sqpack.main_id,
                self.sqpack.sub_id,
                self.sqpack.file_id,
                platform,
            ),
    {
        let mut s = SqpackFile::get_expansion_path(self.sqpack.expansion_id());
        let base = self.sqpack.get_base_filename(platform);
        s.append(base.as_str());
        s.append(".index");
        if self.sqpack.file_id != 0 {
            push_decimal(&mut s, self.sqpack.file_id as u64);
        }
        assert(s@ =~= index_name(
            self.sqpack.main_id,
            self.sqpack.sub_id,
            self.sqpack.file_id,
            platform,
        ));
        s
    }

    /// Records the file's path for `platform`.
    pub fn resolve_path(&mut self, platform: Platform)
        ensures
            final(self).sqpack.sqex_file.relative_path@ == index_name(
                old(self).sqpack.main_id,
                old(self).sqpack.sub_id,
                old(self).sqpack.file_id,
                platform,
            ),
            final(self).sqpack.main_id == old(self).sqpack.main_id,
            final(self).sqpack.sub_id == old(self).sqpack.sub_id,
            final(self).sqpack.file_id == old(self).sqpack.file_id,
    {
        let name = self.get_file_name(platform);
        self.sqpack.sqex_file = SqexFile::new(name);
    }

    /// Where the file lies.
    pub fn sqex_file(&self) -> (r: &SqexFile)
        ensures
            *r == self.sqpack.sqex_file,
    {
        &self.sqpack.sqex_file
    }

    /// Where the file lies, to change.
    pub fn sqex_file_mut(&mut self) -> (r: &mut SqexFile)
        ensures
            *r == old(self).sqpack.sqex_file,
            final(self).sqpack == (SqpackFile { sqex_file: *final(r), ..old(self).sqpack }),
    {
        &mut self.sqpack.sqex_file
    }
}

} // verus!
