//! The outer frame of a patch: size, tag, body and checksum, and the kinds
//! of chunk a body can hold.
pub mod add_directory;
pub mod apply_free_space;
pub mod apply_option;
pub mod delete_directory;
pub mod end_of_file;
pub mod file_header;
pub mod xxxx;

pub use add_directory::AddDirectoryChunk;
pub use apply_free_space::ApplyFreeSpaceChunk;
pub use apply_option::{ApplyOptionChunk, ApplyOptionKind};
pub use delete_directory::DeleteDirectoryChunk;
pub use end_of_file::EndOfFileChunk;
pub use file_header::FileHeaderChunk;
pub use xxxx::XXXXChunk;

use vstd::prelude::*;

use crate::action::PatchAction;
use crate::config::{Platform, ZiPatchConfig};
use crate::error::ZiPatchError;
use crate::sqpk::{command_body_fits, command_error, SqpkCommand};
use crate::util::advance_guard::AdvanceGuard;
use crate::util::binary_reader::{be32, signed32, trim_nul, utf8_lossy};
use crate::util::checksum_reader::{text_of, ChecksumReader};
use crate::util::crc32::crc32_of;
use crate::util::sqex_file::join_path;
use crate::chunk::file_header::{header_len, header_version};

verus! {

/// `FHDR` as a big-endian word.
pub const TAG_FHDR: u32 = 0x4648_4452;
/// `APLY` as a big-endian word.
pub const TAG_APLY: u32 = 0x4150_4C59;
/// `APFS` as a big-endian word.
pub const TAG_APFS: u32 = 0x4150_4653;
/// `ADIR` as a big-endian word.
pub const TAG_ADIR: u32 = 0x4144_4952;
/// `DELD` as a big-endian word.
pub const TAG_DELD: u32 = 0x4445_4C44;
/// `SQPK` as a big-endian word.
pub const TAG_SQPK: u32 = 0x5351_504B;
/// `EOF_` as a big-endian word.
pub const TAG_EOF: u32 = 0x454F_465F;
/// `XXXX` as a big-endian word.
pub const TAG_XXXX: u32 = 0x5858_5858;

/// The body size of the chunk at `b[o..]` (tag and checksum not counted).
pub open spec fn chunk_size(b: Seq<u8>, o: int) -> nat {
    be32(b, o)
}

/// The tag of the chunk at `b[o..]`, as a big-endian word.
pub open spec fn chunk_tag(b: Seq<u8>, o: int) -> nat {
    be32(b, o + 4)
}

/// Where the body of the chunk at `b[o..]` ends.
pub open spec fn body_end(b: Seq<u8>, o: int) -> int {
    o + 8 + chunk_size(b, o)
}

/// Where the chunk at `b[o..]` ends: after size, tag, body and checksum.
pub open spec fn chunk_end(b: Seq<u8>, o: int) -> int {
    o + 12 + chunk_size(b, o)
}

/// The checksum word stored after the body of the chunk at `b[o..]`.
pub open spec fn stored_crc(b: Seq<u8>, o: int) -> nat {
    be32(b, body_end(b, o))
}

/// The CRC-32 of the tag and body of the chunk at `b[o..]`.
pub open spec fn computed_crc(b: Seq<u8>, o: int) -> u32 {
    crc32_of(b.subrange(o + 4, body_end(b, o)))
}

/// Whether `t` is the tag of a known chunk kind.
pub open spec fn known_tag(t: nat) -> bool {
    t == TAG_FHDR || t == TAG_APLY || t == TAG_APFS || t == TAG_ADIR || t == TAG_DELD || t
        == TAG_SQPK || t == TAG_EOF || t == TAG_XXXX
}

/// A body of `size` bytes with tag `t` at `b[s..e]` decodes within those bytes.
pub open spec fn body_fits_in(b: Seq<u8>, t: nat, s: int, e: int, size: nat) -> bool {
    if t == TAG_FHDR {
        let v = header_version(b, s);
        s + 4 <= e && (v == 2 || v == 3) && s + header_len(v) <= e
    } else if t == TAG_APLY {
        s + 12 <= e
    } else if t == TAG_APFS {
        s + 16 <= e
    } else if t == TAG_ADIR || t == TAG_DELD {
        s + 4 <= e && s + 4 + be32(b, s) <= e
    } else if t == TAG_SQPK {
        &&& s + 5 <= e
        &&& signed32(be32(b, s)) == signed32(size)
        &&& command_body_fits(b, s, e, size as u32)
    } else {
        true
    }
}

/// The error other than a short read that decoding a body of `size` bytes
/// with tag `t` at `b[s..e]` gives, if any: a file header version other
/// than 2 or 3, or an SQPK command error.
pub open spec fn body_error(b: Seq<u8>, t: nat, s: int, e: int, size: nat, offset: u64) -> Option<
    ZiPatchError,
> {
    if t == TAG_FHDR {
        let v = header_version(b, s);
        if s + 4 <= e && !(v == 2 || v == 3) {
            Some(ZiPatchError::InvalidFileHeaderVersion(v as u8))
        } else {
            None
        }
    } else if t == TAG_SQPK {
        command_error(b, s, e, size as u32, offset)
    } else {
        None
    }
}

/// The body of the chunk at `b[o..]` decodes within the body's bytes.
pub open spec fn body_fits(b: Seq<u8>, o: int) -> bool {
    body_fits_in(b, chunk_tag(b, o), o + 8, body_end(b, o), chunk_size(b, o))
}

/// The chunk at `b[o..]` reads without error within `limit`: its frame
/// fits, its tag is known, its body decodes, and its checksum matches.
#[verifier::opaque]
pub open spec fn chunk_ok(b: Seq<u8>, o: int, limit: int) -> bool {
    &&& o + 8 <= limit
    &&& known_tag(chunk_tag(b, o))
    &&& body_end(b, o) <= limit
    &&& body_fits(b, o)
    &&& chunk_end(b, o) <= limit
    &&& computed_crc(b, o) == stored_crc(b, o)
}

/// One chunk of a patch.
#[derive(Debug, Clone, PartialEq, Eq)]
pub enum ZiPatchChunk {
    FileHeader(FileHeaderChunk),
    ApplyOption(ApplyOptionChunk),
    ApplyFreeSpace(ApplyFreeSpaceChunk),
    AddDirectory(AddDirectoryChunk),
    DeleteDirectory(DeleteDirectoryChunk),
    Sqpk(SqpkCommand),
    EndOfFile(EndOfFileChunk),
    XXXX(XXXXChunk),
}

impl ZiPatchChunk {
    /// `self` holds the body of `size` bytes with tag `t` at `b[s..e]`.
    pub open spec fn holds_body(&self, b: Seq<u8>, t: nat, s: int, e: int, size: nat) -> bool {
        match self {
            ZiPatchChunk::FileHeader(c) => t == TAG_FHDR && c.decoded_from(b, s),
            ZiPatchChunk::ApplyOption(c) => t == TAG_APLY && c.decoded_from(b, s),
            ZiPatchChunk::ApplyFreeSpace(c) => t == TAG_APFS && c.decoded_from(b, s),
            ZiPatchChunk::AddDirectory(c) => t == TAG_ADIR && c.decoded_from(b, s),
            ZiPatchChunk::DeleteDirectory(c) => t == TAG_DELD && c.decoded_from(b, s),
            ZiPatchChunk::Sqpk(c) => t == TAG_SQPK && c.decoded_from(b, s, e, size as u32),
            ZiPatchChunk::EndOfFile(_) => t == TAG_EOF,
            ZiPatchChunk::XXXX(_) => t == TAG_XXXX,
        }
    }

    /// `self` is the chunk at `b[o..]`: its kind is the one the tag names
    /// and it holds what the body holds.
    #[verifier::opaque]
    pub open spec fn decoded_from(&self, b: Seq<u8>, o: int) -> bool {
        self.holds_body(b, chunk_tag(b, o), o + 8, body_end(b, o), chunk_size(b, o))
    }

    /// Decodes a body of `size` bytes with tag `tag`, from the reader's
    /// position up to its limit.
    fn read_body(reader: &mut ChecksumReader, tag: u32, size: u32, offset: u64) -> (r: Result<
        Self,
        ZiPatchError,
    >)
        requires
            old(reader).wf(),
            known_tag(tag as nat),
        ensures
            final(reader).wf(),
            final(reader).bytes() == old(reader).bytes(),
            final(reader).limit() == old(reader).limit(),
            final(reader).crc_start() == old(reader).crc_start(),
            r is Ok <==> body_fits_in(
                old(reader).bytes(),
                tag as nat,
                old(reader).pos() as int,
                old(reader).limit() as int,
                size as nat,
            ),
            r is Ok ==> r->Ok_0.holds_body(
                old(reader).bytes(),
                tag as nat,
                old(reader).pos() as int,
                old(reader).limit() as int,
                size as nat,
            ),
            ({
                let err = body_error(
                    old(reader).bytes(),
                    tag as nat,
                    old(reader).pos() as int,
                    old(reader).limit() as int,
                    size as nat,
                    offset,
                );
                &&& err is Some ==> r == Err::<Self, ZiPatchError>(err->0)
                &&& r is Err && err is None ==> r->Err_0 is UnexpectedEof
            }),
    {
        if tag == TAG_FHDR {
            let c = FileHeaderChunk::read(reader, size)?;
            Ok(ZiPatchChunk::FileHeader(c))
        } else if tag == TAG_APLY {
            let c = ApplyOptionChunk::read(reader, size)?;
            Ok(ZiPatchChunk::ApplyOption(c))
        } else if tag == TAG_APFS {
            let c = ApplyFreeSpaceChunk::read(reader, size)?;
            Ok(ZiPatchChunk::ApplyFreeSpace(c))
        } else if tag == TAG_ADIR {
            let c = AddDirectoryChunk::read(reader, size)?;
            Ok(ZiPatchChunk::AddDirectory(c))
        } else if tag == TAG_DELD {
            let c = DeleteDirectoryChunk::read(reader, size)?;
            Ok(ZiPatchChunk::DeleteDirectory(c))
        } else if tag == TAG_SQPK {
            let c = SqpkCommand::read(reader, size, offset)?;
            Ok(ZiPatchChunk::Sqpk(c))
        } else if tag == TAG_EOF {
            let c = EndOfFileChunk::read(reader, size)?;
            Ok(ZiPatchChunk::EndOfFile(c))
        } else {
            let c = XXXXChunk::read(reader, size)?;
            Ok(ZiPatchChunk::XXXX(c))
        }
    }

    /// Reads the chunk at the reader's position: its size (`u32` BE), its
    /// tag, its body and its checksum (`u32` BE), which must equal the CRC-32
    /// of tag and body. The body is decoded within its own bytes; whatever
    /// the decoder leaves is consumed, so the reader ends right after the
    /// checksum.
    pub fn read(reader: &mut ChecksumReader) -> (r: Result<Self, ZiPatchError>)
        requires
            old(reader).wf(),
        ensures
            final(reader).wf(),
            final(reader).bytes() == old(reader).bytes(),
            final(reader).limit() == old(reader).limit(),
            ({
                let b = old(reader).bytes();
                let o = old(reader).pos() as int;
                let l = old(reader).limit() as int;
                &&& r is Ok <==> chunk_ok(b, o, l)
                &&& r is Ok ==> r->Ok_0.decoded_from(b, o) && final(reader).pos() == chunk_end(
                    b,
                    o,
                ) && computed_crc(b, o) == stored_crc(b, o)
                &&& r is Ok ==> (r->Ok_0 is FileHeader <==> chunk_tag(b, o) == TAG_FHDR)
                    && (r->Ok_0 is EndOfFile <==> chunk_tag(b, o) == TAG_EOF)
                &&& o + 8 > l ==> r is Err && r->Err_0 is UnexpectedEof
                &&& o + 8 <= l && known_tag(chunk_tag(b, o)) && body_end(b, o) > l ==> r is Err
                    && r->Err_0 is UnexpectedEof
                &&& o + 8 <= l && known_tag(chunk_tag(b, o)) && body_end(b, o) <= l && body_error(
                    b,
                    chunk_tag(b, o),
                    o + 8,
                    body_end(b, o),
                    chunk_size(b, o),
                    o as u64,
                ) is Some ==> r == Err::<Self, ZiPatchError>(
                    body_error(
                        b,
                        chunk_tag(b, o),
                        o + 8,
                        body_end(b, o),
                        chunk_size(b, o),
                        o as u64,
                    )->0,
                )
                &&& o + 8 <= l && known_tag(chunk_tag(b, o)) && body_end(b, o) <= l && !body_fits(
                    b,
                    o,
                ) && body_error(
                    b,
                    chunk_tag(b, o),
                    o + 8,
                    body_end(b, o),
                    chunk_size(b, o),
                    o as u64,
                ) is None ==> r is Err && r->Err_0 is UnexpectedEof
                &&& o + 8 <= l && known_tag(chunk_tag(b, o)) && body_end(b, o) <= l && body_fits(
                    b,
                    o,
                ) && chunk_end(b, o) > l ==> r is Err && r->Err_0 is UnexpectedEof
                &&& o + 8 <= l && !known_tag(chunk_tag(b, o)) ==> r is Err
                    && r->Err_0 is UnknownChunkType && r->Err_0->UnknownChunkType_0@ == utf8_lossy(
                    trim_nul(b.subrange(o + 4, o + 8)),
                ) && r->Err_0->UnknownChunkType_1 == o
                &&& o + 8 <= l && known_tag(chunk_tag(b, o)) && body_end(b, o) <= l && body_fits(
                    b,
                    o,
                ) && chunk_end(b, o) <= l && computed_crc(b, o) != stored_crc(b, o) ==> r
                    == Err::<Self, ZiPatchError>(
                    ZiPatchError::ChecksumMismatch {
                        offset: o as u64,
                        expected: computed_crc(b, o),
                        actual: stored_crc(b, o) as u32,
                    },
                )
            }),
    {
        reveal(chunk_ok);
        reveal(ZiPatchChunk::decoded_from);
        let ghost b = reader.bytes();
        let ghost o = reader.pos() as int;
        let ghost l = reader.limit() as int;
        let offset = reader.position() as u64;
        if reader.read_limit() - reader.position() < 8 {
            return Err(ZiPatchError::UnexpectedEof(offset));
        }
        let size = reader.read_u32_be()?;
        reader.init_crc32();
        let tag_bytes = reader.read_bytes_required(4)?;
        let tag = ((tag_bytes[0] as u32) * 256 + tag_bytes[1] as u32) * 65536
            + (tag_bytes[2] as u32)
            * 256 + tag_bytes[3] as u32;
        assert(tag == chunk_tag(b, o));
        if !(tag == TAG_FHDR || tag == TAG_APLY || tag == TAG_APFS || tag == TAG_ADIR || tag
            == TAG_DELD || tag == TAG_SQPK || tag == TAG_EOF || tag == TAG_XXXX) {
            return Err(ZiPatchError::UnknownChunkType(text_of(tag_bytes.as_slice()), offset));
        }
        let guard = AdvanceGuard::new(reader, size as u64)?;
        let body = ZiPatchChunk::read_body(reader, tag, size, offset);
        guard.advance(reader);
        let chunk = body?;
        let calculated_checksum = reader.get_crc32();
        let stored_checksum = reader.read_u32_be()?;
        if calculated_checksum != stored_checksum {
            return Err(
                ZiPatchError::ChecksumMismatch {
                    offset,
                    expected: calculated_checksum,
                    actual: stored_checksum,
                },
            );
        }
        Ok(chunk)
    }

    /// What applying the chunk under `game_path` and `platform` yields.
    pub open spec fn work(
        &self,
        game_path: Seq<char>,
        platform: Platform,
        r: Result<Vec<PatchAction>, ZiPatchError>,
    ) -> bool {
        match self {
            ZiPatchChunk::AddDirectory(c) => r is Ok && r->Ok_0@.len() == 1
                && r->Ok_0@[0].is_create_dir(
                join_path(game_path, c.dir_name@),
            ),
            ZiPatchChunk::DeleteDirectory(c) => r is Ok && r->Ok_0@.len() == 1
                && r->Ok_0@[0].is_remove_dir(join_path(game_path, c.dir_name@)),
            ZiPatchChunk::Sqpk(c) => c.work(game_path, platform, r),
            _ => r is Ok && r->Ok_0@.len() == 0,
        }
    }

    /// The settings once the chunk is applied to `config`: an apply-option
    /// chunk sets its flag, a target-info command sets the platform.
    pub open spec fn config_after(&self, config: ZiPatchConfig) -> ZiPatchConfig {
        match self {
            ZiPatchChunk::ApplyOption(c) => match c.option_kind {
                ApplyOptionKind::IgnoreMissing => ZiPatchConfig {
                    ignore_missing: c.option_value,
                    ..config
                },
                ApplyOptionKind::IgnoreOldMismatch => ZiPatchConfig {
                    ignore_old_mismatch: c.option_value,
                    ..config
                },
                ApplyOptionKind::Unknown => config,
            },
            ZiPatchChunk::Sqpk(c) => ZiPatchConfig {
                platform: c.platform_after(config.platform),
                ..config
            },
            _ => config,
        }
    }

    /// Applies the chunk to the settings and yields its file-system work,
    /// to be carried out in order.
    pub fn apply(&mut self, config: &mut ZiPatchConfig) -> (r: Result<
        Vec<PatchAction>,
        ZiPatchError,
    >)
        ensures
            old(self).work(old(config).game_path@, old(config).platform, r),
            *final(config) == old(self).config_after(*old(config)),
    {
        match self {
            ZiPatchChunk::FileHeader(chunk) => chunk.apply(config),
            ZiPatchChunk::ApplyOption(chunk) => chunk.apply(config),
            ZiPatchChunk::ApplyFreeSpace(chunk) => chunk.apply(config),
            ZiPatchChunk::AddDirectory(chunk) => chunk.apply(config),
            ZiPatchChunk::DeleteDirectory(chunk) => chunk.apply(config),
            ZiPatchChunk::Sqpk(chunk) => chunk.apply(config),
            ZiPatchChunk::EndOfFile(chunk) => chunk.apply(config),
            ZiPatchChunk::XXXX(chunk) => chunk.apply(config),
        }
    }

    /// Reads the chunk at the reader's position, stating only whether it
    /// read, what it holds and where the reader ends.
    pub fn read_next(reader: &mut ChecksumReader) -> (r: Result<Self, ZiPatchError>)
        requires
            old(reader).wf(),
        ensures
            final(reader).wf(),
            final(reader).bytes() == old(reader).bytes(),
            final(reader).limit() == old(reader).limit(),
            r is Ok <==> chunk_ok(old(reader).bytes(), old(reader).pos() as int,
                old(reader).limit() as int),
            r is Ok ==> r->Ok_0.decoded_from(old(reader).bytes(), old(reader).pos() as int)
                && final(reader).pos() == chunk_end(old(reader).bytes(), old(reader).pos() as int),
            r is Ok ==> (r->Ok_0 is FileHeader <==> chunk_tag(old(reader).bytes(),
                old(reader).pos() as int) == TAG_FHDR)
                && (r->Ok_0 is EndOfFile <==> chunk_tag(old(reader).bytes(),
                    old(reader).pos() as int) == TAG_EOF),
    {
        ZiPatchChunk::read(reader)
    }

    /// The chunk as text, as each kind of chunk writes itself.
    pub open spec fn display(&self) -> Seq<char> {
        match self {
            ZiPatchChunk::FileHeader(x) => x.display(),
            ZiPatchChunk::ApplyOption(x) => x.display(),
            ZiPatchChunk::ApplyFreeSpace(x) => x.display(),
            ZiPatchChunk::AddDirectory(x) => x.display(),
            ZiPatchChunk::DeleteDirectory(x) => x.display(),
            ZiPatchChunk::Sqpk(x) => x.display(),
            ZiPatchChunk::EndOfFile(x) => x.display(),
            ZiPatchChunk::XXXX(x) => x.display(),
        }
    }

    /// The chunk as text, as each kind of chunk writes itself.
    pub fn to_display_string(&self) -> (r: String)
        ensures
            r@ == self.display(),
    {
        match self {
            ZiPatchChunk::FileHeader(x) => x.to_display_string(),
            ZiPatchChunk::ApplyOption(x) => x.to_display_string(),
            ZiPatchChunk::ApplyFreeSpace(x) => x.to_display_string(),
            ZiPatchChunk::AddDirectory(x) => x.to_display_string(),
            ZiPatchChunk::DeleteDirectory(x) => x.to_display_string(),
            ZiPatchChunk::Sqpk(x) => x.to_display_string(),
            ZiPatchChunk::EndOfFile(x) => x.to_display_string(),
            ZiPatchChunk::XXXX(x) => x.to_display_string(),
        }
    }

    /// Whether this is the end-of-file chunk.
    pub fn is_eof(&self) -> (r: bool)
        ensures
            r == self is EndOfFile,
    {
        match self {
            ZiPatchChunk::EndOfFile(_) => true,
            _ => false,
        }
    }

    /// The chunk's tag.
    pub fn chunk_type(&self) -> (r: &'static str)
        ensures
            r@ == match self {
                ZiPatchChunk::FileHeader(_) => "FHDR"@,
                ZiPatchChunk::ApplyOption(_) => "APLY"@,
                ZiPatchChunk::ApplyFreeSpace(_) => "APFS"@,
                ZiPatchChunk::AddDirectory(_) => "ADIR"@,
                ZiPatchChunk::DeleteDirectory(_) => "DELD"@,
                ZiPatchChunk::Sqpk(_) => "SQPK"@,
                ZiPatchChunk::EndOfFile(_) => "EOF_"@,
                ZiPatchChunk::XXXX(_) => "XXXX"@,
            },
    {
        match self {
            ZiPatchChunk::FileHeader(_) => "FHDR",
            ZiPatchChunk::ApplyOption(_) => "APLY",
            ZiPatchChunk::ApplyFreeSpace(_) => "APFS",
            ZiPatchChunk::AddDirectory(_) => "ADIR",
            ZiPatchChunk::DeleteDirectory(_) => "DELD",
            ZiPatchChunk::Sqpk(_) => "SQPK",
            ZiPatchChunk::EndOfFile(_) => "EOF_",
            ZiPatchChunk::XXXX(_) => "XXXX",
        }
    }
}

} // verus!
