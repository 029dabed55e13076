use vstd::prelude::*;

use crate::action::PatchAction;
use crate::config::{platform_of, Platform, ZiPatchConfig};
use crate::error::ZiPatchError;
use crate::util::binary_reader::{be16, le64};
use crate::util::checksum_reader::ChecksumReader;
use crate::util::digits::{bool_text, decimal, push_bool, push_decimal};

verus! {

/// The region a patch is for.
#[derive(Debug, Clone, Copy, PartialEq, Eq, Structural)]
pub enum RegionId {
    /// The global region (coded -1).
    Global,
}

impl RegionId {
    /// The region coded by `value`. Only -1 is known; every other value
    /// reads as the global region too.
    pub fn from_i16(value: i16) -> (r: Self)
        ensures
            r == RegionId::Global,
    {
        RegionId::Global
    }
}

/// The SQPK target-info command (`T`): names the platform the rest of the
/// patch writes files for.
#[derive(Debug, Clone, Copy, PartialEq, Eq, Structural)]
pub struct SqpkTargetInfo {
    /// The platform.
    pub platform: Platform,
    /// The region.
    pub region: RegionId,
    /// Whether the patch is a debug one.
    pub is_debug: bool,
    /// Version.
    pub version: u16,
    /// Size of deleted data (little-endian on the wire).
    pub deleted_data_size: u64,
    /// Seek count (little-endian on the wire).
    pub seek_count: u64,
}

impl SqpkTargetInfo {
    /// `self` holds the fields at `b[p..p+27]`: three reserved bytes,
    /// platform (`u16` BE), region (`i16` BE), debug flag (`i16` BE, non-zero
    /// is true), version (`u16` BE), deleted data size and seek count (`u64` LE).
    pub open spec fn decoded_from(&self, b: Seq<u8>, p: int) -> bool {
        &&& platform_of(be16(b, p + 3)) == Some(self.platform)
        &&& self.region == RegionId::Global
        &&& self.is_debug == (be16(b, p + 7) != 0)
        &&& self.version == be16(b, p + 9)
        &&& self.deleted_data_size == le64(b, p + 11)
        &&& self.seek_count == le64(b, p + 19)
    }

    /// `SQPK:T:{platform}:Global:{debug}:{version}:{deleted_data_size}:{seek_count}`.
    pub open spec fn display(&self) -> Seq<char> {
        "SQPK:T:"@ + self.platform.spec_label() + ":Global:"@ + bool_text(self.is_debug) + ":"@
            + decimal(self.version as nat) + ":"@ + decimal(self.deleted_data_size as nat) + ":"@
            + decimal(self.seek_count as nat)
    }

    /// `SQPK:T:{platform}:Global:{debug}:{version}:{deleted_data_size}:{seek_count}`.
    pub fn to_display_string(&self) -> (r: String)
        ensures
            r@ == self.display(),
    {
        let mut s = String::new();
        s.append("SQPK:T:");
        s.append(self.platform.label());
        s.append(":Global:");
        push_bool(&mut s, self.is_debug);
        s.append(":");
        push_decimal(&mut s, self.version as u64);
        s.append(":");
        push_decimal(&mut s, self.deleted_data_size as u64);
        s.append(":");
        push_decimal(&mut s, self.seek_count as u64);
        assert(s@ =~= self.display());
        s
    }

    /// Decodes the command. A platform number above 3 is refused.
    pub fn read(reader: &mut ChecksumReader) -> (r: Result<Self, ZiPatchError>)
        requires
            old(reader).wf(),
        ensures
            final(reader).wf(),
            final(reader).bytes() == old(reader).bytes(),
            final(reader).limit() == old(reader).limit(),
            final(reader).crc_start() == old(reader).crc_start(),
            ({
                let b = old(reader).bytes();
                let p = old(reader).pos() as int;
                let l = old(reader).limit();
                &&& r is Ok <==> p + 27 <= l && platform_of(be16(b, p + 3)) is Some
                &&& r is Ok ==> r->Ok_0.decoded_from(b, p) && final(reader).pos() == p + 27
                &&& p + 5 <= l && platform_of(be16(b, p + 3)) is None ==> r == Err::<
                    Self,
                    ZiPatchError,
                >(ZiPatchError::InvalidPlatform(be16(b, p + 3) as u8))
                &&& (p + 5 > l || (platform_of(be16(b, p + 3)) is Some && p + 27 > l)) ==> r
                    is Err && r->Err_0 is UnexpectedEof
            }),
    {
        if reader.read_limit() - reader.position() < 5 {
            return Err(ZiPatchError::UnexpectedEof(reader.position() as u64));
        }
        let _reserved = reader.read_bytes_required(3)?;
        let platform = Platform::from_u16(reader.read_u16_be()?)?;
        if reader.read_limit() - reader.position() < 22 {
            return Err(ZiPatchError::UnexpectedEof(reader.position() as u64));
        }
        let region = RegionId::from_i16(reader.read_i16_be()?);
        let is_debug = reader.read_i16_be()? != 0;
        let version = reader.read_u16_be()?;
        let deleted_data_size = reader.read_u64_le()?;
        let seek_count = reader.read_u64_le()?;
        Ok(SqpkTargetInfo { platform, region, is_debug, version, deleted_data_size, seek_count })
    }

    /// Switches the settings to the command's platform. There is no
    /// file-system work.
    pub fn apply(&self, config: &mut ZiPatchConfig) -> (r: Result<Vec<PatchAction>, ZiPatchError>)
        ensures
            r is Ok && r->Ok_0@.len() == 0,
            *final(config) == (ZiPatchConfig { platform: self.platform, ..*old(config) }),
    {
        config.platform = self.platform;
        Ok(Vec::new())
    }
}

} // verus!
