//! The platform a patch targets and the settings a patch is applied with.
use vstd::prelude::*;

use crate::error::ZiPatchError;

verus! {

/// The platform whose file names a patch writes.
#[derive(Debug, Clone, Copy, PartialEq, Eq, Structural)]
pub enum Platform {
    /// Windows (PC).
    Win32,
    /// PlayStation 3.
    Ps3,
    /// PlayStation 4.
    Ps4,
    /// Not known.
    Unknown,
}

impl Default for Platform {
    fn default() -> (r: Self)
        ensures
            r == Platform::Unknown,
    {
        Platform::Unknown
    }
}

/// The platform numbered `v`, if any.
pub open spec fn platform_of(v: nat) -> Option<Platform> {
    if v == 0 {
        Some(Platform::Win32)
    } else if v == 1 {
        Some(Platform::Ps3)
    } else if v == 2 {
        Some(Platform::Ps4)
    } else if v == 3 {
        Some(Platform::Unknown)
    } else {
        None
    }
}

/// The platform's number.
pub open spec fn platform_number(p: Platform) -> nat {
    match p {
        Platform::Win32 => 0,
        Platform::Ps3 => 1,
        Platform::Ps4 => 2,
        Platform::Unknown => 3,
    }
}

/// The platform's part of a pack-file name.
pub open spec fn platform_name(p: Platform) -> Seq<char> {
    match p {
        Platform::Win32 => "win32"@,
        Platform::Ps3 => "ps3"@,
        Platform::Ps4 => "ps4"@,
        Platform::Unknown => "unknown"@,
    }
}

impl Platform {
    /// The platform numbered `value`; numbers above 3 are refused.
    pub fn from_u8(value: u8) -> (r: Result<Platform, ZiPatchError>)
        ensures
            platform_of(value as nat) is Some ==> r == Ok::<Platform, ZiPatchError>(
                platform_of(value as nat)->0,
            ),
            platform_of(value as nat) is None ==> r == Err::<Platform, ZiPatchError>(
                ZiPatchError::InvalidPlatform(value),
            ),
    {
        Platform::from_u16(value as u16)
    }

    /// The platform numbered `value`; numbers above 3 are refused, and the
    /// error holds the low byte of the number.
    pub fn from_u16(value: u16) -> (r: Result<Platform, ZiPatchError>)
        ensures
            platform_of(value as nat) is Some ==> r == Ok::<Platform, ZiPatchError>(
                platform_of(value as nat)->0,
            ),
            platform_of(value as nat) is None ==> r == Err::<Platform, ZiPatchError>(
                ZiPatchError::InvalidPlatform(value as u8),
            ),
    {
        match value {
            0 => Ok(Platform::Win32),
            1 => Ok(Platform::Ps3),
            2 => Ok(Platform::Ps4),
            3 => Ok(Platform::Unknown),
            _ => Err(ZiPatchError::InvalidPlatform(value as u8)),
        }
    }

    /// The platform's number.
    pub fn as_u16(self) -> (r: u16)
        ensures
            r == platform_number(self),
    {
        match self {
            Platform::Win32 => 0,
            Platform::Ps3 => 1,
            Platform::Ps4 => 2,
            Platform::Unknown => 3,
        }
    }

    /// The platform's variant name.
    pub open spec fn spec_label(self) -> Seq<char> {
        match self {
            Platform::Win32 => "Win32"@,
            Platform::Ps3 => "Ps3"@,
            Platform::Ps4 => "Ps4"@,
            Platform::Unknown => "Unknown"@,
        }
    }

    /// The platform's variant name.
    pub fn label(self) -> (r: &'static str)
        ensures
            r@ == self.spec_label(),
    {
        match self {
            Platform::Win32 => "Win32",
            Platform::Ps3 => "Ps3",
            Platform::Ps4 => "Ps4",
            Platform::Unknown => "Unknown",
        }
    }

    /// The platform's part of a pack-file name.
    pub fn name(self) -> (r: &'static str)
        ensures
            r@ == platform_name(self),
    {
        match self {
            Platform::Win32 => "win32",
            Platform::Ps3 => "ps3",
            Platform::Ps4 => "ps4",
            Platform::Unknown => "unknown",
        }
    }
}

/// The settings a patch is applied with. Chunks of the patch may change the
/// platform and the two flags as they are applied.
#[derive(Debug)]
pub struct ZiPatchConfig {
    /// The installation directory every relative path is taken from.
    pub game_path: String,
    /// Which naming variant pack files use.
    pub platform: Platform,
    /// Set by an apply-option chunk: tolerate missing old files.
    pub ignore_missing: bool,
    /// Set by an apply-option chunk: tolerate old files with other content.
    pub ignore_old_mismatch: bool,
}

impl ZiPatchConfig {
    /// Settings for the installation at `game_path`, with the default
    /// platform and both flags off.
    pub fn new(game_path: String) -> (r: Self)
        ensures
            r.game_path@ == game_path@,
            r.platform == Platform::Unknown,
            !r.ignore_missing,
            !r.ignore_old_mismatch,
    {
        ZiPatchConfig {
            game_path,
            platform: Platform::Unknown,
            ignore_missing: false,
            ignore_old_mismatch: false,
        }
    }

    /// The installation directory.
    pub fn game_path(&self) -> (r: &String)
        ensures
            r@ == self.game_path@,
    {
        &self.game_path
    }

    /// A builder for settings at `game_path`.
    pub fn builder(game_path: String) -> (r: ZiPatchConfigBuilder)
        ensures
            r.game_path@ == game_path@,
            r.platform == Platform::Unknown,
            !r.ignore_missing,
            !r.ignore_old_mismatch,
    {
        ZiPatchConfigBuilder::new(game_path)
    }
}

/// Builds a `ZiPatchConfig` one setting at a time.
#[derive(Debug)]
pub struct ZiPatchConfigBuilder {
    /// The installation directory.
    pub game_path: String,
    /// The platform to start with.
    pub platform: Platform,
    /// Whether missing old files are tolerated.
    pub ignore_missing: bool,
    /// Whether old files with other content are tolerated.
    pub ignore_old_mismatch: bool,
}

impl ZiPatchConfigBuilder {
    /// A builder at `game_path`, with the default platform and both flags off.
    pub fn new(game_path: String) -> (r: Self)
        ensures
            r.game_path@ == game_path@,
            r.platform == Platform::Unknown,
            !r.ignore_missing,
            !r.ignore_old_mismatch,
    {
        ZiPatchConfigBuilder {
            game_path,
            platform: Platform::Unknown,
            ignore_missing: false,
            ignore_old_mismatch: false,
        }
    }

    /// Sets the platform.
    pub fn platform(self, platform: Platform) -> (r: Self)
        ensures
            r == (ZiPatchConfigBuilder { platform, ..self }),
    {
        ZiPatchConfigBuilder { platform, ..self }
    }

    /// Sets whether missing old files are tolerated.
    pub fn ignore_missing(self, ignore: bool) -> (r: Self)
        ensures
            r == (ZiPatchConfigBuilder { ignore_missing: ignore, ..self }),
    {
        ZiPatchConfigBuilder { ignore_missing: ignore, ..self }
    }

    /// Sets whether old files with other content are tolerated.
    pub fn ignore_old_mismatch(self, ignore: bool) -> (r: Self)
        ensures
            r == (ZiPatchConfigBuilder { ignore_old_mismatch: ignore, ..self }),
    {
        ZiPatchConfigBuilder { ignore_old_mismatch: ignore, ..self }
    }

    /// The settings built.
    pub fn build(self) -> (r: ZiPatchConfig)
        ensures
            r.game_path@ == self.game_path@,
            r.platform == self.platform,
            r.ignore_missing == self.ignore_missing,
            r.ignore_old_mismatch == self.ignore_old_mismatch,
    {
        ZiPatchConfig {
            game_path: self.game_path,
            platform: self.platform,
            ignore_missing: self.ignore_missing,
            ignore_old_mismatch: self.ignore_old_mismatch,
        }
    }
}

} // verus!
