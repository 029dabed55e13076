use vstd::prelude::*;

verus! {

/// What can go wrong while reading or applying a patch.
#[derive(Debug, PartialEq, Eq)]
pub enum ZiPatchError {
    /// An I/O error reported by the caller's file-system layer.
    Io(String),
    /// The first twelve bytes are not the ZiPatch signature.
    InvalidMagic([u32; 3]),
    /// A chunk's trailing CRC word (`actual`) disagrees with the CRC computed
    /// over its tag and body (`expected`).
    ChecksumMismatch { offset: u64, expected: u32, actual: u32 },
    /// A chunk tag that this decoder does not know, with the chunk's offset.
    UnknownChunkType(String, u64),
    /// An SQPK command code that this decoder does not know, with the chunk's offset.
    UnknownSqpkCommand(char, u64),
    /// A field holds a value that cannot be decoded.
    InvalidChunkData { offset: u64, reason: String },
    /// A read needed more bytes than remain at the given offset.
    UnexpectedEof(u64),
    /// A string could not be decoded.
    InvalidString(String),
    /// A file that should exist does not.
    FileNotFound(String),
    /// A directory could not be created.
    DirectoryCreationFailed { path: String, source: String },
    /// A file operation failed.
    FileOperationFailed { path: String, source: String },
    /// An old file is missing.
    OldFileMissing(String),
    /// An old file does not have the expected content.
    OldFileMismatch(String),
    /// The deflate decoder rejected a block.
    DecompressionFailed(String),
    /// An expansion id out of range.
    InvalidExpansionId(u16),
    /// A platform value outside `0..=3`.
    InvalidPlatform(u8),
    /// The size inside an SQPK chunk differs from the chunk's own size.
    SqpkSizeMismatch { outer: u32, inner: i32 },
    /// Opening a file kept failing.
    FileStreamRetryExhausted { path: String, tries: u32 },
    /// A file header version other than 2 or 3.
    InvalidFileHeaderVersion(u8),
    /// Any other failure, described in words.
    Custom(String),
}

} // verus!
