//! The file-system work a chunk stands for. Applying a chunk yields these in
//! order; the caller carries them out against the installation.
use vstd::prelude::*;

verus! {

/// One step of file-system work. Every path is a full path: the
/// installation directory joined with the path the patch names.
#[derive(Debug, Clone, PartialEq, Eq)]
pub enum PatchAction {
    /// Create a directory and any missing parents.
    CreateDirAll { path: String },
    /// Create the missing parent directories of a file.
    CreateParentDirs { path: String },
    /// Remove a directory, which must be empty, if it exists.
    RemoveDir { path: String },
    /// Remove a file if it exists.
    RemoveFile { path: String },
    /// Open a file for writing (creating it if missing) and cut it to length zero.
    Truncate { path: String },
    /// Write `data` at byte `offset` of a file, creating it if missing.
    WriteAt { path: String, offset: u64, data: Vec<u8> },
    /// Write `length` zero bytes at byte `offset` of a file, creating it if missing.
    Wipe { path: String, offset: u64, length: u64 },
    /// Remove every regular file directly inside the two folders whose name
    /// `SqpkFile::remove_all_filter` lets go; a file that cannot be removed is
    /// left.
    RemoveExpansionFiles { sqpack_dir: String, movie_dir: String },
}

impl PatchAction {
    /// `self` writes `data` at `offset` of `path`.
    pub open spec fn is_write(&self, path: Seq<char>, offset: int, data: Seq<u8>) -> bool {
        &&& self is WriteAt
        &&& self->WriteAt_path@ == path
        &&& self->WriteAt_offset == offset
        &&& self->WriteAt_data@ == data
    }

    /// `self` zeroes `length` bytes at `offset` of `path`.
    pub open spec fn is_wipe(&self, path: Seq<char>, offset: int, length: int) -> bool {
        &&& self is Wipe
        &&& self->Wipe_path@ == path
        &&& self->Wipe_offset == offset
        &&& self->Wipe_length == length
    }

    /// `self` creates the directory `path`.
    pub open spec fn is_create_dir(&self, path: Seq<char>) -> bool {
        self is CreateDirAll && self->CreateDirAll_path@ == path
    }

    /// `self` removes the directory `path`.
    pub open spec fn is_remove_dir(&self, path: Seq<char>) -> bool {
        self is RemoveDir && self->RemoveDir_path@ == path
    }
}

} // verus!
