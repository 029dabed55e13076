use vstd::prelude::*;

verus! {

/// How many commands of each kind a patch holds.
#[derive(Debug, Clone, Copy, PartialEq, Eq, Structural)]
pub struct ZiPatchCommandCounts {
    /// Add-directory chunks.
    pub add_directories: u32,
    /// Delete-directory chunks.
    pub delete_directories: u32,
    /// All chunks but the end-of-file chunk.
    pub total_commands: u32,
    /// SQPK add-data commands.
    pub sqpk_add_commands: u32,
    /// SQPK delete-data commands.
    pub sqpk_delete_commands: u32,
    /// SQPK expand-data commands.
    pub sqpk_expand_commands: u32,
    /// SQPK header commands.
    pub sqpk_header_commands: u32,
    /// SQPK file commands.
    pub sqpk_file_commands: u32,
}

impl ZiPatchCommandCounts {
    /// All counts zero.
    pub fn new() -> (r: Self)
        ensures
            r == ZiPatchCommandCounts::with_counts(0, 0, 0, 0, 0, 0, 0, 0),
    {
        ZiPatchCommandCounts::with_counts(0, 0, 0, 0, 0, 0, 0, 0)
    }

    /// The given counts.
    #[verifier::when_used_as_spec(spec_with_counts)]
    pub fn with_counts(
        add_directories: u32,
        delete_directories: u32,
        total_commands: u32,
        sqpk_add_commands: u32,
        sqpk_delete_commands: u32,
        sqpk_expand_commands: u32,
        sqpk_header_commands: u32,
        sqpk_file_commands: u32,
    ) -> (r: Self)
        ensures
            r == ZiPatchCommandCounts::spec_with_counts(
                add_directories,
                delete_directories,
                total_commands,
                sqpk_add_commands,
                sqpk_delete_commands,
                sqpk_expand_commands,
                sqpk_header_commands,
                sqpk_file_commands,
            ),
    {
        ZiPatchCommandCounts {
            add_directories,
            delete_directories,
            total_commands,
            sqpk_add_commands,
            sqpk_delete_commands,
            sqpk_expand_commands,
            sqpk_header_commands,
            sqpk_file_commands,
        }
    }

    pub open spec fn spec_with_counts(
        add_directories: u32,
        delete_directories: u32,
        total_commands: u32,
        sqpk_add_commands: u32,
        sqpk_delete_commands: u32,
        sqpk_expand_commands: u32,
        sqpk_header_commands: u32,
        sqpk_file_commands: u32,
    ) -> Self {
        ZiPatchCommandCounts {
            add_directories,
            delete_directories,
            total_commands,
            sqpk_add_commands,
            sqpk_delete_commands,
            sqpk_expand_commands,
            sqpk_header_commands,
            sqpk_file_commands,
        }
    }
}

} // verus!
