//! What a patch does, worked out without applying it.
pub mod change_set;
pub mod command_counts;


pub use change_set::ZiPatchChangeSet;
pub use command_counts::ZiPatchCommandCounts;
