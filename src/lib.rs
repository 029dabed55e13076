//! Reading, inspecting and applying ZiPatch files, the chunked binary patch
//! format that updates a Final Fantasy XIV installation.
//!
//! The decoder works on the bytes of a whole patch held in memory. Applying a
//! chunk yields the file-system actions it stands for, which the caller then
//! carries out in order.
pub mod action;
pub mod chunk;
pub mod config;
pub mod error;
pub mod file;
pub mod inspection;
pub mod laws;
pub mod sqpk;
pub mod util;

pub use action::PatchAction;
pub use chunk::ZiPatchChunk;
pub use config::{Platform, ZiPatchConfig, ZiPatchConfigBuilder};
pub use error::ZiPatchError;
pub use file::{ChunkIterator, ZiPatchFile};
pub use inspection::{ZiPatchChangeSet, ZiPatchCommandCounts};
pub use sqpk::SqpkCommand;
