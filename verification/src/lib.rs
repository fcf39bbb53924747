//! Build-and-run orchestration for a kernel image across CPU architectures:
//! the architecture registry, the on-disk layout, the tool command lines,
//! the FAT32 disk image synthesizer and the stage sequencing.

pub mod text;
pub mod registry;
pub mod layout;
pub mod commands;
pub mod volume;
pub mod image;
pub mod install;
pub mod pipeline;
