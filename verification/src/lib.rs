//! A verified ZIP extraction driver.
//!
//! The library plans the extraction of a ZIP archive: it decides, for every
//! entry, which progress lines are printed and which filesystem actions are
//! performed, with the ZIP parsing itself delegated to the `zip` crate.

pub mod archive;
pub mod cli;
pub mod entry;
pub mod format;
pub mod fs_model;
pub mod plan;
