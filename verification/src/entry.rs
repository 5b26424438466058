//! The archive entry as the planner sees it: plain values read out of the
//! archive's central directory, together with the decompressed contents.

use vstd::prelude::*;
use vstd::string::StrSliceExecFns;

verus! {

/// One archive entry, as plain values.
///
/// `safe_path` is the entry's name resolved to a path confined to the
/// extraction root; entries whose name cannot be resolved safely carry
/// `None` and are skipped by the planner.
#[derive(Debug)]
pub struct ZipEntry {
    /// The name as stored in the archive, forward-slash separated.
    pub name: String,
    /// The entry's comment, possibly empty.
    pub comment: String,
    /// The declared uncompressed size in bytes.
    pub size: u64,
    /// The platform permission bits, where the archive records them.
    pub mode: Option<u32>,
    /// The traversal-safe output path, or `None` when the name is unsafe.
    pub safe_path: Option<String>,
    /// The decompressed contents.
    pub data: Vec<u8>,
}

/// The mathematical model of an archive entry.
pub struct EntryData {
    pub name: Seq<char>,
    pub comment: Seq<char>,
    pub size: u64,
    pub mode: Option<u32>,
    pub safe_path: Option<Seq<char>>,
    pub data: Seq<u8>,
}

impl DeepView for ZipEntry {
    type V = EntryData;

    open spec fn deep_view(&self) -> EntryData {
        EntryData {
            name: self.name@,
            comment: self.comment@,
            size: self.size,
            mode: self.mode,
            safe_path: match self.safe_path {
                Some(p) => Some(p@),
                None => None,
            },
            data: self.data@,
        }
    }
}

/// An entry is skipped when its name has no safe resolution.
pub open spec fn skipped(e: EntryData) -> bool {
    e.safe_path is None
}

/// Directory detection is purely syntactic: the stored name ends in `/`.
pub open spec fn is_dir_entry(e: EntryData) -> bool {
    e.name.len() > 0 && e.name.last() == '/'
}

/// Decides whether an entry denotes a directory, by its stored name.
pub fn entry_is_dir(e: &ZipEntry) -> (b: bool)
    ensures
        b == is_dir_entry(e.deep_view()),
{
    let n = e.name.as_str().unicode_len();
    if n == 0 {
        false
    } else {
        e.name.as_str().get_char(n - 1) == '/'
    }
}

} // verus!
