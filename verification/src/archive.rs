//! Reading archives through the `zip` crate.
//!
//! The archive value itself is opaque: `archive_entries` names what it
//! holds, and the trusted wrappers below state what each `zip` call does in
//! terms of that name. Everything past them is verified.

use vstd::prelude::*;
use crate::entry::{EntryData, ZipEntry};
use crate::plan::{Plan, plan_actions, plan_entries, plan_lines};

verus! {

#[verifier::external_type_specification]
#[verifier::external_body]
#[verifier::reject_recursive_types(R)]
pub struct ExZipArchive<R>(zip::ZipArchive<R>);

#[verifier::external_type_specification]
#[verifier::external_body]
#[verifier::reject_recursive_types(T)]
pub struct ExCursor<T>(std::io::Cursor<T>);

#[verifier::external_type_specification]
#[verifier::external_body]
pub struct ExZipError(zip::result::ZipError);

/// The entries a parsed archive holds, in central-directory order, as plain
/// values: name, comment, declared size, mode bits, safe output path and
/// decompressed contents. An entry whose name has no safe resolution is
/// recorded with empty contents: its bytes are never extracted. The safe
/// output path is rendered with the platform's separator, fixed per compile
/// target.
pub uninterp spec fn archive_entries(a: zip::ZipArchive<std::io::Cursor<Vec<u8>>>) -> Seq<
    EntryData,
>;

/// The outcome of parsing the given bytes as a ZIP archive: the entries of
/// the archive they describe, recorded as `archive_entries` records them,
/// or `None` when they are not a valid archive.
pub uninterp spec fn zip_parse(bytes: Seq<u8>) -> Option<Seq<EntryData>>;

/// Whether the entry at index `i` of the archive can be read: the entry
/// opens and, where its name resolves safely, its contents decompress.
pub uninterp spec fn entry_readable(a: zip::ZipArchive<std::io::Cursor<Vec<u8>>>, i: int) -> bool;

/// Whether every entry of the archive the bytes describe is readable.
pub uninterp spec fn parse_readable(bytes: Seq<u8>) -> bool;

/// This library's errors.
#[derive(Debug, PartialEq, Eq)]
pub enum ExtractError {
    /// The bytes are not a valid ZIP archive.
    InvalidArchive,
    /// The entry at this index could not be read.
    EntryRead(usize),
}

/// Relies on zip::ZipArchive::new: parsing the central directory of
/// in-memory bytes is a function of the bytes alone, and fails exactly when
/// they are not a valid archive. Which entries of the parsed archive are
/// readable is a function of the bytes too.
#[verifier::external_body]
fn zip_open(bytes: Vec<u8>) -> (r: Result<
    zip::ZipArchive<std::io::Cursor<Vec<u8>>>,
    zip::result::ZipError,
>)
    ensures
        (r is Ok) == (zip_parse(bytes@) is Some),
        r matches Ok(a) ==> archive_entries(a) == zip_parse(bytes@).unwrap(),
        r matches Ok(a) ==> parse_readable(bytes@) == (forall|i: int|
            0 <= i < archive_entries(a).len() ==> entry_readable(a, i)),
{
    zip::ZipArchive::new(std::io::Cursor::new(bytes))
}

/// Relies on zip::ZipArchive::len: the number of entries in the central
/// directory.
#[verifier::external_body]
fn zip_len(a: &zip::ZipArchive<std::io::Cursor<Vec<u8>>>) -> (n: usize)
    ensures
        n == archive_entries(*a).len(),
{
    a.len()
}

/// Relies on zip::ZipArchive::by_index and the entry accessors name,
/// comment, size, unix_mode and enclosed_name, and on the entry's Read
/// implementation: reading moves only the underlying reader, so neither the
/// archive's entries nor their readability change; it succeeds exactly for
/// a readable in-range entry and yields that entry's recorded values and
/// decompressed contents. An entry whose name has no safe resolution is
/// never extracted, so its contents are not read and cannot fail.
#[verifier::external_body]
fn zip_read_entry(a: &mut zip::ZipArchive<std::io::Cursor<Vec<u8>>>, i: usize) -> (r: Result<
    ZipEntry,
    zip::result::ZipError,
>)
    ensures
        archive_entries(*final(a)) == archive_entries(*old(a)),
        forall|j: int| entry_readable(*final(a), j) == entry_readable(*old(a), j),
        (r is Ok) == (i < archive_entries(*old(a)).len() && entry_readable(*old(a), i as int)),
        r matches Ok(e) ==> e.deep_view() == archive_entries(*old(a))[i as int],
{
    let mut f = a.by_index(i)?;
    let safe_path = f.enclosed_name().map(|p| p.to_string_lossy().into_owned());
    let name = f.name().to_string();
    let comment = f.comment().to_string();
    let size = f.size();
    let mode = f.unix_mode();
    let mut data = Vec::new();
    if safe_path.is_some() {
        std::io::Read::read_to_end(&mut f, &mut data)?;
    }
    Ok(ZipEntry { name, comment, size, mode, safe_path, data })
}

/// Parses in-memory bytes as a ZIP archive; fails exactly when they are not
/// a valid archive.
pub fn open_archive(bytes: Vec<u8>) -> (r: Result<
    zip::ZipArchive<std::io::Cursor<Vec<u8>>>,
    ExtractError,
>)
    ensures
        (r is Ok) == (zip_parse(bytes@) is Some),
        r matches Ok(a) ==> archive_entries(a) == zip_parse(bytes@).unwrap(),
        r matches Ok(a) ==> parse_readable(bytes@) == (forall|i: int|
            0 <= i < archive_entries(a).len() ==> entry_readable(a, i)),
        r matches Err(e) ==> e == ExtractError::InvalidArchive,
{
    match zip_open(bytes) {
        Ok(a) => Ok(a),
        Err(_) => Err(ExtractError::InvalidArchive),
    }
}

/// The number of entries in the archive.
pub fn entry_count(a: &zip::ZipArchive<std::io::Cursor<Vec<u8>>>) -> (n: usize)
    ensures
        n == archive_entries(*a).len(),
{
    zip_len(a)
}

/// Reads the entry at index `i`: it succeeds exactly for a readable
/// in-range entry, and any failure, an out-of-range index included, is
/// reported against that index.
pub fn read_entry_checked(a: &mut zip::ZipArchive<std::io::Cursor<Vec<u8>>>, i: usize) -> (r:
    Result<ZipEntry, ExtractError>)
    ensures
        archive_entries(*final(a)) == archive_entries(*old(a)),
        forall|j: int| entry_readable(*final(a), j) == entry_readable(*old(a), j),
        (r is Ok) == (i < archive_entries(*old(a)).len() && entry_readable(*old(a), i as int)),
        r matches Ok(e) ==> e.deep_view() == archive_entries(*old(a))[i as int],
        r matches Err(e) ==> e == ExtractError::EntryRead(i),
{
    match zip_read_entry(a, i) {
        Ok(e) => Ok(e),
        Err(_) => Err(ExtractError::EntryRead(i)),
    }
}

/// Reads every entry, in index order; it succeeds exactly when every entry
/// of the archive is readable.
pub fn read_all_entries(a: &mut zip::ZipArchive<std::io::Cursor<Vec<u8>>>) -> (r: Result<
    Vec<ZipEntry>,
    ExtractError,
>)
    ensures
        archive_entries(*final(a)) == archive_entries(*old(a)),
        forall|j: int| entry_readable(*final(a), j) == entry_readable(*old(a), j),
        (r is Ok) == (forall|i: int|
            0 <= i < archive_entries(*old(a)).len() ==> entry_readable(*old(a), i)),
        r matches Ok(es) ==> es.deep_view() == archive_entries(*old(a)),
        r matches Err(e) ==> e matches ExtractError::EntryRead(_),
{
    let ghost entries0 = archive_entries(*a);
    let n = entry_count(a);
    let mut out: Vec<ZipEntry> = Vec::new();
    proof {
        assert(out.deep_view() =~= entries0.subrange(0, 0));
    }
    for i in 0..n
        invariant
            entries0 == archive_entries(*old(a)),
            archive_entries(*a) == entries0,
            forall|j: int| entry_readable(*a, j) == entry_readable(*old(a), j),
            n == entries0.len(),
            out.deep_view() == entries0.subrange(0, i as int),
            forall|j: int| 0 <= j < i ==> entry_readable(*old(a), j),
    {
        match read_entry_checked(a, i) {
            Ok(e) => {
                let ghost prev = out.deep_view();
                out.push(e);
                proof {
                    assert(out.deep_view() =~= prev.push(e.deep_view()));
                    assert(out.deep_view() =~= entries0.subrange(0, i as int + 1));
                }
            },
            Err(err) => {
                return Err(err);
            },
        }
    }
    proof {
        assert(out.deep_view() =~= entries0);
    }
    Ok(out)
}

/// Plans the extraction of the archive the given bytes describe: every line
/// to print and every filesystem action to perform, in order. It succeeds
/// exactly when the bytes are a valid ZIP archive whose entries all read;
/// it fails with `InvalidArchive` exactly when the bytes are not a valid
/// archive, and with `EntryRead` when an entry's contents cannot be read.
pub fn plan_from_bytes(bytes: Vec<u8>) -> (r: Result<Plan, ExtractError>)
    ensures
        (r == Err::<Plan, ExtractError>(ExtractError::InvalidArchive)) == (zip_parse(bytes@)
            is None),
        (r is Ok) == (zip_parse(bytes@) is Some && parse_readable(bytes@)),
        r matches Ok(p) ==> zip_parse(bytes@) matches Some(es)
            && p.lines.deep_view() == plan_lines(es) && p.actions.deep_view() == plan_actions(es),
        r matches Err(e) ==> e == ExtractError::InvalidArchive || e matches ExtractError::EntryRead(
            _,
        ),
{
    let mut a = match open_archive(bytes) {
        Ok(a) => a,
        Err(e) => {
            return Err(e);
        },
    };
    let entries = match read_all_entries(&mut a) {
        Ok(es) => es,
        Err(e) => {
            return Err(e);
        },
    };
    Ok(plan_entries(&entries))
}

} // verus!
