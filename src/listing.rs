//! Listing the files of a directory for the editor's file tree.
use vstd::prelude::*;

use crate::platform::Platform;
use crate::text::{decimal, decimal_string};

verus! {

#[verifier::external_type_specification]
#[verifier::external_body]
pub struct ExSystemTime(std::time::SystemTime);

/// What `str::to_lowercase` gives for a text.
pub uninterp spec fn lower_of(s: Seq<char>) -> Seq<char>;

/// Relies on `str::to_lowercase`: the result depends on the characters alone.
#[verifier::external_body]
fn lowercase(s: &str) -> (r: String)
    ensures
        r@ == lower_of(s@),
{
    s.to_lowercase()
}

/// Relies on `SystemTime::duration_since` against `UNIX_EPOCH`: the time
/// since the epoch, or `None` for a time before it.
#[verifier::external_body]
fn since_epoch(t: &std::time::SystemTime) -> (r: Option<std::time::Duration>) {
    t.duration_since(std::time::UNIX_EPOCH).ok()
}

/// Relies on `Duration::as_millis`: the whole milliseconds of a duration.
#[verifier::external_body]
fn whole_millis(d: &std::time::Duration) -> (r: u128) {
    d.as_millis()
}

/// A modification time as the front end reads it: milliseconds since the
/// epoch in decimal, or "0" when there is none.
pub open spec fn millis_text(m: Option<u128>) -> Seq<char> {
    match m {
        Some(x) => decimal(x as nat),
        None => "0"@,
    }
}

/// Formats milliseconds since the epoch, or "0" for none.
pub fn format_epoch_millis(m: Option<u128>) -> (r: String)
    ensures
        r@ == millis_text(m),
{
    match m {
        Some(x) => decimal_string(x),
        None => String::from_str("0"),
    }
}

/// The whole milliseconds from the epoch to `time`, or `None` for a time
/// before the epoch. A `SystemTime` is opaque here, so nothing is stated of
/// the count: `format_epoch_millis` is the exact part.
pub fn epoch_millis(time: std::time::SystemTime) -> (r: Option<u128>) {
    match since_epoch(&time) {
        Some(d) => Some(whole_millis(&d)),
        None => None,
    }
}

/// Formats a time as milliseconds since the epoch; a time before the epoch
/// gives "0". This is `format_epoch_millis` of `epoch_millis(time)`.
pub fn format_system_time(time: std::time::SystemTime) -> (r: String)
    ensures
        exists|m: Option<u128>| r@ == millis_text(m),
{
    format_epoch_millis(epoch_millis(time))
}

/// One directory entry, as read from the file system.
pub struct DirEntryInfo {
    pub name: String,
    pub path: String,
    pub is_file: bool,
    pub size: u64,
    /// The modification time in whole milliseconds since the epoch, when
    /// the file system gives one at or after the epoch.
    pub modified_ms: Option<u128>,
}

/// One file as the front end lists it.
pub struct FileInfo {
    pub name: String,
    pub path: String,
    pub is_directory: bool,
    pub size: u64,
    pub modified_time: String,
}

/// The names of Windows' own folder files, in lower case.
pub open spec fn is_system_name(n: Seq<char>) -> bool {
    n == "desktop.ini"@ || n == "thumbs.db"@ || n == "folder.htt"@ || n == "folder.ini"@
}

/// An entry the listing shows: a file, not hidden (no leading dot), and on
/// Windows not one of the system's folder files, in any case.
pub open spec fn is_listed(e: DirEntryInfo, p: Platform) -> bool {
    e.is_file && !(e.name@.len() > 0 && e.name@[0] == '.') && !(p is Windows && is_system_name(
        lower_of(e.name@),
    ))
}

/// The entries the listing shows, in order.
pub open spec fn listed(es: Seq<DirEntryInfo>, p: Platform) -> Seq<DirEntryInfo>
    decreases es.len(),
{
    if es.len() == 0 {
        Seq::<DirEntryInfo>::empty()
    } else {
        listed(es.drop_last(), p) + if is_listed(es.last(), p) {
            seq![es.last()]
        } else {
            Seq::<DirEntryInfo>::empty()
        }
    }
}

/// `f` shows entry `e`.
pub open spec fn shows(f: FileInfo, e: DirEntryInfo) -> bool {
    &&& f.name@ == e.name@
    &&& f.path@ == e.path@
    &&& !f.is_directory
    &&& f.size == e.size
    &&& f.modified_time@ == millis_text(e.modified_ms)
}

/// Whether a lower-case file name is one of Windows' own folder files.
pub fn is_system_file_name(lower: &str) -> (r: bool)
    ensures
        r == is_system_name(lower@),
{
    let lower = String::from_str(lower);
    lower == String::from_str("desktop.ini") || lower == String::from_str("thumbs.db") || lower
        == String::from_str("folder.htt") || lower == String::from_str("folder.ini")
}

/// Whether `name` is one of Windows' own folder files, in any case.
fn is_system_file(name: &str) -> (r: bool)
    ensures
        r == is_system_name(lower_of(name@)),
{
    let lower = lowercase(name);
    is_system_file_name(lower.as_str())
}

/// Whether the listing shows `e`.
fn entry_listed(e: &DirEntryInfo, platform: Platform) -> (r: bool)
    ensures
        r == is_listed(*e, platform),
{
    if !e.is_file {
        return false;
    }
    if e.name.as_str().unicode_len() > 0 && e.name.as_str().get_char(0) == '.' {
        return false;
    }
    match platform {
        Platform::Windows => !is_system_file(e.name.as_str()),
        _ => true,
    }
}

/// The files of a directory that the editor shows, in the order the
/// entries came, each with its modification time formatted.
pub fn list_visible_files(entries: Vec<DirEntryInfo>, platform: Platform) -> (r: Vec<FileInfo>)
    ensures
        r@.len() == listed(entries@, platform).len(),
        forall|i: int| 0 <= i < r@.len() ==> shows(#[trigger] r@[i], listed(entries@, platform)[i]),
{
    let mut r: Vec<FileInfo> = Vec::new();
    let mut i: usize = 0;
    while i < entries.len()
        invariant
            i <= entries.len(),
            r@.len() == listed(entries@.subrange(0, i as int), platform).len(),
            forall|k: int|
                0 <= k < r@.len() ==> shows(
                    #[trigger] r@[k],
                    listed(entries@.subrange(0, i as int), platform)[k],
                ),
        decreases entries.len() - i,
    {
        let e = &entries[i];
        let ghost before = entries@.subrange(0, i as int);
        assert(entries@.subrange(0, i + 1).drop_last() =~= before);
        if entry_listed(e, platform) {
            let modified_time = format_epoch_millis(e.modified_ms);
            r.push(
                FileInfo {
                    name: e.name.clone(),
                    path: e.path.clone(),
                    is_directory: false,
                    size: e.size,
                    modified_time,
                },
            );
        }
        i = i + 1;
    }
    assert(entries@.subrange(0, entries.len() as int) =~= entries@);
    r
}

} // verus!
