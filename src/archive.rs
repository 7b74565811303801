use crate::text::{chars_of, contains_chars, ends_with_chars, has_infix, has_suffix};
use vstd::prelude::*;

verus! {

#[verifier::external_type_specification]
#[verifier::external_body]
#[verifier::reject_recursive_types(T)]
pub struct ExCursor<T>(std::io::Cursor<T>);

#[verifier::external_type_specification]
#[verifier::external_body]
#[verifier::reject_recursive_types(R)]
pub struct ExZipArchive<R>(zip::ZipArchive<R>);

#[verifier::external_type_specification]
#[verifier::external_body]
pub struct ExZipError(zip::result::ZipError);

/// The names of an archive's entries, in index order.
pub uninterp spec fn archive_names(a: zip::ZipArchive<std::io::Cursor<Vec<u8>>>) -> Seq<Seq<char>>;

/// Per entry of an archive, in index order: its decompressed and checked data,
/// or `None` where it cannot be read.
pub uninterp spec fn archive_data(a: zip::ZipArchive<std::io::Cursor<Vec<u8>>>) -> Seq<
    Option<Seq<u8>>,
>;

/// Whether `zip::ZipArchive::new` reads the bytes as an archive.
pub uninterp spec fn zip_opens(b: Seq<u8>) -> bool;

/// The entry names of the archive read from the bytes, in index order.
pub uninterp spec fn zip_names(b: Seq<u8>) -> Seq<Seq<char>>;

/// Per entry of the archive read from the bytes: its data, or `None` where
/// it cannot be read.
pub uninterp spec fn zip_data(b: Seq<u8>) -> Seq<Option<Seq<u8>>>;

/// Relies on `zip::ZipArchive::new`: it reads the central directory of an
/// archive held in memory, which succeeds or fails on the bytes alone; the
/// entries of the archive are those of the bytes.
#[verifier::external_body]
fn open_archive(bytes: Vec<u8>) -> (r: Result<
    zip::ZipArchive<std::io::Cursor<Vec<u8>>>,
    zip::result::ZipError,
>)
    ensures
        r is Ok == zip_opens(bytes@),
        r matches Ok(a) ==> archive_names(a) == zip_names(bytes@) && archive_data(a) == zip_data(
            bytes@,
        ),
{
    zip::ZipArchive::new(std::io::Cursor::new(bytes))
}

/// Relies on `zip::ZipArchive::len`: the number of entries.
#[verifier::external_body]
fn entry_count(a: &zip::ZipArchive<std::io::Cursor<Vec<u8>>>) -> (r: usize)
    ensures
        r == archive_names(*a).len(),
        r == archive_data(*a).len(),
{
    a.len()
}

/// Relies on `zip::ZipArchive::name_for_index`: the name of entry `i`,
/// present exactly for the indices below the number of entries.
#[verifier::external_body]
fn entry_name(a: &zip::ZipArchive<std::io::Cursor<Vec<u8>>>, i: usize) -> (r: Option<String>)
    ensures
        r.is_some() == (i < archive_names(*a).len()),
        r matches Some(n) ==> n@ == archive_names(*a)[i as int],
{
    a.name_for_index(i).map(|n| n.to_string())
}

/// Relies on `zip::ZipArchive::by_index` and reading the entry to its end:
/// it succeeds exactly on the entries that can be read, with their data; the
/// archive's entries do not change.
#[verifier::external_body]
fn read_entry(a: &mut zip::ZipArchive<std::io::Cursor<Vec<u8>>>, i: usize) -> (r: Result<
    Vec<u8>,
    zip::result::ZipError,
>)
    ensures
        archive_names(*final(a)) == archive_names(*old(a)),
        archive_data(*final(a)) == archive_data(*old(a)),
        r is Ok == (i < archive_data(*old(a)).len() && archive_data(*old(a))[i as int] is Some),
        r matches Ok(v) ==> archive_data(*old(a))[i as int] == Some(v@),
{
    let mut file = a.by_index(i)?;
    let mut out = Vec::new();
    std::io::Read::read_to_end(&mut file, &mut out)?;
    Ok(out)
}

/// Why no executable came out of an archive.
#[derive(Clone, Copy, PartialEq, Eq, Debug)]
pub enum ExtractError {
    /// The bytes are not a readable zip archive.
    NotAnArchive,
    /// No file entry names the sidecar.
    NoExecutable,
    /// The entry that names the sidecar could not be read.
    Unreadable,
}

/// The word that the sidecar's executable name contains.
pub open spec fn sidecar_word() -> Seq<char> {
    "opencode"@
}

/// An entry that holds the sidecar: its name contains the sidecar's word and
/// it is not a directory.
pub open spec fn names_sidecar(name: Seq<char>) -> bool {
    has_infix(name, sidecar_word()) && !has_suffix(name, "/"@)
}

/// Entry `i` is the first that holds the sidecar.
pub open spec fn first_sidecar_entry(names: Seq<Seq<char>>, i: int) -> bool {
    0 <= i < names.len() && names_sidecar(names[i]) && forall|k: int|
        0 <= k < i ==> !names_sidecar(#[trigger] names[k])
}

/// What an archive with these entries yields: the data of its first entry
/// that holds the sidecar, `Unreadable` where that entry cannot be read, and
/// `NoExecutable` where no entry holds the sidecar.
pub open spec fn entries_payload(names: Seq<Seq<char>>, data: Seq<Option<Seq<u8>>>) -> Result<
    Seq<u8>,
    ExtractError,
> {
    if exists|i: int| first_sidecar_entry(names, i) {
        let i = choose|i: int| first_sidecar_entry(names, i);
        match data[i] {
            Some(v) => Ok(v),
            None => Err(ExtractError::Unreadable),
        }
    } else {
        Err(ExtractError::NoExecutable)
    }
}

/// What downloaded bytes yield as a zip archive.
pub open spec fn zip_payload(b: Seq<u8>) -> Result<Seq<u8>, ExtractError> {
    if zip_opens(b) {
        entries_payload(zip_names(b), zip_data(b))
    } else {
        Err(ExtractError::NotAnArchive)
    }
}

/// Whether a result holds the given outcome, data by its view.
pub open spec fn yields(r: Result<Vec<u8>, ExtractError>, p: Result<Seq<u8>, ExtractError>) -> bool {
    match r {
        Ok(v) => p == Ok::<Seq<u8>, ExtractError>(v@),
        Err(e) => p == Err::<Seq<u8>, ExtractError>(e),
    }
}

proof fn lemma_first_unique(names: Seq<Seq<char>>, i: int, j: int)
    requires
        first_sidecar_entry(names, i),
        first_sidecar_entry(names, j),
    ensures
        i == j,
{
    if i < j {
        assert(!names_sidecar(names[i]));
    }
    if j < i {
        assert(!names_sidecar(names[j]));
    }
}

/// Whether an entry name holds the sidecar.
pub fn is_sidecar_entry(name: &str) -> (r: bool)
    ensures
        r == names_sidecar(name@),
{
    let cs = chars_of(name);
    let word = chars_of("opencode");
    let slash = chars_of("/");
    contains_chars(&cs, &word) && !ends_with_chars(&cs, &slash)
}

/// The data of the first entry of the archive that holds the sidecar.
pub fn extract_executable(a: &mut zip::ZipArchive<std::io::Cursor<Vec<u8>>>) -> (r: Result<
    Vec<u8>,
    ExtractError,
>)
    ensures
        yields(r, entries_payload(archive_names(*old(a)), archive_data(*old(a)))),
{
    let ghost names = archive_names(*a);
    let ghost data = archive_data(*a);
    let n = entry_count(a);
    let mut i: usize = 0;
    while i < n
        invariant
            n == names.len(),
            n == data.len(),
            archive_names(*a) == names,
            archive_data(*a) == data,
            names == archive_names(*old(a)),
            data == archive_data(*old(a)),
            i <= n,
            forall|k: int| 0 <= k < i ==> !names_sidecar(#[trigger] names[k]),
        decreases n - i,
    {
        if let Some(name) = entry_name(a, i) {
            if is_sidecar_entry(name.as_str()) {
                assert(first_sidecar_entry(names, i as int));
                proof {
                    let j = choose|j: int| first_sidecar_entry(names, j);
                    lemma_first_unique(names, i as int, j);
                }
                return match read_entry(a, i) {
                    Ok(v) => Ok(v),
                    Err(_) => Err(ExtractError::Unreadable),
                };
            }
        }
        i = i + 1;
    }
    assert(!exists|j: int| first_sidecar_entry(names, j));
    Err(ExtractError::NoExecutable)
}

/// The executable that a downloaded zip archive holds.
pub fn extract_from_zip(bytes: Vec<u8>) -> (r: Result<Vec<u8>, ExtractError>)
    ensures
        yields(r, zip_payload(bytes@)),
{
    match open_archive(bytes) {
        Ok(mut a) => extract_executable(&mut a),
        Err(_) => Err(ExtractError::NotAnArchive),
    }
}

} // verus!
