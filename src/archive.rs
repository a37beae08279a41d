use vstd::prelude::*;
use vstd::string::StringExecFns;

use crate::error::DriverError;
use crate::platform::str_eq;

verus! {

#[verifier::external_type_specification]
#[verifier::external_body]
#[verifier::reject_recursive_types(T)]
pub struct ExCursor<T>(std::io::Cursor<T>);

#[verifier::external_type_specification]
#[verifier::external_body]
#[verifier::reject_recursive_types(R)]
pub struct ExZipArchive<R>(zip::ZipArchive<R>);

#[verifier::external_type_specification]
#[verifier::external_body]
pub struct ExZipError(zip::result::ZipError);

/// A ZIP archive read from bytes held in memory.
pub type Archive = zip::ZipArchive<std::io::Cursor<Vec<u8>>>;

/// The stored path of each entry, one per distinct name, in the order in which
/// the archive's central directory first lists that name.
pub uninterp spec fn entry_names(a: zip::ZipArchive<std::io::Cursor<Vec<u8>>>) -> Seq<Seq<char>>;

/// The uncompressed contents of each entry, in the same order; `None` for an
/// entry that cannot be read back (encrypted, unsupported, or corrupt).
pub uninterp spec fn entry_contents(a: zip::ZipArchive<std::io::Cursor<Vec<u8>>>) -> Seq<
    Option<Seq<u8>>,
>;

/// The entry names of the ZIP archive that `bytes` hold, or `None` where the
/// bytes hold no readable archive.
pub uninterp spec fn zip_names_of(bytes: Seq<u8>) -> Option<Seq<Seq<char>>>;

/// The entry contents of the ZIP archive that `bytes` hold, as `entry_contents`
/// gives them.
pub uninterp spec fn zip_contents_of(bytes: Seq<u8>) -> Seq<Option<Seq<u8>>>;

/// Relies on `zip::ZipArchive::new`: reads the central directory of the bytes,
/// which alone decide whether it succeeds and what entries the archive lists.
#[verifier::external_body]
fn open_archive(bytes: Vec<u8>) -> (r: Result<Archive, zip::result::ZipError>)
    ensures
        (r is Ok) == (zip_names_of(bytes@) is Some),
        r is Ok ==> entry_names(r->Ok_0) == zip_names_of(bytes@)->Some_0,
        r is Ok ==> entry_contents(r->Ok_0) == zip_contents_of(bytes@),
        r is Ok ==> entry_names(r->Ok_0).len() == entry_contents(r->Ok_0).len(),
{
    zip::ZipArchive::new(std::io::Cursor::new(bytes))
}

/// Relies on `zip::ZipArchive::len`: the number of entries, each with a name
/// and contents.
#[verifier::external_body]
fn archive_len(a: &Archive) -> (r: usize)
    ensures
        r == entry_names(*a).len(),
        r == entry_contents(*a).len(),
{
    a.len()
}

/// Relies on `zip::ZipArchive::name_for_index`: the stored path of entry `i`.
#[verifier::external_body]
fn entry_name(a: &Archive, i: usize) -> (r: Option<String>)
    ensures
        i < entry_names(*a).len() ==> r is Some && r->Some_0@ == entry_names(*a)[i as int],
        i >= entry_names(*a).len() ==> r is None,
{
    a.name_for_index(i).map(|n| n.to_string())
}

/// Relies on `zip::ZipArchive::by_index` and the `Read` impl of the entry it
/// hands out: the whole uncompressed contents of entry `i`. Reading moves the
/// underlying cursor only; the entries stay as they were.
#[verifier::external_body]
fn read_entry(a: &mut Archive, i: usize) -> (r: Result<Vec<u8>, zip::result::ZipError>)
    ensures
        entry_names(*final(a)) == entry_names(*old(a)),
        entry_contents(*final(a)) == entry_contents(*old(a)),
        i < entry_contents(*old(a)).len() ==> (r is Ok) == (entry_contents(*old(a))[i as int] is Some),
        r is Ok ==> i < entry_contents(*old(a)).len() && Some(r->Ok_0@) == entry_contents(
            *old(a),
        )[i as int],
{
    let mut file = a.by_index(i)?;
    let mut buffer = Vec::new();
    std::io::Read::read_to_end(&mut file, &mut buffer)?;
    Ok(buffer)
}

/// The first index at or after `k` whose stored path is `path`.
pub open spec fn first_entry_from(names: Seq<Seq<char>>, path: Seq<char>, k: int) -> Option<int>
    decreases names.len() - k,
{
    if k < 0 || k >= names.len() {
        None
    } else if names[k] == path {
        Some(k)
    } else {
        first_entry_from(names, path, k + 1)
    }
}

/// The first entry whose stored path equals `path` exactly.
pub open spec fn first_entry(names: Seq<Seq<char>>, path: Seq<char>) -> Option<int> {
    first_entry_from(names, path, 0)
}

proof fn lemma_first_entry_from(names: Seq<Seq<char>>, path: Seq<char>, k: int)
    requires
        0 <= k,
    ensures
        match first_entry_from(names, path, k) {
            Some(i) => k <= i < names.len() && names[i] == path && forall|j: int|
                k <= j < i ==> #[trigger] names[j] != path,
            None => forall|j: int| k <= j < names.len() ==> #[trigger] names[j] != path,
        },
    decreases names.len() - k,
{
    if k < names.len() && names[k] != path {
        lemma_first_entry_from(names, path, k + 1);
    }
}

/// An entry is chosen only where its stored path equals the expected path, and
/// it is the first such entry; where no entry has that path, none is chosen.
pub proof fn lemma_first_entry_exact(names: Seq<Seq<char>>, path: Seq<char>)
    ensures
        match first_entry(names, path) {
            Some(i) => 0 <= i < names.len() && names[i] == path && forall|j: int|
                0 <= j < i ==> #[trigger] names[j] != path,
            None => forall|j: int| 0 <= j < names.len() ==> #[trigger] names[j] != path,
        },
{
    lemma_first_entry_from(names, path, 0);
}

/// The index of the first entry of the archive stored under exactly `path`.
pub fn find_driver_entry(archive: &Archive, path: &str) -> (r: Option<usize>)
    ensures
        match r {
            Some(k) => first_entry(entry_names(*archive), path@) == Some(k as int) && k
                < entry_contents(*archive).len(),
            None => first_entry(entry_names(*archive), path@) is None,
        },
{
    let n = archive_len(archive);
    let mut k: usize = 0;
    while k < n
        invariant
            n == entry_names(*archive).len(),
            n == entry_contents(*archive).len(),
            k <= n,
            first_entry(entry_names(*archive), path@) == first_entry_from(
                entry_names(*archive),
                path@,
                k as int,
            ),
        decreases n - k,
    {
        match entry_name(archive, k) {
            Some(name) => {
                if str_eq(name.as_str(), path) {
                    return Some(k);
                }
            },
            None => {},
        }
        k = k + 1;
    }
    None
}

/// The outcome of extracting the entry stored under `path` from an archive
/// whose entries are `names` and `contents`: the first entry under exactly that
/// path, `ArchiveInvalid` where it cannot be read back, `DriverEntryNotFound`
/// where there is none.
pub open spec fn extracted_from(
    names: Seq<Seq<char>>,
    contents: Seq<Option<Seq<u8>>>,
    path: Seq<char>,
    r: Result<Vec<u8>, DriverError>,
) -> bool {
    match first_entry(names, path) {
        Some(i) => match contents[i] {
            Some(c) => r is Ok && r->Ok_0@ == c,
            None => r == Err::<Vec<u8>, DriverError>(DriverError::ArchiveInvalid),
        },
        None => match r {
            Err(DriverError::DriverEntryNotFound(p)) => p@ == path,
            _ => false,
        },
    }
}

/// The contents of the first entry of the archive stored under exactly `path`.
/// An archive with no such entry gives `DriverEntryNotFound`; an entry that
/// cannot be read back gives `ArchiveInvalid`.
pub fn extract_driver(archive: &mut Archive, path: &str) -> (r: Result<Vec<u8>, DriverError>)
    ensures
        entry_names(*final(archive)) == entry_names(*old(archive)),
        entry_contents(*final(archive)) == entry_contents(*old(archive)),
        extracted_from(entry_names(*old(archive)), entry_contents(*old(archive)), path@, r),
{
    proof {
        lemma_first_entry_exact(entry_names(*archive), path@);
    }
    match find_driver_entry(archive, path) {
        Some(i) => match read_entry(archive, i) {
            Ok(data) => Ok(data),
            Err(_) => Err(DriverError::ArchiveInvalid),
        },
        None => Err(DriverError::DriverEntryNotFound(String::from_str(path))),
    }
}

/// Extraction writes out an entry only where the archive holds one stored
/// under exactly the expected path, and then the first such entry's contents;
/// where it holds none, the result is `DriverEntryNotFound` and no contents
/// are handed out.
pub proof fn lemma_extract_only_exact_entry(
    names: Seq<Seq<char>>,
    contents: Seq<Option<Seq<u8>>>,
    path: Seq<char>,
    r: Result<Vec<u8>, DriverError>,
)
    requires
        extracted_from(names, contents, path, r),
    ensures
        r is Ok ==> exists|i: int|
            #![trigger names[i]]
            {
                &&& 0 <= i < names.len()
                &&& names[i] == path
                &&& contents[i] == Some(r->Ok_0@)
                &&& forall|j: int| 0 <= j < i ==> #[trigger] names[j] != path
            },
        (forall|j: int| 0 <= j < names.len() ==> #[trigger] names[j] != path) ==> match r {
            Err(DriverError::DriverEntryNotFound(p)) => p@ == path,
            _ => false,
        },
{
    lemma_first_entry_exact(names, path);
    match first_entry(names, path) {
        Some(i) => {
            assert(names[i] == path);
        },
        None => {},
    }
}

/// Reads the downloaded bytes as a ZIP archive and takes out the driver stored
/// under exactly `path`. Bytes that are no archive give `ArchiveInvalid`;
/// otherwise the result is that of extracting from the archive they hold.
pub fn unpack_driver(bytes: Vec<u8>, path: &str) -> (r: Result<Vec<u8>, DriverError>)
    ensures
        zip_names_of(bytes@) is None ==> r == Err::<Vec<u8>, DriverError>(
            DriverError::ArchiveInvalid,
        ),
        zip_names_of(bytes@) is Some ==> extracted_from(
            zip_names_of(bytes@)->Some_0,
            zip_contents_of(bytes@),
            path@,
            r,
        ),
{
    match open_archive(bytes) {
        Ok(mut archive) => extract_driver(&mut archive, path),
        Err(_) => Err(DriverError::ArchiveInvalid),
    }
}

} // verus!
