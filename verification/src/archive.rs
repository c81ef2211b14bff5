//! Reading a zip archive that is held in memory, and planning its extraction.

use std::io::Cursor;
use std::io::Read;

use vstd::prelude::*;

use zip::read::ZipArchive;
use zip::result::{InvalidPassword, ZipError};

use crate::error::Error;
use crate::platform::HostFamily;
use crate::unpack::{
    action_for, is_contained, is_directory_name, is_tame_name, lemma_tame_name_is_contained,
    names_directory, normal_parts, plan_entries, planned, texts, ActionView, FsAction, ZipEntry,
    ZipEntryView,
};

verus! {

/// `zip::read::ZipArchive`, an opened archive over a reader. Nothing inside
/// it is visible to the proofs.
#[verifier::external_type_specification]
#[verifier::external_body]
#[verifier::reject_recursive_types(R)]
pub struct ExZipArchive<R>(ZipArchive<R>);

/// `std::io::Cursor`, a reader over a buffer in memory. Nothing inside it is
/// visible to the proofs.
#[verifier::external_type_specification]
#[verifier::external_body]
#[verifier::reject_recursive_types(T)]
pub struct ExCursor<T>(Cursor<T>);

/// `zip::result::ZipError`. The proofs do not look into it: every such error
/// becomes `Error::Archive`.
#[verifier::external_type_specification]
#[verifier::external_body]
pub struct ExZipError(ZipError);

/// `zip::result::InvalidPassword`, the refusal of an entry that is encrypted
/// otherwise than the password says. The proofs do not look into it.
#[verifier::external_type_specification]
#[verifier::external_body]
pub struct ExInvalidPassword(InvalidPassword);

/// The bytes that an opened archive reads from.
pub uninterp spec fn archive_source(archive: ZipArchive<Cursor<Vec<u8>>>) -> Seq<u8>;

/// The number of entries that the central directory of a zip archive lists;
/// `None` where the bytes are no archive that can be opened.
pub uninterp spec fn zip_entry_count(bytes: Seq<u8>) -> Option<nat>;

/// The stored name and the recorded Unix permission bits of the entry at
/// `index`; `None` where the entry cannot be opened without a password.
pub uninterp spec fn zip_entry_meta(bytes: Seq<u8>, index: nat) -> Option<(Seq<char>, Option<u32>)>;

/// The decompressed contents of the entry at `index`; `None` where it cannot be
/// opened without a password or its data is corrupt.
pub uninterp spec fn zip_entry_data(bytes: Seq<u8>, index: nat) -> Option<Seq<u8>>;

/// What the directory of an archive says of one entry.
struct EntryHeader {
    /// The name under which the archive stores the entry.
    name: String,
    /// The sanitized relative path, one component per element.
    path: Vec<String>,
    /// The Unix permission bits that the archive records, if any.
    unix_mode: Option<u32>,
}

/// Calls `ZipArchive::new` on a cursor over the bytes. Nothing is proved of it:
/// the contract says that it succeeds exactly where the bytes have an entry
/// count, and that the archive then reads from these bytes.
#[verifier::external_body]
fn open_archive(bytes: Vec<u8>) -> (r: Result<ZipArchive<Cursor<Vec<u8>>>, ZipError>)
    ensures
        match r {
            Ok(archive) => zip_entry_count(bytes@) is Some && archive_source(archive) == bytes@,
            Err(_) => zip_entry_count(bytes@) is None,
        },
{
    ZipArchive::new(Cursor::new(bytes))
}

/// Calls `ZipArchive::len`. Nothing is proved of it: the contract says that it
/// returns the entry count of the bytes that the archive reads from.
#[verifier::external_body]
fn archive_len(archive: &ZipArchive<Cursor<Vec<u8>>>) -> (n: usize)
    ensures
        zip_entry_count(archive_source(*archive)) == Some(n as nat),
{
    archive.len()
}

/// Calls `ZipArchive::by_index_decrypt` with the empty password, which
/// reports an entry that needs a password where `by_index` would stop the
/// program, and copies out of the entry its `name`, the components of its
/// `mangled_name` and its `unix_mode`. Nothing is proved of it. The contract
/// names the stored name and the mode, and says that the archive still reads
/// from the same bytes. Of the sanitized path it says what holds on every
/// host: for a name without NUL and colon that does not begin with two
/// separators, the path is the name split at slashes and backslashes, without
/// the parts that are empty, `.` or `..`.
#[verifier::external_body]
fn entry_header(archive: &mut ZipArchive<Cursor<Vec<u8>>>, index: usize) -> (r: Result<
    Result<EntryHeader, InvalidPassword>,
    ZipError,
>)
    ensures
        archive_source(*final(archive)) == archive_source(*old(archive)),
        match r {
            Ok(Ok(header)) => {
                &&& zip_entry_meta(archive_source(*old(archive)), index as nat) == Some(
                    (header.name@, header.unix_mode),
                )
                &&& is_tame_name(header.name@) ==> texts(header.path@) == normal_parts(header.name@)
            },
            _ => zip_entry_meta(archive_source(*old(archive)), index as nat) is None,
        },
{
    let file = match archive.by_index_decrypt(index, &[])? {
        Ok(file) => file,
        Err(e) => return Ok(Err(e)),
    };
    let path = file.mangled_name().iter().map(|c| c.to_string_lossy().into_owned()).collect();
    Ok(Ok(EntryHeader { name: file.name().to_string(), path, unix_mode: file.unix_mode() }))
}

/// Calls `ZipArchive::by_index_decrypt` with the empty password and reads the
/// entry to its end. Nothing is proved of it: the contract names the
/// decompressed contents, and says that the archive still reads from the same
/// bytes.
#[verifier::external_body]
fn entry_data(archive: &mut ZipArchive<Cursor<Vec<u8>>>, index: usize) -> (r: Result<
    Result<Vec<u8>, InvalidPassword>,
    ZipError,
>)
    ensures
        archive_source(*final(archive)) == archive_source(*old(archive)),
        match r {
            Ok(Ok(data)) => zip_entry_data(archive_source(*old(archive)), index as nat) == Some(
                data@,
            ),
            _ => zip_entry_data(archive_source(*old(archive)), index as nat) is None,
        },
{
    let mut file = match archive.by_index_decrypt(index, &[])? {
        Ok(file) => file,
        Err(e) => return Ok(Err(e)),
    };
    let mut data = Vec::new();
    file.read_to_end(&mut data)?;
    Ok(Ok(data))
}

/// The stored name of the entry at `index`; empty where the entry cannot be
/// opened.
pub open spec fn entry_name(bytes: Seq<u8>, index: nat) -> Seq<char> {
    match zip_entry_meta(bytes, index) {
        Some((name, _)) => name,
        None => Seq::empty(),
    }
}

/// Whether the entry at `index` can be read: its header opens and, unless it
/// is a directory, its contents decompress.
pub open spec fn entry_readable(bytes: Seq<u8>, index: nat) -> bool {
    match zip_entry_meta(bytes, index) {
        Some((name, _)) => is_directory_name(name) || zip_entry_data(bytes, index) is Some,
        None => false,
    }
}

/// Whether `entry` is what the archive holds at `index`: the stored name and
/// mode, the contents unless it is a directory, and, for a tame name, the
/// ordinary parts of the name as the path.
pub open spec fn holds_entry(bytes: Seq<u8>, index: nat, entry: ZipEntryView) -> bool {
    match zip_entry_meta(bytes, index) {
        Some((name, unix_mode)) => {
            &&& entry.name == name
            &&& entry.unix_mode == unix_mode
            &&& is_tame_name(name) ==> entry.path == normal_parts(name)
            &&& if is_directory_name(name) {
                entry.data == Seq::<u8>::empty()
            } else {
                zip_entry_data(bytes, index) == Some(entry.data)
            }
        },
        None => false,
    }
}

/// Whether `action` installs the entry at `index`: under the ordinary parts
/// of its name where the name is tame, else under the path that the action
/// itself carries, and in either case inside the install directory.
pub open spec fn installs_entry(
    bytes: Seq<u8>,
    index: nat,
    action: ActionView,
    family: HostFamily,
) -> bool {
    match zip_entry_meta(bytes, index) {
        Some((name, unix_mode)) => {
            &&& entry_readable(bytes, index)
            &&& is_contained(action.target(), family)
            &&& is_tame_name(name) ==> action.target() == normal_parts(name)
            &&& action == action_for(
                ZipEntryView {
                    name,
                    path: action.target(),
                    unix_mode,
                    data: if is_directory_name(name) {
                        Seq::empty()
                    } else {
                        zip_entry_data(bytes, index).unwrap()
                    },
                },
                family,
            )
        },
        None => false,
    }
}

/// Reads the entries of a zip archive, in the archive's order; the contents of
/// a directory entry are not read. Succeeds exactly where the bytes open as
/// an archive and every entry can be read.
pub fn read_entries(bytes: Vec<u8>) -> (r: Result<Vec<ZipEntry>, Error>)
    ensures
        match r {
            Ok(entries) => {
                &&& zip_entry_count(bytes@) == Some(entries@.len())
                &&& forall|k: int|
                    0 <= k < entries@.len() ==> holds_entry(bytes@, k as nat, #[trigger] entries@[k]@)
            },
            Err(e) => {
                &&& e == Error::Archive
                &&& zip_entry_count(bytes@) matches Some(n) ==> exists|k: nat|
                    k < n && !entry_readable(bytes@, k)
            },
        },
{
    let ghost source = bytes@;
    let mut archive = match open_archive(bytes) {
        Ok(archive) => archive,
        Err(_) => {
            return Err(Error::Archive);
        },
    };
    let n = archive_len(&archive);
    let mut entries: Vec<ZipEntry> = Vec::new();
    let mut i: usize = 0;
    while i < n
        invariant
            i <= n,
            source == bytes@,
            archive_source(archive) == source,
            zip_entry_count(source) == Some(n as nat),
            entries@.len() == i,
            forall|k: int| 0 <= k < i ==> holds_entry(source, k as nat, #[trigger] entries@[k]@),
        decreases n - i,
    {
        let header = match entry_header(&mut archive, i) {
            Ok(Ok(header)) => header,
            _ => {
                assert(!entry_readable(source, i as nat));
                return Err(Error::Archive);
            },
        };
        let data = if names_directory(header.name.as_str()) {
            Vec::new()
        } else {
            match entry_data(&mut archive, i) {
                Ok(Ok(data)) => data,
                _ => {
                    assert(!entry_readable(source, i as nat));
                    return Err(Error::Archive);
                },
            }
        };
        let entry = ZipEntry {
            name: header.name,
            path: header.path,
            unix_mode: header.unix_mode,
            data,
        };
        assert(holds_entry(source, i as nat, entry@));
        entries.push(entry);
        i += 1;
    }
    Ok(entries)
}

/// Plans the extraction of a zip archive: one action for each entry, in the
/// archive's order. Fails with `Error::Archive` where the bytes are no archive,
/// an entry cannot be read, or the sanitized path of an entry would leave the
/// install directory; the last cannot happen where every name is tame.
pub fn unpack_plan(bytes: Vec<u8>, family: HostFamily) -> (r: Result<Vec<FsAction>, Error>)
    ensures
        r matches Err(e) ==> e == Error::Archive,
        zip_entry_count(bytes@) is None ==> r is Err,
        zip_entry_count(bytes@) matches Some(n) && (exists|k: nat| k < n && !entry_readable(bytes@, k))
            ==> r is Err,
        zip_entry_count(bytes@) matches Some(n) && (forall|k: nat|
            k < n ==> #[trigger] entry_readable(bytes@, k) && is_tame_name(entry_name(bytes@, k)))
            ==> r is Ok,
        zip_entry_count(bytes@) == Some(0nat) ==> (r matches Ok(plan) && plan@.len() == 0),
        r matches Ok(plan) ==> {
            &&& zip_entry_count(bytes@) == Some(plan@.len())
            &&& forall|k: int|
                0 <= k < plan@.len() ==> installs_entry(bytes@, k as nat, #[trigger] plan@[k]@, family)
        },
{
    let ghost source = bytes@;
    let entries = match read_entries(bytes) {
        Ok(entries) => entries,
        Err(e) => {
            return Err(e);
        },
    };
    let ghost read = entries@;
    match plan_entries(entries, family) {
        Ok(plan) => {
            proof {
                assert forall|k: int| 0 <= k < plan@.len() implies installs_entry(
                    source,
                    k as nat,
                    #[trigger] plan@[k]@,
                    family,
                ) by {
                    assert(holds_entry(source, k as nat, read[k]@));
                    assert(planned(read[k]@, family) == Ok::<ActionView, Error>(plan@[k]@));
                    assert(plan@[k]@.target() == read[k]@.path);
                }
                assert forall|k: nat| k < plan@.len() implies entry_readable(source, k) by {
                    assert(holds_entry(source, k, read[k as int]@));
                }
            }
            Ok(plan)
        },
        Err(e) => {
            proof {
                let k = choose|k: int| 0 <= k < read.len() && !is_contained(
                    (#[trigger] read[k])@.path,
                    family,
                );
                assert(holds_entry(source, k as nat, read[k]@));
                assert(entry_readable(source, k as nat));
                if is_tame_name(entry_name(source, k as nat)) {
                    lemma_tame_name_is_contained(entry_name(source, k as nat), family);
                }
            }
            Err(e)
        },
    }
}

} // verus!
