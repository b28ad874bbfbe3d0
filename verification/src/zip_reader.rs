//! The zip reader: an archive over bytes in memory, addressed by index, and
//! what each entry holds.

use std::io::Read;
use vstd::prelude::*;

verus! {

/// `zip::ZipArchive`, the reader of a zip container.
#[verifier::external_type_specification]
#[verifier::external_body]
#[verifier::reject_recursive_types(R)]
pub struct ExZipArchive<R>(zip::ZipArchive<R>);

/// `std::io::Cursor`, which gives the zip reader its random access to bytes.
#[verifier::external_type_specification]
#[verifier::external_body]
#[verifier::reject_recursive_types(T)]
pub struct ExCursor<T>(std::io::Cursor<T>);

/// One entry of a zip archive, open for reading (`zip::read::ZipFile`). Verus
/// refuses to declare that type, whose reader parameter is bound by
/// `std::io::Read`, so the value is held opaquely.
#[verifier::external_body]
pub struct ZipEntry<'a, 'r: 'a> {
    inner: zip::read::ZipFile<'a, std::io::Cursor<&'r [u8]>>,
}

/// What a zip archive holds for one entry.
pub struct ZipRecord {
    /// The entry's name.
    pub name: Seq<char>,
    /// The size of the data when uncompressed.
    pub size: u64,
    /// Whether the name marks a directory.
    pub directory: bool,
    /// The message with which the reader refuses to open the entry, if it does.
    pub refusal: Option<Seq<char>>,
    /// The bytes that reading the entry's data yields before it ends or fails.
    pub content: Seq<u8>,
    /// The message of the failure that ends the reading of the data, if one does.
    pub trouble: Option<Seq<char>>,
}

/// What `zip::ZipArchive::new` finds in these bytes: the records of the
/// entries that the archive then holds, by index, or the reader's message
/// where it rejects the bytes.
pub uninterp spec fn zip_directory(data: Seq<u8>) -> Result<Seq<ZipRecord>, Seq<char>>;

/// The records of the entries that the archive holds, by index.
pub uninterp spec fn zip_listing(archive: zip::ZipArchive<std::io::Cursor<&[u8]>>) -> Seq<
    ZipRecord,
>;

/// What the archive holds for the open entry.
pub uninterp spec fn zip_record(entry: ZipEntry) -> ZipRecord;

/// Calls `zip::ZipArchive::new` on a cursor over the bytes, which reads the
/// central directory, and hands out a failure as its message. Trusted:
/// whether the bytes are accepted, and the records or the message then,
/// depend on the bytes alone, and are only named.
#[verifier::external_body]
pub(crate) fn zip_open<'r>(bytes: &'r [u8]) -> (opened: Result<
    zip::ZipArchive<std::io::Cursor<&'r [u8]>>,
    String,
>)
    ensures
        match opened {
            Ok(archive) => zip_directory(bytes@) == Ok::<Seq<ZipRecord>, Seq<char>>(
                zip_listing(archive),
            ),
            Err(text) => zip_directory(bytes@) == Err::<Seq<ZipRecord>, Seq<char>>(text@),
        },
{
    match zip::ZipArchive::new(std::io::Cursor::new(bytes)) {
        Ok(archive) => Ok(archive),
        Err(error) => Err(error.to_string()),
    }
}

/// Calls `zip::ZipArchive::len`. Trusted: it is the number of records.
#[verifier::external_body]
pub(crate) fn zip_len(archive: &zip::ZipArchive<std::io::Cursor<&[u8]>>) -> (count: usize)
    ensures
        count == zip_listing(*archive).len(),
{
    archive.len()
}

/// Calls `zip::ZipArchive::by_index`, and hands out a failure as its
/// message. Trusted: the records stay as they are; an entry that is handed
/// out is the one at `index`, which has no refusal; and where there is a
/// record at `index`, the call fails exactly with the record's refusal.
#[verifier::external_body]
pub(crate) fn zip_entry<'a, 'r>(
    archive: &'a mut zip::ZipArchive<std::io::Cursor<&'r [u8]>>,
    index: usize,
) -> (found: Result<ZipEntry<'a, 'r>, String>)
    ensures
        zip_listing(*final(archive)) == zip_listing(*old(archive)),
        match found {
            Ok(entry) => index < zip_listing(*old(archive)).len() && zip_listing(
                *old(archive),
            )[index as int].refusal is None && zip_record(entry) == zip_listing(
                *old(archive),
            )[index as int],
            Err(text) => index >= zip_listing(*old(archive)).len() || zip_listing(
                *old(archive),
            )[index as int].refusal == Some(text@),
        },
{
    match archive.by_index(index) {
        Ok(inner) => Ok(ZipEntry { inner }),
        Err(error) => Err(error.to_string()),
    }
}

/// Calls `zip::read::ZipFile::name`. Trusted: it is the record's name.
#[verifier::external_body]
pub(crate) fn zip_name(entry: &ZipEntry) -> (name: String)
    ensures
        name@ == zip_record(*entry).name,
{
    entry.inner.name().to_string()
}

/// Calls `zip::read::ZipFile::size`. Trusted: it is the record's size.
#[verifier::external_body]
pub(crate) fn zip_size(entry: &ZipEntry) -> (size: u64)
    ensures
        size == zip_record(*entry).size,
{
    entry.inner.size()
}

/// Calls `zip::read::ZipFile::is_dir`. Trusted: it is the record's
/// directory flag.
#[verifier::external_body]
pub(crate) fn zip_is_directory(entry: &ZipEntry) -> (directory: bool)
    ensures
        directory == zip_record(*entry).directory,
{
    entry.inner.is_dir()
}

/// Calls `read_to_end` on the open entry, once: the bytes that could be read
/// of its data, and the message of the failure that ended the reading, if
/// one did. Trusted: the bytes are the record's content, and the message is
/// the record's trouble.
#[verifier::external_body]
pub(crate) fn zip_data(entry: ZipEntry) -> (read: (Vec<u8>, Option<String>))
    ensures
        read.0@ == zip_record(entry).content,
        match read.1 {
            Some(text) => zip_record(entry).trouble == Some(text@),
            None => zip_record(entry).trouble is None,
        },
{
    let mut entry = entry;
    let mut data = Vec::new();
    match entry.inner.read_to_end(&mut data) {
        Ok(_) => (data, None),
        Err(error) => (data, Some(error.to_string())),
    }
}

} // verus!
