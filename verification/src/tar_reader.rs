//! The tar reader: an archive over a byte stream, the cursor over its
//! entries, and what each entry holds.

use crate::source::{stream_of, ByteSource, Stream};
use std::io::Read;
use vstd::prelude::*;

verus! {

/// A tar archive over a byte stream. Verus refuses to declare `tar::Archive`,
/// whose reader parameter is bound by `std::io::Read`, so the value is held
/// opaquely.
#[verifier::external_body]
pub struct TarArchive<'r> {
    inner: tar::Archive<Box<dyn std::io::Read + 'r>>,
}

/// The cursor over an archive's entries (`tar::Entries`), together with the
/// entry that it stands on (`tar::Entry`), both held opaquely for the same
/// reason. An entry reads its data through the reader that it shares with
/// the cursor, so the cursor is where the data is read.
#[verifier::external_body]
pub struct TarEntries<'a, 'r: 'a> {
    inner: tar::Entries<'a, Box<dyn std::io::Read + 'r>>,
    current: Option<tar::Entry<'a, Box<dyn std::io::Read + 'r>>>,
}

/// What a tar entry holds.
pub struct TarRecord {
    /// The entry's path in the platform's encoding, or the reader's message
    /// where it has none.
    pub path: Result<Seq<u8>, Seq<char>>,
    /// The declared size of the data.
    pub size: u64,
    /// Whether the type flag is that of a directory.
    pub directory: bool,
    /// The mode field, where it can be read as a number.
    pub mode: Option<u32>,
    /// The bytes that reading the entry's data yields before it ends or fails.
    pub content: Seq<u8>,
    /// The message of the failure that ends the reading of the data, if one does.
    pub trouble: Option<Seq<char>>,
}

/// What a walk of a tar archive meets.
pub struct TarListing {
    /// The entries that the cursor yields, in stored order, before it ends or fails.
    pub records: Seq<TarRecord>,
    /// The message of the failure that the cursor then meets, if it does not end.
    pub failure: Option<Seq<char>>,
}

/// What a walk meets in a tar archive that is read from the given stream.
pub uninterp spec fn tar_listing(stream: Stream) -> TarListing;

/// What a walk of the archive meets; if no cursor can be had, no entry and
/// the message of that refusal.
pub uninterp spec fn archive_listing(archive: TarArchive) -> TarListing;

/// What the cursor still has ahead, past the entry that it stands on.
pub uninterp spec fn entries_ahead(entries: TarEntries) -> TarListing;

/// What the entry holds that the cursor stands on, while its data is unread;
/// none where the cursor stands on no entry.
pub uninterp spec fn entry_under(entries: TarEntries) -> Option<TarRecord>;

/// Calls `tar::Archive::new`, which only stores the reader. Trusted: what a
/// walk of the archive meets depends on the stream alone, and is only named.
#[verifier::external_body]
pub(crate) fn tar_archive<'r>(source: ByteSource<'r>) -> (archive: TarArchive<'r>)
    ensures
        archive_listing(archive) == tar_listing(stream_of(source)),
{
    TarArchive { inner: tar::Archive::new(source.inner) }
}

/// Calls `tar::Archive::entries`, which fails if the archive was read
/// before, and hands out the failure as its message. Trusted: a cursor that
/// is handed out has the archive's listing ahead; where none is, the listing
/// is empty and fails with that message.
#[verifier::external_body]
pub(crate) fn tar_entries<'a, 'r>(archive: &'a mut TarArchive<'r>) -> (entries: Result<
    TarEntries<'a, 'r>,
    String,
>)
    ensures
        match entries {
            Ok(cursor) => entries_ahead(cursor) == archive_listing(*old(archive)),
            Err(text) => archive_listing(*old(archive)) == (TarListing {
                records: Seq::empty(),
                failure: Some(text@),
            }),
        },
{
    match archive.inner.entries() {
        Ok(inner) => Ok(TarEntries { inner, current: None }),
        Err(error) => Err(error.to_string()),
    }
}


/// Calls `next` on `tar::Entries`, keeps the entry that is yielded as the
/// one the cursor stands on, and hands out a failure as its message.
/// Trusted: an entry that is yielded is the first of those ahead and leaves
/// the rest ahead; the cursor fails only when no entry is ahead, with the
/// listing's message; and it ends only when none is ahead and the listing
/// has no failure.
#[verifier::external_body]
pub(crate) fn next_entry(entries: &mut TarEntries) -> (item: Option<Result<(), String>>)
    ensures
        match item {
            Some(Ok(_)) => entries_ahead(*old(entries)).records.len() > 0 && entry_under(
                *final(entries),
            ) == Some(entries_ahead(*old(entries)).records.first()) && entries_ahead(
                *final(entries),
            ) == (TarListing {
                records: entries_ahead(*old(entries)).records.drop_first(),
                failure: entries_ahead(*old(entries)).failure,
            }),
            Some(Err(text)) => entries_ahead(*old(entries)).records.len() == 0 && entries_ahead(
                *old(entries),
            ).failure == Some(text@),
            None => entries_ahead(*old(entries)).records.len() == 0 && entries_ahead(
                *old(entries),
            ).failure is None,
        },
{
    entries.current = None;
    match entries.inner.next() {
        Some(Ok(entry)) => {
            entries.current = Some(entry);
            Some(Ok(()))
        },
        Some(Err(error)) => Some(Err(error.to_string())),
        None => None,
    }
}

/// Calls `tar::Entry::path` on the entry under the cursor and hands out the
/// path's bytes, or the failure's message. Trusted: either is the record's
/// (on Unix the call never fails).
#[verifier::external_body]
pub(crate) fn current_path(entries: &TarEntries) -> (path: Result<Vec<u8>, String>)
    requires
        entry_under(*entries) is Some,
    ensures
        match path {
            Ok(bytes) => entry_under(*entries)->0.path == Ok::<Seq<u8>, Seq<char>>(bytes@),
            Err(text) => entry_under(*entries)->0.path == Err::<Seq<u8>, Seq<char>>(text@),
        },
{
    match entries.current.as_ref().unwrap().path() {
        Ok(path) => Ok(path.as_os_str().as_encoded_bytes().to_vec()),
        Err(error) => Err(error.to_string()),
    }
}

/// Calls `tar::Entry::size` on the entry under the cursor. Trusted: it is
/// the record's size.
#[verifier::external_body]
pub(crate) fn current_size(entries: &TarEntries) -> (size: u64)
    requires
        entry_under(*entries) is Some,
    ensures
        size == entry_under(*entries)->0.size,
{
    entries.current.as_ref().unwrap().size()
}

/// Calls `tar::EntryType::is_dir` on the type in the header of the entry
/// under the cursor. Trusted: it is the record's directory flag.
#[verifier::external_body]
pub(crate) fn current_is_directory(entries: &TarEntries) -> (directory: bool)
    requires
        entry_under(*entries) is Some,
    ensures
        directory == entry_under(*entries)->0.directory,
{
    entries.current.as_ref().unwrap().header().entry_type().is_dir()
}

/// Calls `tar::Header::mode` on the header of the entry under the cursor,
/// and lets a failure go. Trusted: the number is the record's mode, and
/// there is none exactly when the call fails.
#[verifier::external_body]
pub(crate) fn current_mode(entries: &TarEntries) -> (mode: Option<u32>)
    requires
        entry_under(*entries) is Some,
    ensures
        mode == entry_under(*entries)->0.mode,
{
    entries.current.as_ref().unwrap().header().mode().ok()
}

/// Takes the entry from under the cursor and calls `read_to_end` on it: the
/// bytes that could be read of its data, and the message of the failure that
/// ended the reading, if one did. Trusted: the bytes are the record's
/// content, and the message is the record's trouble; after a reading without
/// a failure the cursor has ahead what it had. Nothing is said of the cursor
/// after a failure, nor of the entry under it after either.
#[verifier::external_body]
pub(crate) fn current_data(entries: &mut TarEntries) -> (read: (Vec<u8>, Option<String>))
    requires
        entry_under(*old(entries)) is Some,
    ensures
        read.0@ == entry_under(*old(entries))->0.content,
        match read.1 {
            Some(text) => entry_under(*old(entries))->0.trouble == Some(text@),
            None => entry_under(*old(entries))->0.trouble is None,
        },
        read.1 is None ==> entries_ahead(*final(entries)) == entries_ahead(*old(entries)),
{
    let mut data = Vec::new();
    match entries.current.take().unwrap().read_to_end(&mut data) {
        Ok(_) => (data, None),
        Err(error) => (data, Some(error.to_string())),
    }
}

} // verus!
