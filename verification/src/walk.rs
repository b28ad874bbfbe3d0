//! Walking an archive one entry at a time: each call reads one entry and
//! plans its step, so that the step can be carried out before the next entry
//! is read, and only one entry's data is held at a time.

use crate::entry::{plan_entry, Action, ArchiveEntry, EntryKind, EntryView, Step};
use crate::error::ExtractError;
use crate::format::ArchiveFormat;
use crate::source::{
    bzip2_source, bzip2_stream, gzip_source, gzip_stream, plain_source, stream_of, xz_source,
    xz_stream, ByteSource, Stream,
};
use crate::tar_reader::{
    archive_listing, current_data, current_is_directory, current_mode, current_path,
    current_size, entries_ahead, next_entry, tar_archive, tar_entries, tar_listing, TarArchive,
    TarEntries, TarListing, TarRecord,
};
use crate::zip_reader::{
    zip_data, zip_directory, zip_entry, zip_is_directory, zip_len, zip_listing, zip_name,
    zip_open, zip_size, ZipRecord,
};
use vstd::prelude::*;
use vstd::string::{StrSliceExecFns, StringExecFns, StringSliceAdditionalSpecFns};
use vstd::utf8::*;

verus! {

/// File or directory, from a reader's directory flag.
pub open spec fn kind_of(directory: bool) -> EntryKind {
    if directory {
        EntryKind::Directory
    } else {
        EntryKind::File
    }
}

/// The entry that a tar record with a path describes.
pub open spec fn tar_entry_view(record: TarRecord) -> EntryView
    recommends
        record.path is Ok,
{
    EntryView {
        path: record.path->Ok_0,
        size: record.size,
        kind: kind_of(record.directory),
        mode: record.mode,
    }
}

/// The entry that a zip record describes: the path is the name's UTF-8
/// encoding, and there are no permission bits to restore.
pub open spec fn zip_entry_view(record: ZipRecord) -> EntryView {
    EntryView {
        path: encode_utf8(record.name),
        size: record.size,
        kind: kind_of(record.directory),
        mode: None,
    }
}

/// Whether a walk goes on past a tar record: it has a path, and it is a
/// directory or its data reads without a failure.
pub open spec fn tar_clean(record: TarRecord) -> bool {
    record.path is Ok && (record.directory || record.trouble is None)
}

/// Whether a walk goes on past a zip record: it opens, and it is a directory
/// or its data reads without a failure.
pub open spec fn zip_clean(record: ZipRecord) -> bool {
    record.refusal is None && (record.directory || record.trouble is None)
}

/// Whether `step` was planned from the tar record: the record has a path,
/// the step's entry is the one it describes, and a file is written with the
/// record's content.
pub open spec fn planned_from_tar(step: Step, record: TarRecord) -> bool {
    &&& record.path is Ok
    &&& step.entry@ == tar_entry_view(record)
    &&& step.action matches Action::WriteFile { data, mode } ==> data@ == record.content
}

/// Whether `step` was planned from the zip record: the record opens, the
/// step's entry is the one it describes, and a file is written with the
/// record's content.
pub open spec fn planned_from_zip(step: Step, record: ZipRecord) -> bool {
    &&& record.refusal is None
    &&& step.entry@ == zip_entry_view(record)
    &&& step.action matches Action::WriteFile { data, mode } ==> data@ == record.content
}

/// The message of a failure that came from a decoder or an archive reader.
pub open spec fn malformed_text(failure: Option<ExtractError>) -> Option<Seq<char>> {
    match failure {
        Some(ExtractError::Malformed { detail }) => Some(detail@),
        _ => None,
    }
}

/// The message of the walk's own failure, for an archive with more entries
/// than a step's index can count.
pub open spec fn count_limit_text() -> Seq<char> {
    "archive holds more entries than can be counted"@
}

/// The stream that the tar reader is given for an archive of `format` held
/// in `bytes`: what the format's decoder gives, or the bytes themselves.
pub open spec fn tar_stream(format: ArchiveFormat, bytes: Seq<u8>) -> Stream {
    match format {
        ArchiveFormat::GzipTar => gzip_stream(bytes),
        ArchiveFormat::XzTar => xz_stream(bytes),
        ArchiveFormat::Bzip2Tar => bzip2_stream(bytes),
        _ => Stream { bytes, failure: None },
    }
}

/// What the text of an optional message is.
pub open spec fn text_of(message: Option<String>) -> Option<Seq<char>> {
    match message {
        Some(text) => Some(text@),
        None => None,
    }
}

/// The failure that carries a reader's own message.
pub fn malformed(detail: String) -> (error: ExtractError)
    ensures
        error == (ExtractError::Malformed { detail }),
{
    ExtractError::Malformed { detail }
}

/// Puts the decoder of `format` over the bytes: gzip, xz or bzip2 for the
/// compressed tar formats, and the bytes as they are for every other.
pub fn byte_source(format: ArchiveFormat, bytes: &[u8]) -> (source: ByteSource)
    ensures
        stream_of(source) == tar_stream(format, bytes@),
{
    match format {
        ArchiveFormat::GzipTar => gzip_source(bytes),
        ArchiveFormat::XzTar => xz_source(bytes),
        ArchiveFormat::Bzip2Tar => bzip2_source(bytes),
        _ => plain_source(bytes),
    }
}

/// Opens the tar reader over a stream. Nothing is read yet.
pub fn tar_reader(source: ByteSource) -> (archive: TarArchive)
    ensures
        archive_listing(archive) == tar_listing(stream_of(source)),
{
    tar_archive(source)
}

/// What the next call of a walk owes.
pub enum Owed<R> {
    /// A step, planned from this record.
    Step(R),
    /// The failure with this message; the walk is over.
    Failure(Seq<char>),
    /// Nothing: the walk is over.
    End,
}

/// A walk over the entries of a tar archive, one step at a time.
pub struct TarWalk<'a, 'r: 'a> {
    /// The cursor over the entries.
    pub entries: TarEntries<'a, 'r>,
    /// How many steps were handed out.
    pub count: u64,
    /// The message of a failure that is owed at the next call: the data of
    /// the last step ended in it.
    pub pending: Option<String>,
    /// Whether the walk is over.
    pub ended: bool,
}

/// A `TarWalk` as a mathematical value.
pub struct TarWalkView {
    /// What the cursor has ahead.
    pub ahead: TarListing,
    pub count: u64,
    pub pending: Option<Seq<char>>,
    pub ended: bool,
}

impl<'a, 'r: 'a> View for TarWalk<'a, 'r> {
    type V = TarWalkView;

    open spec fn view(&self) -> TarWalkView {
        TarWalkView {
            ahead: entries_ahead(self.entries),
            count: self.count,
            pending: text_of(self.pending),
            ended: self.ended,
        }
    }
}

/// What the next call of a tar walk owes: nothing when the walk is over; the
/// pending failure, if there is one; at the end of the entries, the cursor's
/// failure or nothing; else the failure of a record without a path, the
/// failure of the count at its limit, or the step of the first record ahead.
pub open spec fn tar_owed(walk: TarWalkView) -> Owed<TarRecord> {
    if walk.ended {
        Owed::End
    } else if walk.pending is Some {
        Owed::Failure(walk.pending->0)
    } else if walk.ahead.records.len() == 0 {
        match walk.ahead.failure {
            Some(text) => Owed::Failure(text),
            None => Owed::End,
        }
    } else {
        match walk.ahead.records.first().path {
            Err(text) => Owed::Failure(text),
            Ok(_) => if walk.count == u64::MAX {
                Owed::Failure(count_limit_text())
            } else {
                Owed::Step(walk.ahead.records.first())
            },
        }
    }
}

/// Begins a walk over a tar archive that has not been read. Where the reader
/// hands out no cursor, its message is the failure.
pub fn begin_tar_walk<'a, 'r>(archive: &'a mut TarArchive<'r>) -> (begun: Result<
    TarWalk<'a, 'r>,
    ExtractError,
>)
    ensures
        match begun {
            Ok(walk) => walk@ == (TarWalkView {
                ahead: archive_listing(*old(archive)),
                count: 0,
                pending: None,
                ended: false,
            }),
            Err(error) => error is Malformed && archive_listing(*old(archive)) == (TarListing {
                records: Seq::empty(),
                failure: malformed_text(Some(error)),
            }),
        },
{
    match tar_entries(archive) {
        Ok(entries) => Ok(TarWalk { entries, count: 0, pending: None, ended: false }),
        Err(text) => Err(malformed(text)),
    }
}

/// Takes one step of a tar walk: reads the next entry and plans its step for
/// the output directory. A directory entry is created as a directory; any
/// other entry is read and written as a file. Where the data ends in a
/// failure, the step carries what was read and the failure is owed at the
/// next call. A failure ends the walk, and carries the reader's message as
/// it is.
pub fn next_tar_step(walk: &mut TarWalk, output_dir: &str, quiet: bool) -> (next: Option<
    Result<Step, ExtractError>,
>)
    ensures
        match tar_owed(old(walk)@) {
            Owed::End => next is None && final(walk).ended,
            Owed::Failure(text) => next matches Some(Err(error)) && error is Malformed
                && malformed_text(Some(error)) == Some(text) && final(walk).ended,
            Owed::Step(record) => {
                &&& next matches Some(Ok(step)) && planned_from_tar(step, record)
                    && step.carries_out(old(walk).count + 1, output_dir.spec_bytes(), quiet)
                &&& final(walk).count == old(walk).count + 1
                &&& !final(walk).ended
                &&& final(walk)@.pending == (if tar_clean(record) {
                    None
                } else {
                    record.trouble
                })
                &&& tar_clean(record) ==> final(walk)@.ahead == (TarListing {
                    records: old(walk)@.ahead.records.drop_first(),
                    failure: old(walk)@.ahead.failure,
                })
            },
        },
{
    if walk.ended {
        return None;
    }
    match &walk.pending {
        Some(text) => {
            let detail = text.clone();
            walk.ended = true;
            return Some(Err(malformed(detail)));
        },
        None => {},
    }
    match next_entry(&mut walk.entries) {
        None => {
            walk.ended = true;
            None
        },
        Some(Err(text)) => {
            walk.ended = true;
            Some(Err(malformed(text)))
        },
        Some(Ok(_)) => {
            match current_path(&walk.entries) {
                Err(text) => {
                    walk.ended = true;
                    Some(Err(malformed(text)))
                },
                Ok(path) => {
                    if walk.count == u64::MAX {
                        walk.ended = true;
                        Some(
                            Err(
                                malformed(
                                    String::from_str(
                                        "archive holds more entries than can be counted",
                                    ),
                                ),
                            ),
                        )
                    } else {
                        let size = current_size(&walk.entries);
                        let kind = if current_is_directory(&walk.entries) {
                            EntryKind::Directory
                        } else {
                            EntryKind::File
                        };
                        let mode = current_mode(&walk.entries);
                        let item = ArchiveEntry { path, size, kind, mode };
                        let (data, trouble) = match kind {
                            EntryKind::Directory => (Vec::new(), None),
                            EntryKind::File => current_data(&mut walk.entries),
                        };
                        walk.count = walk.count + 1;
                        walk.pending = trouble;
                        Some(Ok(plan_entry(item, data, walk.count, output_dir, quiet)))
                    }
                },
            }
        },
    }
}

/// A walk over the entries of a zip archive, one step at a time.
pub struct ZipWalk<'r> {
    /// The open archive.
    pub archive: zip::ZipArchive<std::io::Cursor<&'r [u8]>>,
    /// The index of the next entry, which is also the number of steps that
    /// were handed out.
    pub index: usize,
    /// The message of a failure that is owed at the next call: the data of
    /// the last step ended in it.
    pub pending: Option<String>,
    /// Whether the walk is over.
    pub ended: bool,
}

/// A `ZipWalk` as a mathematical value.
pub struct ZipWalkView {
    /// The records of the archive.
    pub records: Seq<ZipRecord>,
    pub index: usize,
    pub pending: Option<Seq<char>>,
    pub ended: bool,
}

impl<'r> View for ZipWalk<'r> {
    type V = ZipWalkView;

    open spec fn view(&self) -> ZipWalkView {
        ZipWalkView {
            records: zip_listing(self.archive),
            index: self.index,
            pending: text_of(self.pending),
            ended: self.ended,
        }
    }
}

/// What the next call of a zip walk owes: nothing when the walk is over; the
/// pending failure, if there is one; nothing past the last record; else the
/// refusal of the record at the index, or its step.
pub open spec fn zip_owed(walk: ZipWalkView) -> Owed<ZipRecord> {
    if walk.ended {
        Owed::End
    } else if walk.pending is Some {
        Owed::Failure(walk.pending->0)
    } else if walk.index >= walk.records.len() {
        Owed::End
    } else {
        match walk.records[walk.index as int].refusal {
            Some(text) => Owed::Failure(text),
            None => Owed::Step(walk.records[walk.index as int]),
        }
    }
}

/// Begins a walk over the zip archive held in `bytes`. Where the reader
/// rejects the bytes, its message is the failure.
pub fn begin_zip_walk(bytes: &[u8]) -> (begun: Result<ZipWalk, ExtractError>)
    ensures
        match zip_directory(bytes@) {
            Ok(records) => begun matches Ok(walk) && walk@ == (ZipWalkView {
                records,
                index: 0,
                pending: None,
                ended: false,
            }),
            Err(text) => begun matches Err(error) && error is Malformed && malformed_text(
                Some(error),
            ) == Some(text),
        },
{
    match zip_open(bytes) {
        Ok(archive) => Ok(ZipWalk { archive, index: 0, pending: None, ended: false }),
        Err(text) => Err(malformed(text)),
    }
}

/// Takes one step of a zip walk: opens the entry at the index and plans its
/// step for the output directory. A directory entry is created as a
/// directory; any other entry is read and written as a file; no permission
/// bits are restored. Where the data ends in a failure, the step carries
/// what was read and the failure is owed at the next call. A failure ends
/// the walk, and carries the reader's message as it is.
pub fn next_zip_step(walk: &mut ZipWalk, output_dir: &str, quiet: bool) -> (next: Option<
    Result<Step, ExtractError>,
>)
    ensures
        final(walk)@.records == old(walk)@.records,
        match zip_owed(old(walk)@) {
            Owed::End => next is None && final(walk).ended,
            Owed::Failure(text) => next matches Some(Err(error)) && error is Malformed
                && malformed_text(Some(error)) == Some(text) && final(walk).ended,
            Owed::Step(record) => {
                &&& next matches Some(Ok(step)) && planned_from_zip(step, record)
                    && step.carries_out(old(walk).index + 1, output_dir.spec_bytes(), quiet)
                &&& final(walk).index == old(walk).index + 1
                &&& !final(walk).ended
                &&& final(walk)@.pending == (if zip_clean(record) {
                    None
                } else {
                    record.trouble
                })
            },
        },
{
    if walk.ended {
        return None;
    }
    match &walk.pending {
        Some(text) => {
            let detail = text.clone();
            walk.ended = true;
            return Some(Err(malformed(detail)));
        },
        None => {},
    }
    if walk.index >= zip_len(&walk.archive) {
        walk.ended = true;
        return None;
    }
    let index = walk.index;
    match zip_entry(&mut walk.archive, index) {
        Err(text) => {
            walk.ended = true;
            Some(Err(malformed(text)))
        },
        Ok(entry) => {
            let name = zip_name(&entry);
            let size = zip_size(&entry);
            let kind = if zip_is_directory(&entry) {
                EntryKind::Directory
            } else {
                EntryKind::File
            };
            let item = ArchiveEntry { path: name.as_str().as_bytes_vec(), size, kind, mode: None };
            let (data, trouble) = match kind {
                EntryKind::Directory => (Vec::new(), None),
                EntryKind::File => zip_data(entry),
            };
            walk.index = index + 1;
            walk.pending = trouble;
            Some(Ok(plan_entry(item, data, (index + 1) as u64, output_dir, quiet)))
        },
    }
}

} // verus!
