//! Extracting a whole archive: the format is chosen from the name, the bytes
//! are decoded, and every entry becomes a step, in stored order.
//!
//! These functions run a walk to its end and hand back all of its steps at
//! once, so the outcome holds the data of every entry that was walked. A
//! caller that must write each entry before the next is read takes the walk
//! one step at a time instead.

use crate::entry::{
    lemma_next_step_keeps_order, total_line, total_text, Action, Extraction, ExtractionSummary,
    Step,
};
use crate::error::ExtractError;
use crate::format::{format_of, select_format, ArchiveFormat};
use crate::source::{bzip2_stream, gzip_stream, stream_of, xz_stream, ByteSource, Stream};
use crate::tar_reader::{tar_listing, TarListing, TarRecord};
use crate::walk::{
    begin_tar_walk, begin_zip_walk, byte_source, count_limit_text, malformed_text,
    next_tar_step, next_zip_step, planned_from_tar, planned_from_zip, tar_clean, tar_reader,
    tar_stream, zip_clean, zip_entry_view, TarWalk, ZipWalk,
};
use crate::zip_reader::{zip_directory, ZipRecord};
use vstd::prelude::*;
use vstd::string::StringSliceAdditionalSpecFns;

verus! {

/// Whether the steps were planned, one for one and in order, from the first
/// tar records.
pub open spec fn follows_tar(steps: Seq<Step>, records: Seq<TarRecord>) -> bool {
    &&& steps.len() <= records.len()
    &&& forall|i: int| 0 <= i < steps.len() ==> planned_from_tar(#[trigger] steps[i], records[i])
}

/// Whether the steps were planned, one for one and in order, from the first
/// zip records.
pub open spec fn follows_zip(steps: Seq<Step>, records: Seq<ZipRecord>) -> bool {
    &&& steps.len() <= records.len()
    &&& forall|i: int| 0 <= i < steps.len() ==> planned_from_zip(#[trigger] steps[i], records[i])
}

/// The message that a tar walk owes when it ends after `count` steps, or
/// none where it owes success: the trouble of the last file, if its data
/// failed; else the message of the record that has no path, if the walk
/// stopped before one; else the cursor's own failure, if it has one.
pub open spec fn tar_stop_text(count: int, listing: TarListing) -> Option<Seq<char>> {
    let records = listing.records;
    if count > 0 && !tar_clean(records[count - 1]) {
        records[count - 1].trouble
    } else if count < records.len() {
        match records[count].path {
            Err(text) => Some(text),
            Ok(_) => Some(count_limit_text()),
        }
    } else {
        listing.failure
    }
}

/// The message that a zip walk owes when it ends after `count` steps, or
/// none where it owes success: the trouble of the last file, if its data
/// failed; else the refusal of the record that did not open, if the walk
/// stopped before one.
pub open spec fn zip_stop_text(count: int, records: Seq<ZipRecord>) -> Option<Seq<char>> {
    if count > 0 && !zip_clean(records[count - 1]) {
        records[count - 1].trouble
    } else if count < records.len() {
        records[count].refusal
    } else {
        None
    }
}

/// Whether a tar walk of `count` steps ended where it had to, and with the
/// failure it had to. The walk goes on while the records are clean. It stops
/// short only before a record without a path, after a file whose data
/// failed, or at the largest count. It fails exactly when `tar_stop_text`
/// has a message, and the failure carries that message as it is.
pub open spec fn tar_walk_ends(
    count: int,
    failure: Option<ExtractError>,
    listing: TarListing,
) -> bool {
    let records = listing.records;
    &&& forall|i: int| 0 <= i < count - 1 ==> tar_clean(#[trigger] records[i])
    &&& count < records.len() ==> {
        ||| records[count].path is Err
        ||| count > 0 && !tar_clean(records[count - 1])
        ||| count == u64::MAX
    }
    &&& failure is Some ==> failure->0 is Malformed
    &&& malformed_text(failure) == tar_stop_text(count, listing)
}

/// Whether a zip walk of `count` steps ended where it had to, and with the
/// failure it had to. The walk goes on while the records are clean. It stops
/// short only before a record that does not open, or after a file whose data
/// failed. It fails exactly when `zip_stop_text` has a message, and the
/// failure carries that message as it is.
pub open spec fn zip_walk_ends(
    count: int,
    failure: Option<ExtractError>,
    records: Seq<ZipRecord>,
) -> bool {
    &&& forall|i: int| 0 <= i < count - 1 ==> zip_clean(#[trigger] records[i])
    &&& count < records.len() ==> {
        ||| records[count].refusal is Some
        ||| count > 0 && !zip_clean(records[count - 1])
    }
    &&& failure is Some ==> failure->0 is Malformed
    &&& malformed_text(failure) == zip_stop_text(count, records)
}

/// Whether the closing line is as it should be: the total of the entries
/// walked, unless the walk failed or runs quietly.
pub open spec fn closes_with_total(outcome: Extraction, quiet: bool) -> bool {
    match outcome.closing {
        None => quiet || outcome.failure is Some,
        Some(line) => !quiet && outcome.failure is None && line@ == total_text(
            outcome.summary.count as nat,
        ),
    }
}

/// Whether `outcome` is the walk of a tar archive with the given listing for
/// the output directory `base`: one step for each record that the walk
/// reaches, in order, each carrying out its own entry; the walk ends and
/// fails as `tar_walk_ends` says; and the total closes a walk that did not
/// fail.
pub open spec fn walks_tar(
    outcome: Extraction,
    listing: TarListing,
    base: Seq<u8>,
    quiet: bool,
) -> bool {
    &&& outcome.orderly(base, quiet)
    &&& follows_tar(outcome.steps@, listing.records)
    &&& tar_walk_ends(outcome.steps@.len() as int, outcome.failure, listing)
    &&& closes_with_total(outcome, quiet)
}

/// Whether `outcome` is the walk of a zip archive with the given records for
/// the output directory `base`: one step for each record that the walk
/// reaches, in order, each carrying out its own entry; the walk ends and
/// fails as `zip_walk_ends` says; and the total closes a walk that did not
/// fail.
pub open spec fn walks_zip(
    outcome: Extraction,
    records: Seq<ZipRecord>,
    base: Seq<u8>,
    quiet: bool,
) -> bool {
    &&& outcome.orderly(base, quiet)
    &&& follows_zip(outcome.steps@, records)
    &&& zip_walk_ends(outcome.steps@.len() as int, outcome.failure, records)
    &&& closes_with_total(outcome, quiet)
}

/// Whether `outcome` has no step and no line, and the given failure: an
/// unsupported format where `text` is none, else a reader's failure with
/// that message.
pub open spec fn refused(outcome: Extraction, text: Option<Seq<char>>) -> bool {
    &&& outcome.steps@.len() == 0
    &&& outcome.summary.count == 0
    &&& outcome.closing is None
    &&& outcome.failure is Some
    &&& match text {
        None => outcome.failure->0 is UnsupportedFormat,
        Some(message) => outcome.failure->0 is Malformed && malformed_text(outcome.failure)
            == Some(message),
    }
}

/// What extraction owes for an archive named `name` and held in `bytes`: a
/// name without a known extension is refused as unsupported before any byte
/// is read; a zip archive is walked by its records, or refused with the
/// reader's message if the reader rejects it; every other archive is walked
/// as the tar stream that its format decodes.
pub open spec fn extracts(
    outcome: Extraction,
    name: Seq<char>,
    bytes: Seq<u8>,
    base: Seq<u8>,
    quiet: bool,
) -> bool {
    match format_of(name) {
        None => refused(outcome, None),
        Some(ArchiveFormat::Zip) => match zip_directory(bytes) {
            Ok(records) => walks_zip(outcome, records, base, quiet),
            Err(text) => refused(outcome, Some(text)),
        },
        Some(format) => walks_tar(outcome, tar_listing(tar_stream(format, bytes)), base, quiet),
    }
}

/// Runs a tar walk from its start to its end and gathers its steps. The
/// total is reported once, after a walk that did not fail.
fn walk_tar_entries(walk: TarWalk, output_dir: &str, quiet: bool) -> (outcome: Extraction)
    requires
        walk.count == 0,
        walk.pending is None,
        !walk.ended,
    ensures
        walks_tar(outcome, walk@.ahead, output_dir.spec_bytes(), quiet),
{
    let ghost all = walk@.ahead;
    let ghost base = output_dir.spec_bytes();
    let mut walk = walk;
    let mut steps: Vec<Step> = Vec::new();
    let mut failure: Option<ExtractError> = None;
    let mut finished = false;
    assert(all.records.skip(0) =~= all.records);
    while !finished
        invariant
            follows_tar(steps@, all.records),
            forall|i: int|
                0 <= i < steps@.len() ==> (#[trigger] steps@[i]).carries_out(i + 1, base, quiet),
            forall|i: int| 0 <= i < steps@.len() - 1 ==> tar_clean(#[trigger] all.records[i]),
            !finished ==> !walk.ended && failure is None && walk.count == steps@.len(),
            !finished && walk@.pending is None ==> walk@.ahead == (TarListing {
                records: all.records.skip(steps@.len() as int),
                failure: all.failure,
            }) && (steps@.len() > 0 ==> tar_clean(all.records[steps@.len() - 1])),
            !finished && walk@.pending is Some ==> steps@.len() > 0 && !tar_clean(
                all.records[steps@.len() - 1],
            ) && walk@.pending == all.records[steps@.len() - 1].trouble,
            finished ==> tar_walk_ends(steps@.len() as int, failure, all),
            base == output_dir.spec_bytes(),
        decreases
                if finished {
                    0
                } else if walk@.pending is Some {
                    1
                } else {
                    2 + walk@.ahead.records.len()
                },
    {
        let ghost before = steps@;
        let ghost reached = steps@.len() as int;
        proof {
            if walk@.pending is None && reached < all.records.len() {
                assert(all.records.skip(reached).first() == all.records[reached]);
                assert(all.records.skip(reached).drop_first() =~= all.records.skip(reached + 1));
            }
        }
        match next_tar_step(&mut walk, output_dir, quiet) {
            None => {
                finished = true;
            },
            Some(Err(error)) => {
                failure = Some(error);
                finished = true;
            },
            Some(Ok(step)) => {
                steps.push(step);
                proof {
                    lemma_next_step_keeps_order(before, step, base, quiet);
                    assert forall|i: int| 0 <= i < steps@.len() implies planned_from_tar(
                        #[trigger] steps@[i],
                        all.records[i],
                    ) by {
                        if i < before.len() {
                            assert(steps@[i] == before[i]);
                        }
                    }
                }
            },
        }
    }
    let count = steps.len() as u64;
    let closing = if quiet || failure.is_some() {
        None
    } else {
        Some(total_line(count))
    };
    Extraction { steps, closing, summary: ExtractionSummary { count }, failure }
}

/// Runs a zip walk from its start to its end and gathers its steps. The
/// total is reported once, after a walk that did not fail.
fn walk_zip_entries(walk: ZipWalk, output_dir: &str, quiet: bool) -> (outcome: Extraction)
    requires
        walk.index == 0,
        walk.pending is None,
        !walk.ended,
    ensures
        walks_zip(outcome, walk@.records, output_dir.spec_bytes(), quiet),
{
    let ghost all = walk@.records;
    let ghost base = output_dir.spec_bytes();
    let mut walk = walk;
    let mut steps: Vec<Step> = Vec::new();
    let mut failure: Option<ExtractError> = None;
    let mut finished = false;
    while !finished
        invariant
            walk@.records == all,
            follows_zip(steps@, all),
            forall|i: int|
                0 <= i < steps@.len() ==> (#[trigger] steps@[i]).carries_out(i + 1, base, quiet),
            forall|i: int| 0 <= i < steps@.len() - 1 ==> zip_clean(#[trigger] all[i]),
            !finished ==> !walk.ended && failure is None && walk.index == steps@.len(),
            !finished && walk@.pending is None ==> (steps@.len() > 0 ==> zip_clean(
                all[steps@.len() - 1],
            )),
            !finished && walk@.pending is Some ==> steps@.len() > 0 && !zip_clean(
                all[steps@.len() - 1],
            ) && walk@.pending == all[steps@.len() - 1].trouble,
            finished ==> zip_walk_ends(steps@.len() as int, failure, all),
            base == output_dir.spec_bytes(),
        decreases
                if finished {
                    0
                } else if walk@.pending is Some {
                    1
                } else {
                    2 + all.len() - steps@.len()
                },
    {
        let ghost before = steps@;
        match next_zip_step(&mut walk, output_dir, quiet) {
            None => {
                finished = true;
            },
            Some(Err(error)) => {
                failure = Some(error);
                finished = true;
            },
            Some(Ok(step)) => {
                steps.push(step);
                proof {
                    lemma_next_step_keeps_order(before, step, base, quiet);
                    assert forall|i: int| 0 <= i < steps@.len() implies planned_from_zip(
                        #[trigger] steps@[i],
                        all[i],
                    ) by {
                        if i < before.len() {
                            assert(steps@[i] == before[i]);
                        }
                    }
                }
            },
        }
    }
    let count = steps.len() as u64;
    let closing = if quiet || failure.is_some() {
        None
    } else {
        Some(total_line(count))
    };
    Extraction { steps, closing, summary: ExtractionSummary { count }, failure }
}

/// Extracts a tar stream: opens the tar reader over `source` and walks its
/// entries to the end.
pub fn extract_tar_reader(source: ByteSource, output_dir: &str, quiet: bool) -> (outcome:
    Extraction)
    ensures
        walks_tar(outcome, tar_listing(stream_of(source)), output_dir.spec_bytes(), quiet),
{
    let mut archive = tar_reader(source);
    match begin_tar_walk(&mut archive) {
        Err(error) => Extraction::failed(error),
        Ok(walk) => walk_tar_entries(walk, output_dir, quiet),
    }
}

/// Extracts a plain tar archive held in `bytes`.
pub fn extract_tar(bytes: &[u8], output_dir: &str, quiet: bool) -> (outcome: Extraction)
    ensures
        walks_tar(
            outcome,
            tar_listing(Stream { bytes: bytes@, failure: None }),
            output_dir.spec_bytes(),
            quiet,
        ),
{
    extract_tar_reader(byte_source(ArchiveFormat::PlainTar, bytes), output_dir, quiet)
}

/// Extracts a gzip-compressed tar archive held in `bytes`.
pub fn extract_tar_gz(bytes: &[u8], output_dir: &str, quiet: bool) -> (outcome: Extraction)
    ensures
        walks_tar(outcome, tar_listing(gzip_stream(bytes@)), output_dir.spec_bytes(), quiet),
{
    extract_tar_reader(byte_source(ArchiveFormat::GzipTar, bytes), output_dir, quiet)
}

/// Extracts an xz-compressed tar archive held in `bytes`.
pub fn extract_tar_xz(bytes: &[u8], output_dir: &str, quiet: bool) -> (outcome: Extraction)
    ensures
        walks_tar(outcome, tar_listing(xz_stream(bytes@)), output_dir.spec_bytes(), quiet),
{
    extract_tar_reader(byte_source(ArchiveFormat::XzTar, bytes), output_dir, quiet)
}

/// Extracts a bzip2-compressed tar archive held in `bytes`.
pub fn extract_tar_bz2(bytes: &[u8], output_dir: &str, quiet: bool) -> (outcome: Extraction)
    ensures
        walks_tar(outcome, tar_listing(bzip2_stream(bytes@)), output_dir.spec_bytes(), quiet),
{
    extract_tar_reader(byte_source(ArchiveFormat::Bzip2Tar, bytes), output_dir, quiet)
}

/// Extracts a zip archive held in `bytes`: opens the reader, which needs
/// random access, and walks the entries by index to the end. Bytes that the
/// reader rejects are refused with the reader's message.
pub fn extract_zip(bytes: &[u8], output_dir: &str, quiet: bool) -> (outcome: Extraction)
    ensures
        match zip_directory(bytes@) {
            Ok(records) => walks_zip(outcome, records, output_dir.spec_bytes(), quiet),
            Err(text) => refused(outcome, Some(text)),
        },
{
    match begin_zip_walk(bytes) {
        Err(error) => Extraction::failed(error),
        Ok(walk) => walk_zip_entries(walk, output_dir, quiet),
    }
}

/// Extracts the archive named `file_path` and held in `bytes` for the output
/// directory `output_dir`. The format is chosen from the name alone; a name
/// with none of the known extensions fails with `UnsupportedFormat` before
/// any byte is looked at, and no other failure is of that kind.
///
/// The whole archive is taken as bytes, and the outcome holds the data of
/// every entry at once; the steps are for the caller to carry out, in order.
/// The walks of `crate::walk` hand out the same steps one at a time.
pub fn extract_archive(file_path: &str, bytes: &[u8], output_dir: &str, quiet: bool) -> (outcome:
    Extraction)
    ensures
        extracts(outcome, file_path@, bytes@, output_dir.spec_bytes(), quiet),
{
    match select_format(file_path) {
        Err(error) => Extraction::failed(error),
        Ok(ArchiveFormat::GzipTar) => extract_tar_gz(bytes, output_dir, quiet),
        Ok(ArchiveFormat::XzTar) => extract_tar_xz(bytes, output_dir, quiet),
        Ok(ArchiveFormat::Bzip2Tar) => extract_tar_bz2(bytes, output_dir, quiet),
        Ok(ArchiveFormat::Zip) => extract_zip(bytes, output_dir, quiet),
        Ok(ArchiveFormat::PlainTar) => extract_tar(bytes, output_dir, quiet),
    }
}

/// Only a name without a known extension is refused as unsupported: under
/// `extracts` the failure is `UnsupportedFormat` exactly when the name
/// announces no format, and then nothing else is done.
pub proof fn lemma_unsupported_exactly_without_extension(
    outcome: Extraction,
    name: Seq<char>,
    bytes: Seq<u8>,
    base: Seq<u8>,
    quiet: bool,
)
    requires
        extracts(outcome, name, bytes, base, quiet),
    ensures
        format_of(name) is None <==> outcome.failure is Some && outcome.failure->0
            is UnsupportedFormat,
        format_of(name) is None ==> outcome.steps@.len() == 0,
{
}

/// A tar archive without a flaw is extracted whole: if every record is clean,
/// the cursor ends without a failure, and the records can be counted, the
/// walk does not fail and has a step for each record.
pub proof fn lemma_clean_tar_is_extracted_whole(
    outcome: Extraction,
    listing: TarListing,
    base: Seq<u8>,
    quiet: bool,
)
    requires
        walks_tar(outcome, listing, base, quiet),
        forall|i: int| 0 <= i < listing.records.len() ==> tar_clean(#[trigger] listing.records[i]),
        listing.failure is None,
        listing.records.len() < u64::MAX,
    ensures
        outcome.failure is None,
        outcome.steps@.len() == listing.records.len(),
{
    let count = outcome.steps@.len() as int;
    if count < listing.records.len() {
        assert(tar_clean(listing.records[count]));
    }
    if count > 0 {
        assert(tar_clean(listing.records[count - 1]));
    }
}

/// A zip archive without a flaw is extracted whole: if every record is
/// clean, the walk does not fail and has a step for each record.
pub proof fn lemma_clean_zip_is_extracted_whole(
    outcome: Extraction,
    records: Seq<ZipRecord>,
    base: Seq<u8>,
    quiet: bool,
)
    requires
        walks_zip(outcome, records, base, quiet),
        forall|i: int| 0 <= i < records.len() ==> zip_clean(#[trigger] records[i]),
    ensures
        outcome.failure is None,
        outcome.steps@.len() == records.len(),
{
    let count = outcome.steps@.len() as int;
    if count < records.len() {
        assert(zip_clean(records[count]));
    }
    if count > 0 {
        assert(zip_clean(records[count - 1]));
    }
}

/// Whether two steps do the same work: the same index, entry and
/// destination, and the same action with the same data and mode. Only the
/// progress line may differ.
pub open spec fn same_work(first: Step, second: Step) -> bool {
    &&& first.index == second.index
    &&& first.entry@ == second.entry@
    &&& first.destination@ == second.destination@
    &&& match first.action {
        Action::CreateDirectory => second.action is CreateDirectory,
        Action::WriteFile { data, mode } => second.action matches Action::WriteFile {
            data: other_data,
            mode: other_mode,
        } && data@ == other_data@ && mode == other_mode,
    }
}

/// The walk of a tar listing is determined by the listing and the output
/// directory: any two outcomes that walk it, quietly or not, have the same
/// number of steps, each doing the same work at the same destination, and
/// fail with the same message or not at all.
pub proof fn lemma_tar_walk_is_determined(
    first: Extraction,
    second: Extraction,
    listing: TarListing,
    base: Seq<u8>,
    first_quiet: bool,
    second_quiet: bool,
)
    requires
        walks_tar(first, listing, base, first_quiet),
        walks_tar(second, listing, base, second_quiet),
    ensures
        first.steps@.len() == second.steps@.len(),
        first.failure is None <==> second.failure is None,
        malformed_text(first.failure) == malformed_text(second.failure),
        forall|i: int|
            0 <= i < first.steps@.len() ==> same_work(#[trigger] first.steps@[i], second.steps@[i]),
{
    let a = first.steps@.len() as int;
    let b = second.steps@.len() as int;
    let records = listing.records;
    if a < b {
        assert(planned_from_tar(second.steps@[a], records[a]));
        if a > 0 {
            assert(tar_clean(records[a - 1]));
        }
    }
    if b < a {
        assert(planned_from_tar(first.steps@[b], records[b]));
        if b > 0 {
            assert(tar_clean(records[b - 1]));
        }
    }
    assert forall|i: int| 0 <= i < a implies same_work(
        #[trigger] first.steps@[i],
        second.steps@[i],
    ) by {
        assert(planned_from_tar(first.steps@[i], records[i]));
        assert(planned_from_tar(second.steps@[i], records[i]));
        assert(first.steps@[i].carries_out(i + 1, base, first_quiet));
        assert(second.steps@[i].carries_out(i + 1, base, second_quiet));
    }
}

/// The walk of a zip listing is determined by the listing and the output
/// directory: any two outcomes that walk it, quietly or not, have the same
/// number of steps, each doing the same work at the same destination, and
/// fail with the same message or not at all.
pub proof fn lemma_zip_walk_is_determined(
    first: Extraction,
    second: Extraction,
    records: Seq<ZipRecord>,
    base: Seq<u8>,
    first_quiet: bool,
    second_quiet: bool,
)
    requires
        walks_zip(first, records, base, first_quiet),
        walks_zip(second, records, base, second_quiet),
    ensures
        first.steps@.len() == second.steps@.len(),
        first.failure is None <==> second.failure is None,
        malformed_text(first.failure) == malformed_text(second.failure),
        forall|i: int|
            0 <= i < first.steps@.len() ==> same_work(#[trigger] first.steps@[i], second.steps@[i]),
{
    let a = first.steps@.len() as int;
    let b = second.steps@.len() as int;
    if a < b {
        assert(planned_from_zip(second.steps@[a], records[a]));
        if a > 0 {
            assert(zip_clean(records[a - 1]));
        }
    }
    if b < a {
        assert(planned_from_zip(first.steps@[b], records[b]));
        if b > 0 {
            assert(zip_clean(records[b - 1]));
        }
    }
    assert forall|i: int| 0 <= i < a implies same_work(
        #[trigger] first.steps@[i],
        second.steps@[i],
    ) by {
        assert(planned_from_zip(first.steps@[i], records[i]));
        assert(planned_from_zip(second.steps@[i], records[i]));
        assert(first.steps@[i].carries_out(i + 1, base, first_quiet));
        assert(second.steps@[i].carries_out(i + 1, base, second_quiet));
    }
}

/// The total is reported once, after the walk, and only for a walk that did
/// not fail: a tar or zip walk that does not run quietly closes with the
/// number of its steps exactly when it did not fail.
pub proof fn lemma_total_closes_a_walk_that_did_not_fail(outcome: Extraction, quiet: bool)
    requires
        closes_with_total(outcome, quiet),
        !quiet,
    ensures
        outcome.closing is Some <==> outcome.failure is None,
        outcome.closing is Some ==> outcome.closing->0@ == total_text(outcome.summary.count as nat),
{
}

/// A zip entry is shown by its name: the progress line of a step planned
/// from a zip record holds the record's name as it is.
pub proof fn lemma_zip_entry_is_shown_by_name(record: ZipRecord)
    ensures
        crate::text::path_text(zip_entry_view(record).path) == record.name,
{
    crate::text::lemma_path_text_of_string(record.name);
}

} // verus!
