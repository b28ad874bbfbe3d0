//! Archive entries, and the steps that materialize them under the output
//! directory.

use crate::error::ExtractError;
use crate::path::{join_path, joined};
use crate::size::{decimal, format_size, push_decimal, size_text};
use crate::text::{path_text, show_path};
use vstd::prelude::*;
use vstd::string::{StringExecFns, StringSliceAdditionalSpecFns};

verus! {

/// What an entry stands for.
#[derive(Debug, Clone, Copy, PartialEq, Eq, Structural)]
pub enum EntryKind {
    /// Anything that carries bytes: it becomes a file.
    File,
    /// A directory.
    Directory,
}

/// One item of an archive, as its reader describes it.
#[derive(Debug, PartialEq, Eq)]
pub struct ArchiveEntry {
    /// The path inside the archive, in the bytes the archive stores.
    pub path: Vec<u8>,
    /// The declared length of the entry's data.
    pub size: u64,
    /// File or directory.
    pub kind: EntryKind,
    /// The stored permission bits, where the archive has any that can be read.
    pub mode: Option<u32>,
}

/// An `ArchiveEntry` as a mathematical value.
pub struct EntryView {
    pub path: Seq<u8>,
    pub size: u64,
    pub kind: EntryKind,
    pub mode: Option<u32>,
}

impl View for ArchiveEntry {
    type V = EntryView;

    open spec fn view(&self) -> EntryView {
        EntryView { path: self.path@, size: self.size, kind: self.kind, mode: self.mode }
    }
}

/// What is done at an entry's destination, once the destination's missing
/// ancestors have been created.
#[derive(Debug, PartialEq, Eq)]
pub enum Action {
    /// Create the directory; nothing happens if it exists.
    CreateDirectory,
    /// Create or truncate the file, write `data`, then set the permission
    /// bits to `mode` if there is one. A failure to set them is a warning
    /// and does not stop the extraction.
    WriteFile { data: Vec<u8>, mode: Option<u32> },
}

/// One entry made ready to be carried out. Whoever carries a step out first
/// creates the parent directory of `destination`, with all its missing
/// ancestors, if it does not exist; then prints `progress`; then performs
/// `action`. The steps of an extraction are carried out in order, each one
/// finished before the next begins, and the first failure ends the run:
/// what was written before it stays.
#[derive(Debug, PartialEq, Eq)]
pub struct Step {
    /// The entry's position in the archive, counted from 1.
    pub index: u64,
    /// The entry that the step was planned from.
    pub entry: ArchiveEntry,
    /// The output directory joined with the entry's path.
    pub destination: Vec<u8>,
    /// What to do at the destination.
    pub action: Action,
    /// The line to print before acting; none in quiet mode.
    pub progress: Option<String>,
}

/// The number of entries that were walked.
#[derive(Debug, Clone, Copy, PartialEq, Eq, Structural)]
pub struct ExtractionSummary {
    pub count: u64,
}

/// The outcome of walking an archive: the steps in stored order, the line
/// that closes them, and the failure that ended the walk, if one did.
#[derive(Debug)]
pub struct Extraction {
    /// One step for each entry that was read, in stored order.
    pub steps: Vec<Step>,
    /// The line to print after the last step: the total, once, after a walk
    /// that did not fail and does not run quietly.
    pub closing: Option<String>,
    /// How many entries were walked.
    pub summary: ExtractionSummary,
    /// Why the walk stopped early, if it did. The steps before it stand.
    pub failure: Option<ExtractError>,
}

/// The permission bits to set on a file: the stored ones, unless there are
/// none or they are zero.
pub open spec fn restored_mode(mode: Option<u32>) -> Option<u32> {
    match mode {
        Some(bits) => if bits != 0 {
            Some(bits)
        } else {
            None
        },
        None => None,
    }
}

/// The progress line of an entry: its index in brackets and its path, and for
/// a file its size in parentheses.
pub open spec fn progress_text(index: nat, entry: EntryView) -> Seq<char> {
    let head = seq!['['] + decimal(index) + seq![']', ' '] + path_text(entry.path);
    match entry.kind {
        EntryKind::Directory => head,
        EntryKind::File => head + seq![' ', '('] + size_text(entry.size as nat) + seq![')'],
    }
}

/// The line that reports how many entries were walked.
pub open spec fn total_text(count: nat) -> Seq<char> {
    "Total files: "@ + decimal(count)
}

impl Step {
    /// Whether the step does to its own entry what extraction asks for, as
    /// the entry numbered `index` under the output directory `base`: the
    /// destination is the directory joined with the entry's path; a directory
    /// entry is created as a directory, anything else written as a file with
    /// the stored mode restored when it is not zero; and the progress line is
    /// there unless `quiet`.
    pub open spec fn carries_out(self, index: int, base: Seq<u8>, quiet: bool) -> bool {
        &&& self.index == index
        &&& self.destination@ == joined(base, self.entry.path@)
        &&& match self.entry.kind {
            EntryKind::Directory => self.action is CreateDirectory,
            EntryKind::File => self.action matches Action::WriteFile { data, mode } && mode
                == restored_mode(self.entry.mode),
        }
        &&& match self.progress {
            None => quiet,
            Some(line) => !quiet && line@ == progress_text(index as nat, self.entry@),
        }
    }
}

impl Extraction {
    /// Whether the steps are numbered from 1 in order, each carries out its
    /// own entry, and the summary counts them.
    pub open spec fn orderly(self, base: Seq<u8>, quiet: bool) -> bool {
        &&& self.summary.count == self.steps@.len()
        &&& forall|i: int|
            0 <= i < self.steps@.len() ==> (#[trigger] self.steps@[i]).carries_out(
                i + 1,
                base,
                quiet,
            )
    }

    /// The entries that the steps were planned from, in order.
    pub open spec fn entries(self) -> Seq<EntryView> {
        Seq::new(self.steps@.len(), |i: int| self.steps@[i].entry@)
    }

    /// An extraction that failed before any entry was read.
    pub fn failed(error: ExtractError) -> (outcome: Extraction)
        ensures
            outcome.steps@.len() == 0,
            outcome.summary.count == 0,
            outcome.closing is None,
            outcome.failure == Some(error),
    {
        Extraction {
            steps: Vec::new(),
            closing: None,
            summary: ExtractionSummary { count: 0 },
            failure: Some(error),
        }
    }
}

/// Renders the progress line of the entry numbered `index`.
pub fn progress_line(index: u64, entry: &ArchiveEntry) -> (line: String)
    ensures
        line@ == progress_text(index as nat, entry@),
{
    let mut line = String::from_str("[");
    push_decimal(&mut line, index as u128);
    line.append("] ");
    let shown = show_path(entry.path.as_slice());
    line.append(shown.as_str());
    proof {
        reveal_strlit("[");
        reveal_strlit("] ");
        assert("["@ =~= seq!['[']);
        assert("] "@ =~= seq![']', ' ']);
    }
    match entry.kind {
        EntryKind::Directory => {},
        EntryKind::File => {
            line.append(" (");
            let size = format_size(entry.size);
            line.append(size.as_str());
            line.append(")");
            proof {
                reveal_strlit(" (");
                reveal_strlit(")");
                assert(" ("@ =~= seq![' ', '(']);
                assert(")"@ =~= seq![')']);
            }
        },
    }
    line
}

/// Renders the line that reports `count` entries.
pub fn total_line(count: u64) -> (line: String)
    ensures
        line@ == total_text(count as nat),
{
    let mut line = String::from_str("Total files: ");
    push_decimal(&mut line, count as u128);
    line
}

/// The lines that introduce an archive before it is extracted: none in quiet
/// mode, else its name and its size.
pub fn archive_banner(file_path: &str, file_size: u64, quiet: bool) -> (lines: Vec<String>)
    ensures
        quiet ==> lines@.len() == 0,
        !quiet ==> lines@.len() == 2 && lines@[0]@ == "Archive: "@ + file_path@ && lines@[1]@
            == "Size: "@ + size_text(file_size as nat),
{
    let mut lines: Vec<String> = Vec::new();
    if !quiet {
        lines.push(String::from_str("Archive: ").concat(file_path));
        let size = format_size(file_size);
        lines.push(String::from_str("Size: ").concat(size.as_str()));
    }
    lines
}

/// Plans the step for one entry: where it goes under `output_dir`, what is
/// created there, which permission bits are restored, and the progress line.
/// `data` is what was read of the entry's content; a directory has no use for it.
pub fn plan_entry(
    entry: ArchiveEntry,
    data: Vec<u8>,
    index: u64,
    output_dir: &str,
    quiet: bool,
) -> (step: Step)
    ensures
        step.entry == entry,
        step.carries_out(index as int, output_dir.spec_bytes(), quiet),
        step.action matches Action::WriteFile { data: written, mode } ==> written == data,
{
    let destination = join_path(output_dir.as_bytes(), entry.path.as_slice());
    let progress = if quiet {
        None
    } else {
        Some(progress_line(index, &entry))
    };
    let action = match entry.kind {
        EntryKind::Directory => Action::CreateDirectory,
        EntryKind::File => {
            let mode = match entry.mode {
                Some(bits) => if bits != 0 {
                    Some(bits)
                } else {
                    None
                },
                None => None,
            };
            Action::WriteFile { data, mode }
        },
    };
    Step { index, entry, destination, action, progress }
}

/// In an orderly extraction every directory entry has its own step, which
/// creates a directory at the output directory joined with the entry's path,
/// whether or not any file entry lies under it.
pub proof fn lemma_directory_entry_creates_directory(
    outcome: Extraction,
    base: Seq<u8>,
    quiet: bool,
    i: int,
)
    requires
        outcome.orderly(base, quiet),
        0 <= i < outcome.steps@.len(),
        outcome.steps@[i].entry.kind == EntryKind::Directory,
    ensures
        outcome.steps@[i].action is CreateDirectory,
        outcome.steps@[i].destination@ == joined(base, outcome.steps@[i].entry.path@),
{
    assert(outcome.steps@[i].carries_out(i + 1, base, quiet));
}

/// In an orderly extraction a file entry that stores permission bits other
/// than zero has exactly those bits restored on its destination, and a file
/// entry that stores none, or zero, has none restored.
pub proof fn lemma_file_entry_restores_mode(
    outcome: Extraction,
    base: Seq<u8>,
    quiet: bool,
    i: int,
)
    requires
        outcome.orderly(base, quiet),
        0 <= i < outcome.steps@.len(),
        outcome.steps@[i].entry.kind == EntryKind::File,
    ensures
        outcome.steps@[i].action is WriteFile,
        outcome.steps@[i].destination@ == joined(base, outcome.steps@[i].entry.path@),
        match outcome.steps@[i].entry.mode {
            Some(bits) => outcome.steps@[i].action->mode == (if bits != 0 {
                Some(bits)
            } else {
                None
            }),
            None => outcome.steps@[i].action->mode is None,
        },
{
    assert(outcome.steps@[i].carries_out(i + 1, base, quiet));
}

/// In an orderly extraction the steps are numbered 1, 2, 3, ... in order, and
/// the summary counts them.
pub proof fn lemma_steps_are_numbered_in_order(outcome: Extraction, base: Seq<u8>, quiet: bool)
    requires
        outcome.orderly(base, quiet),
    ensures
        outcome.summary.count == outcome.steps@.len(),
        forall|i: int| 0 <= i < outcome.steps@.len() ==> (#[trigger] outcome.steps@[i]).index == i + 1,
{
    assert forall|i: int| 0 <= i < outcome.steps@.len() implies (#[trigger] outcome.steps@[i]).index
        == i + 1 by {
        assert(outcome.steps@[i].carries_out(i + 1, base, quiet));
    }
}

/// A step that carries out its entry under the next index keeps the steps in
/// order: if each of `before` carries out its entry under its index, so does
/// each of `before` with `step` added.
pub proof fn lemma_next_step_keeps_order(before: Seq<Step>, step: Step, base: Seq<u8>, quiet: bool)
    requires
        forall|i: int| 0 <= i < before.len() ==> (#[trigger] before[i]).carries_out(i + 1, base, quiet),
        step.carries_out(before.len() as int + 1, base, quiet),
    ensures
        forall|i: int|
            0 <= i < before.len() + 1 ==> (#[trigger] before.push(step)[i]).carries_out(
                i + 1,
                base,
                quiet,
            ),
{
    assert forall|i: int| 0 <= i < before.len() + 1 implies (#[trigger] before.push(
        step,
    )[i]).carries_out(i + 1, base, quiet) by {
        if i < before.len() {
            assert(before.push(step)[i] == before[i]);
        }
    }
}

} // verus!
