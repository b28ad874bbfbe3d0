//! Extraction of tar, compressed tar and zip archives: the format is chosen
//! from the archive's file name, the entries are walked in stored order, and
//! each one becomes a step that says what to create, where, and with which
//! bytes and permission bits.
//!
//! The library touches no file. It takes the archive as bytes in memory and
//! plans the steps; the caller carries them out. There are two ways to walk
//! an archive. `walk` takes it one entry at a time: each call reads one
//! entry and hands out its step, so the caller can write the entry before
//! the next is read, and only one entry's data is held at a time. `extract`
//! runs a walk to its end and hands back all the steps at once, with the
//! data of every entry. Either way the archive itself is held whole: its
//! bytes are not streamed from the file.

pub mod entry;
pub mod error;
pub mod extract;
pub mod format;
pub mod path;
pub mod size;
pub mod source;
pub mod tar_reader;
pub mod text;
pub mod walk;
pub mod zip_reader;
