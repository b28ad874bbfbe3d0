//! Choosing the archive format from the file name.

use crate::error::ExtractError;
use vstd::prelude::*;
use vstd::string::StrSliceExecFns;

verus! {

/// The container and compression that an archive's name announces.
#[derive(Debug, Clone, Copy, PartialEq, Eq, Structural)]
pub enum ArchiveFormat {
    /// An uncompressed tar stream.
    PlainTar,
    /// A tar stream inside gzip.
    GzipTar,
    /// A tar stream inside xz.
    XzTar,
    /// A tar stream inside bzip2.
    Bzip2Tar,
    /// A zip container.
    Zip,
}

/// `c` with an ASCII capital letter turned into its small letter.
pub open spec fn ascii_lower(c: char) -> char {
    if 'A' <= c && c <= 'Z' {
        ((c as u32) + 32) as char
    } else {
        c
    }
}

/// `name` with every ASCII capital letter turned into its small letter.
pub open spec fn lowered(name: Seq<char>) -> Seq<char> {
    Seq::new(name.len(), |i: int| ascii_lower(name[i]))
}

/// Whether `text` ends with `suffix`.
pub open spec fn ends_with(text: Seq<char>, suffix: Seq<char>) -> bool {
    suffix.len() <= text.len() && text.subrange(text.len() - suffix.len(), text.len() as int)
        == suffix
}

/// The format that `name` announces, if any: the extensions are matched
/// without regard to ASCII case, the compressed tar extensions before `.zip`,
/// and plain `.tar` last.
pub open spec fn format_of(name: Seq<char>) -> Option<ArchiveFormat> {
    let folded = lowered(name);
    if ends_with(folded, ".tar.gz"@) || ends_with(folded, ".tgz"@) {
        Some(ArchiveFormat::GzipTar)
    } else if ends_with(folded, ".tar.xz"@) {
        Some(ArchiveFormat::XzTar)
    } else if ends_with(folded, ".tar.bz2"@) {
        Some(ArchiveFormat::Bzip2Tar)
    } else if ends_with(folded, ".zip"@) {
        Some(ArchiveFormat::Zip)
    } else if ends_with(folded, ".tar"@) {
        Some(ArchiveFormat::PlainTar)
    } else {
        None
    }
}

/// Whether `c`, folded to lower case, is `wanted`.
fn folds_to(c: char, wanted: char) -> (same: bool)
    ensures
        same == (ascii_lower(c) == wanted),
{
    let code: u32 = if c >= 'A' && c <= 'Z' {
        (c as u32) + 32
    } else {
        c as u32
    };
    code == wanted as u32
}

/// Whether `name`, folded to lower case, ends with `suffix`.
fn has_extension(name: &str, suffix: &str) -> (found: bool)
    ensures
        found == ends_with(lowered(name@), suffix@),
{
    let name_len = name.unicode_len();
    let suffix_len = suffix.unicode_len();
    if name_len < suffix_len {
        return false;
    }
    let start = name_len - suffix_len;
    let ghost tail = lowered(name@).subrange(start as int, name_len as int);
    let mut i: usize = 0;
    while i < suffix_len
        invariant
            name_len == name@.len(),
            suffix_len == suffix@.len(),
            start + suffix_len == name_len,
            i <= suffix_len,
            tail == lowered(name@).subrange(start as int, name_len as int),
            forall|j: int| 0 <= j < i ==> tail[j] == suffix@[j],
        decreases suffix_len - i,
    {
        let c = name.get_char(start + i);
        let wanted = suffix.get_char(i);
        if !folds_to(c, wanted) {
            assert(tail[i as int] != suffix@[i as int]);
            return false;
        }
        i = i + 1;
    }
    assert(tail =~= suffix@);
    true
}

/// Chooses the format from the archive's file name, or fails with
/// `UnsupportedFormat` when the name ends in none of the known extensions.
pub fn select_format(name: &str) -> (choice: Result<ArchiveFormat, ExtractError>)
    ensures
        match format_of(name@) {
            Some(format) => choice == Ok::<ArchiveFormat, ExtractError>(format),
            None => choice is Err && choice->Err_0 is UnsupportedFormat,
        },
{
    if has_extension(name, ".tar.gz") || has_extension(name, ".tgz") {
        Ok(ArchiveFormat::GzipTar)
    } else if has_extension(name, ".tar.xz") {
        Ok(ArchiveFormat::XzTar)
    } else if has_extension(name, ".tar.bz2") {
        Ok(ArchiveFormat::Bzip2Tar)
    } else if has_extension(name, ".zip") {
        Ok(ArchiveFormat::Zip)
    } else if has_extension(name, ".tar") {
        Ok(ArchiveFormat::PlainTar)
    } else {
        Err(ExtractError::UnsupportedFormat)
    }
}

/// A text that ends with `suffix` holds the suffix's characters at its end.
proof fn lemma_suffix_chars(text: Seq<char>, suffix: Seq<char>, i: int)
    requires
        ends_with(text, suffix),
        0 <= i < suffix.len(),
    ensures
        text[text.len() - suffix.len() + i] == suffix[i],
{
    let tail = text.subrange(text.len() - suffix.len(), text.len() as int);
    assert(tail[i] == text[text.len() - suffix.len() + i]);
}

/// Every known extension decides the format, whatever stands before it and
/// in whatever ASCII case it is written; a name that ends in none of them has
/// no format.
pub proof fn lemma_extension_decides_format(name: Seq<char>)
    ensures
        ends_with(lowered(name), ".tar.gz"@) ==> format_of(name) == Some(ArchiveFormat::GzipTar),
        ends_with(lowered(name), ".tgz"@) ==> format_of(name) == Some(ArchiveFormat::GzipTar),
        ends_with(lowered(name), ".tar.xz"@) ==> format_of(name) == Some(ArchiveFormat::XzTar),
        ends_with(lowered(name), ".tar.bz2"@) ==> format_of(name) == Some(
            ArchiveFormat::Bzip2Tar,
        ),
        ends_with(lowered(name), ".zip"@) ==> format_of(name) == Some(ArchiveFormat::Zip),
        ends_with(lowered(name), ".tar"@) ==> format_of(name) == Some(ArchiveFormat::PlainTar),
        format_of(name) is None <==> !(ends_with(lowered(name), ".tar.gz"@) || ends_with(
            lowered(name),
            ".tgz"@,
        ) || ends_with(lowered(name), ".tar.xz"@) || ends_with(lowered(name), ".tar.bz2"@)
            || ends_with(lowered(name), ".zip"@) || ends_with(lowered(name), ".tar"@)),
{
    let folded = lowered(name);
    reveal_strlit(".tar.gz");
    reveal_strlit(".tgz");
    reveal_strlit(".tar.xz");
    reveal_strlit(".tar.bz2");
    reveal_strlit(".zip");
    reveal_strlit(".tar");
    if ends_with(folded, ".tar.gz"@) {
        lemma_suffix_chars(folded, ".tar.gz"@, 5);
    }
    if ends_with(folded, ".tgz"@) {
        lemma_suffix_chars(folded, ".tgz"@, 2);
        lemma_suffix_chars(folded, ".tgz"@, 3);
    }
    if ends_with(folded, ".tar.xz"@) {
        lemma_suffix_chars(folded, ".tar.xz"@, 5);
        lemma_suffix_chars(folded, ".tar.xz"@, 6);
    }
    if ends_with(folded, ".tar.bz2"@) {
        lemma_suffix_chars(folded, ".tar.bz2"@, 7);
    }
    if ends_with(folded, ".zip"@) {
        lemma_suffix_chars(folded, ".zip"@, 3);
    }
    if ends_with(folded, ".tar"@) {
        lemma_suffix_chars(folded, ".tar"@, 3);
    }
    if ends_with(folded, ".tar.gz"@) {
        lemma_suffix_chars(folded, ".tar.gz"@, 6);
    }
}

/// The format does not depend on the ASCII case of the name.
pub proof fn lemma_format_ignores_case(name: Seq<char>)
    ensures
        format_of(lowered(name)) == format_of(name),
{
    assert forall|i: int| 0 <= i < name.len() implies ascii_lower(#[trigger] lowered(name)[i])
        == lowered(name)[i] by {
        let c = name[i];
        if 'A' <= c && c <= 'Z' {
            assert(((c as u32) + 32) as char as u32 == (c as u32) + 32);
        }
    }
    assert(lowered(lowered(name)) =~= lowered(name));
}

} // verus!
