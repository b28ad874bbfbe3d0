//! Joining the output directory and an entry's internal path.

use vstd::prelude::*;

verus! {

/// The byte that separates the components of a path.
pub const SEPARATOR: u8 = 47;

/// Whether `path` starts at the root.
pub open spec fn is_absolute(path: Seq<u8>) -> bool {
    path.len() > 0 && path[0] == SEPARATOR
}

/// `base` joined with `rel`: an absolute `rel` stands alone; otherwise `rel`
/// follows `base`, with a separator between them unless `base` is empty or
/// already ends in one.
pub open spec fn joined(base: Seq<u8>, rel: Seq<u8>) -> Seq<u8> {
    if is_absolute(rel) {
        rel
    } else if base.len() > 0 && base.last() != SEPARATOR {
        base.push(SEPARATOR) + rel
    } else {
        base + rel
    }
}

/// Appends `extra` to `out`.
fn append_bytes(out: &mut Vec<u8>, extra: &[u8])
    ensures
        final(out)@ == old(out)@ + extra@,
{
    let mut i: usize = 0;
    while i < extra.len()
        invariant
            i <= extra@.len(),
            out@ == old(out)@ + extra@.subrange(0, i as int),
        decreases extra@.len() - i,
    {
        out.push(extra[i]);
        i = i + 1;
        assert(out@ =~= old(out)@ + extra@.subrange(0, i as int));
    }
    assert(extra@.subrange(0, i as int) =~= extra@);
}

/// Joins the output directory and an entry's internal path. Nothing is
/// checked or cleaned: an absolute internal path replaces the output
/// directory, and `..` components are kept as they are.
pub fn join_path(base: &[u8], rel: &[u8]) -> (dest: Vec<u8>)
    ensures
        dest@ == joined(base@, rel@),
{
    let mut dest: Vec<u8> = Vec::new();
    if rel.len() > 0 && rel[0] == SEPARATOR {
        append_bytes(&mut dest, rel);
    } else {
        append_bytes(&mut dest, base);
        if base.len() > 0 && base[base.len() - 1] != SEPARATOR {
            dest.push(SEPARATOR);
        }
        append_bytes(&mut dest, rel);
    }
    assert(dest@ =~= joined(base@, rel@));
    dest
}

/// A relative internal path is placed under the output directory: the
/// destination starts with the directory and ends with the internal path.
pub proof fn lemma_relative_path_stays_under_base(base: Seq<u8>, rel: Seq<u8>)
    requires
        !is_absolute(rel),
    ensures
        base.is_prefix_of(joined(base, rel)),
        rel.is_suffix_of(joined(base, rel)),
        joined(base, rel).len() <= base.len() + 1 + rel.len(),
{
    let dest = joined(base, rel);
    assert(dest.subrange(0, base.len() as int) =~= base);
    assert(dest.subrange(dest.len() - rel.len(), dest.len() as int) =~= rel);
}

/// An absolute internal path is its own destination, whatever the output
/// directory: nothing here keeps such an entry inside the directory.
pub proof fn lemma_absolute_path_replaces_base(base: Seq<u8>, rel: Seq<u8>)
    requires
        is_absolute(rel),
    ensures
        joined(base, rel) == rel,
{
}

} // verus!
