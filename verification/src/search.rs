//! Search for a byte string in a buffer, from the end.

use vstd::prelude::*;

use crate::layout::tagged;

verus! {

/// Whether `needle` lies in `haystack` at `at`.
pub open spec fn occurs_at(haystack: Seq<u8>, needle: Seq<u8>, at: int) -> bool {
    &&& 0 <= at
    &&& at + needle.len() <= haystack.len()
    &&& haystack.subrange(at, at + needle.len()) == needle
}

/// `memchr::memmem::rfind`: the offset at which the last occurrence of
/// `needle` in `haystack` starts, or nothing where `needle` does not occur.
#[verifier::external_body]
pub(crate) fn rfind(haystack: &[u8], needle: &[u8]) -> (found: Option<usize>)
    ensures
        match found {
            Some(at) => occurs_at(haystack@, needle@, at as int) && forall|later: int|
                at < later ==> !occurs_at(haystack@, needle@, later),
            None => forall|at: int| !occurs_at(haystack@, needle@, at),
        },
{
    memchr::memmem::rfind(haystack, needle)
}

/// A four-byte signature lies at an offset exactly where it occurs there as
/// a byte string.
pub proof fn lemma_tagged_occurs(buf: Seq<u8>, at: int, tag: [u8; 4])
    ensures
        tagged(buf, at, tag) <==> occurs_at(buf, tag@, at),
{
    if tagged(buf, at, tag) {
        assert(buf.subrange(at, at + 4) =~= tag@);
    }
    if occurs_at(buf, tag@, at) {
        let part = buf.subrange(at, at + 4);
        assert(part[0] == tag@[0]);
        assert(part[1] == tag@[1]);
        assert(part[2] == tag@[2]);
        assert(part[3] == tag@[3]);
    }
}

/// In a prefix of the buffer a signature lies where it lies in the buffer,
/// as far as the prefix reaches.
pub proof fn lemma_tagged_prefix(buf: Seq<u8>, end: int, at: int, tag: [u8; 4])
    requires
        0 <= end <= buf.len(),
    ensures
        tagged(buf.subrange(0, end), at, tag) <==> tagged(buf, at, tag) && at + 4 <= end,
{
}

} // verus!
