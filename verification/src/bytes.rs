//! Verified byte-string primitives: prefix test and substring search.
//!
//! The device-registry parser works on raw bytes, so the two string
//! operations it needs are written and proved here rather than taken
//! on trust.

use vstd::prelude::*;

verus! {

/// Whether `p` is a prefix of `s`.
pub open spec fn has_prefix(s: Seq<u8>, p: Seq<u8>) -> bool {
    p.is_prefix_of(s)
}

/// Whether `needle` occurs contiguously somewhere in `hay`.
pub open spec fn has_substring(hay: Seq<u8>, needle: Seq<u8>) -> bool {
    exists|i: int| #[trigger] substring_at(hay, needle, i)
}

/// Whether `needle` occurs in `hay` starting exactly at `i`.
pub open spec fn substring_at(hay: Seq<u8>, needle: Seq<u8>, i: int) -> bool {
    0 <= i && i + needle.len() <= hay.len() && hay.subrange(i, i + needle.len()) == needle
}

/// Does `s` begin with `p`?
pub fn bytes_have_prefix(s: &[u8], p: &[u8]) -> (r: bool)
    ensures
        r == has_prefix(s@, p@),
{
    if p.len() > s.len() {
        assert(!has_prefix(s@, p@));
        return false;
    }
    let mut j: usize = 0;
    while j < p.len()
        invariant
            j <= p@.len() <= s@.len(),
            forall|k: int| 0 <= k < j ==> s@[k] == p@[k],
        decreases p@.len() - j,
    {
        if s[j] != p[j] {
            assert(!has_prefix(s@, p@));
            return false;
        }
        j += 1;
    }
    assert(p@ =~= s@.subrange(0, p@.len() as int));
    true
}

/// Does `needle` occur at position `i` of `hay`? Internal step of the
/// substring search.
fn matches_at(hay: &[u8], needle: &[u8], i: usize) -> (r: bool)
    requires
        i + needle@.len() <= hay@.len(),
    ensures
        r == substring_at(hay@, needle@, i as int),
{
    let n: usize = hay.len();
    let m: usize = needle.len();
    let mut j: usize = 0;
    while j < m
        invariant
            j <= m == needle@.len(),
            n == hay@.len(),
            i + needle@.len() <= hay@.len(),
            forall|k: int| 0 <= k < j ==> hay@[i + k] == needle@[k],
        decreases needle@.len() - j,
    {
        if hay[i + j] != needle[j] {
            assert(hay@.subrange(i as int, i + needle@.len()) != needle@) by {
                assert(hay@.subrange(i as int, i + needle@.len())[j as int] != needle@[j as int]);
            }
            return false;
        }
        j += 1;
    }
    assert(hay@.subrange(i as int, i + needle@.len()) =~= needle@);
    true
}

/// Does `needle` occur anywhere in `hay`?
pub fn bytes_contain(hay: &[u8], needle: &[u8]) -> (r: bool)
    ensures
        r == has_substring(hay@, needle@),
{
    if needle.len() > hay.len() {
        assert(!has_substring(hay@, needle@));
        return false;
    }
    let end: usize = hay.len() - needle.len();
    let mut i: usize = 0;
    loop
        invariant
            i <= end,
            needle@.len() + end == hay@.len(),
            forall|k: int| 0 <= k < i ==> !substring_at(hay@, needle@, k),
        decreases end - i,
    {
        if matches_at(hay, needle, i) {
            assert(has_substring(hay@, needle@));
            return true;
        }
        if i == end {
            assert(forall|k: int| 0 <= k <= end ==> !substring_at(hay@, needle@, k));
            assert(!has_substring(hay@, needle@));
            return false;
        }
        i += 1;
    }
}

} // verus!
