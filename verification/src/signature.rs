//! Search for a byte signature with wildcard positions, and the signature
//! that marks the game's scene pointer in its main module.

use vstd::prelude::*;

verus! {

/// Whether position `index` of a signature is a wildcard under `wildcard`.
/// A position that the mask does not reach is fixed.
pub open spec fn is_wildcard(wildcard: Seq<bool>, index: int) -> bool {
    0 <= index < wildcard.len() && wildcard[index]
}

/// Whether the signature occurs in `haystack` at `offset`: the window of the
/// length of `needle` that starts there lies inside `haystack`, and every
/// byte of it at a fixed position equals the byte of `needle` there.
pub open spec fn matches_at(
    haystack: Seq<u8>,
    needle: Seq<u8>,
    wildcard: Seq<bool>,
    offset: int,
) -> bool {
    &&& 0 <= offset
    &&& offset + needle.len() <= haystack.len()
    &&& forall|i: int|
        0 <= i < needle.len() ==> is_wildcard(wildcard, i) || #[trigger] haystack[offset + i]
            == needle[i]
}

/// Whether the signature occurs at `offset` and at no smaller offset.
pub open spec fn is_first_match(
    haystack: Seq<u8>,
    needle: Seq<u8>,
    wildcard: Seq<bool>,
    offset: int,
) -> bool {
    &&& matches_at(haystack, needle, wildcard, offset)
    &&& forall|k: int| 0 <= k < offset ==> !matches_at(haystack, needle, wildcard, k)
}

/// The smallest offset at which the signature occurs in `haystack`, if it
/// occurs at all.
pub open spec fn first_match(haystack: Seq<u8>, needle: Seq<u8>, wildcard: Seq<bool>) -> Option<
    int,
> {
    if exists|offset: int| matches_at(haystack, needle, wildcard, offset) {
        Some(choose|offset: int| is_first_match(haystack, needle, wildcard, offset))
    } else {
        None
    }
}

/// An offset at which the signature occurs, with no occurrence before it, is
/// the first match.
pub proof fn lemma_first_match_unique(
    haystack: Seq<u8>,
    needle: Seq<u8>,
    wildcard: Seq<bool>,
    offset: int,
)
    requires
        is_first_match(haystack, needle, wildcard, offset),
    ensures
        first_match(haystack, needle, wildcard) == Some(offset),
{
    let chosen = choose|o: int| is_first_match(haystack, needle, wildcard, o);
    assert(is_first_match(haystack, needle, wildcard, chosen));
    if chosen < offset {
        assert(!matches_at(haystack, needle, wildcard, chosen));
    }
    if offset < chosen {
        assert(!matches_at(haystack, needle, wildcard, offset));
    }
}

/// What `first_match` gives: an offset at which the signature occurs and
/// before which it does not, or nothing where it occurs nowhere.
pub proof fn lemma_first_match(haystack: Seq<u8>, needle: Seq<u8>, wildcard: Seq<bool>)
    ensures
        match first_match(haystack, needle, wildcard) {
            Some(offset) => is_first_match(haystack, needle, wildcard, offset),
            None => forall|k: int| !matches_at(haystack, needle, wildcard, k),
        },
{
    if exists|offset: int| matches_at(haystack, needle, wildcard, offset) {
        let some = choose|offset: int| matches_at(haystack, needle, wildcard, offset);
        let least = lemma_least_match(haystack, needle, wildcard, some);
        lemma_first_match_unique(haystack, needle, wildcard, least);
    }
}

/// Below any occurrence of the signature lies a first one.
proof fn lemma_least_match(
    haystack: Seq<u8>,
    needle: Seq<u8>,
    wildcard: Seq<bool>,
    offset: int,
) -> (least: int)
    requires
        matches_at(haystack, needle, wildcard, offset),
    ensures
        is_first_match(haystack, needle, wildcard, least),
        least <= offset,
    decreases offset,
{
    if exists|k: int| 0 <= k < offset && matches_at(haystack, needle, wildcard, k) {
        let k = choose|k: int| 0 <= k < offset && matches_at(haystack, needle, wildcard, k);
        lemma_least_match(haystack, needle, wildcard, k)
    } else {
        offset
    }
}

/// Tells whether the signature occurs in `haystack` at `offset`.
pub fn occurs_at(haystack: &[u8], needle: &[u8], wildcard: &[bool], offset: usize) -> (found: bool)
    ensures
        found == matches_at(haystack@, needle@, wildcard@, offset as int),
{
    if needle.len() > haystack.len() || offset > haystack.len() - needle.len() {
        return false;
    }
    let mut i: usize = 0;
    while i < needle.len()
        invariant
            i <= needle.len(),
            offset + needle.len() <= haystack.len(),
            forall|j: int|
                0 <= j < i ==> is_wildcard(wildcard@, j) || #[trigger] haystack@[offset + j]
                    == needle@[j],
        decreases needle.len() - i,
    {
        let fixed = i >= wildcard.len() || !wildcard[i];
        if fixed && haystack[offset + i] != needle[i] {
            assert(!is_wildcard(wildcard@, i as int));
            assert(haystack@[offset + i] != needle@[i as int]);
            return false;
        }
        i += 1;
    }
    true
}

/// Finds the first offset at which the signature occurs in `haystack`.
pub fn scan(haystack: &[u8], needle: &[u8], wildcard: &[bool]) -> (found: Option<usize>)
    ensures
        match found {
            Some(offset) => first_match(haystack@, needle@, wildcard@) == Some(offset as int),
            None => first_match(haystack@, needle@, wildcard@) is None,
        },
{
    if needle.len() > haystack.len() {
        assert(forall|k: int| !matches_at(haystack@, needle@, wildcard@, k));
        return None;
    }
    let last: usize = haystack.len() - needle.len();
    let mut offset: usize = 0;
    while offset <= last
        invariant
            last + needle.len() == haystack.len(),
            offset <= last + 1,
            forall|k: int| 0 <= k < offset ==> !matches_at(haystack@, needle@, wildcard@, k),
        decreases last + 1 - offset,
    {
        if occurs_at(haystack, needle, wildcard, offset) {
            proof {
                lemma_first_match_unique(haystack@, needle@, wildcard@, offset as int);
            }
            return Some(offset);
        }
        offset += 1;
    }
    assert(forall|k: int| !matches_at(haystack@, needle@, wildcard@, k));
    None
}

} // verus!
