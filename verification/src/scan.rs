//! Byte-sequence scanning helpers shared by the record decoder and the
//! interface-list splitter: the position of the first occurrence of a byte.

use vstd::prelude::*;

verus! {

/// Whether `b` occurs anywhere in `s`.
pub open spec fn has_byte(s: Seq<u8>, b: u8) -> bool {
    exists|i: int| 0 <= i < s.len() && s[i] == b
}

/// The index of the first occurrence of `b` in `s`, or `s.len()` when `b`
/// does not occur.
pub open spec fn first_index_of(s: Seq<u8>, b: u8) -> int
    decreases s.len(),
{
    if s.len() == 0 {
        0
    } else if s[0] == b {
        0
    } else {
        1 + first_index_of(s.drop_first(), b)
    }
}

/// Characterizes `first_index_of`: it is in bounds exactly when the byte
/// occurs, it points at the byte, and nothing before it is the byte.
pub proof fn lemma_first_index_of(s: Seq<u8>, b: u8)
    ensures
        0 <= first_index_of(s, b) <= s.len(),
        first_index_of(s, b) < s.len() ==> s[first_index_of(s, b)] == b,
        forall|j: int| 0 <= j < first_index_of(s, b) ==> s[j] != b,
        has_byte(s, b) ==> first_index_of(s, b) < s.len(),
    decreases s.len(),
{
    if s.len() == 0 {
    } else if s[0] == b {
    } else {
        let rest = s.drop_first();
        lemma_first_index_of(rest, b);
        assert forall|j: int| 0 <= j < first_index_of(s, b) implies s[j] != b by {
            if j > 0 {
                assert(rest[j - 1] == s[j]);
                assert(j - 1 < first_index_of(rest, b));
            }
        }
        if has_byte(s, b) {
            let w = choose|i: int| 0 <= i < s.len() && s[i] == b;
            assert(rest[w - 1] == b);
            assert(has_byte(rest, b));
        }
    }
}

/// Any index that points at `b` with no occurrence of `b` before it is the
/// first occurrence.
pub proof fn lemma_first_index_unique(s: Seq<u8>, b: u8, k: int)
    requires
        0 <= k < s.len(),
        s[k] == b,
        forall|j: int| 0 <= j < k ==> s[j] != b,
    ensures
        first_index_of(s, b) == k,
{
    lemma_first_index_of(s, b);
    assert(has_byte(s, b));
}

} // verus!
