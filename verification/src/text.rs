//! Case-insensitive rerun detection on stream titles.
//!
//! A broadcast whose title contains the marker "rerun" in any case is a
//! replay and must never be announced. Lowercasing is delegated to the
//! standard library (Unicode case folding is far beyond a short
//! specification, so its result only gets a name here); the substring
//! search on the lowered title is verified.

use vstd::prelude::*;

verus! {

/// The Unicode lowercase form of a character sequence, as
/// `str::to_lowercase` computes it. The result depends on the characters
/// alone, so it can be named without being spelled out.
pub uninterp spec fn lower_of(s: Seq<char>) -> Seq<char>;

/// Relies on `str::to_lowercase` of std: the returned string is the
/// Unicode lowercase form of the input, a function of its characters
/// alone.
#[verifier::external_body]
fn to_lowercase(s: &str) -> (r: String)
    ensures
        r@ == lower_of(s@),
{
    s.to_lowercase()
}

/// The needle occurs in the haystack starting at position `i`.
pub open spec fn matches_at(haystack: Seq<char>, needle: Seq<char>, i: int) -> bool {
    &&& 0 <= i
    &&& i + needle.len() <= haystack.len()
    &&& forall|k: int| 0 <= k < needle.len() ==> haystack[i + k] == needle[k]
}

/// The needle occurs somewhere in the haystack.
pub open spec fn contains_seq(haystack: Seq<char>, needle: Seq<char>) -> bool {
    exists|i: int| matches_at(haystack, needle, i)
}

/// A title marks a rerun when its lowercase form contains "rerun".
pub open spec fn is_rerun_title(title: Seq<char>) -> bool {
    contains_seq(lower_of(title), "rerun"@)
}

/// Checks whether the needle occurs in the haystack at position `at`.
fn str_matches_at(haystack: &str, needle: &str, at: usize, n_len: usize) -> (b: bool)
    requires
        n_len == needle@.len(),
        at + n_len <= haystack@.len(),
        at + n_len <= usize::MAX,
    ensures
        b == matches_at(haystack@, needle@, at as int),
{
    let mut k: usize = 0;
    while k < n_len
        invariant
            n_len == needle@.len(),
            at + n_len <= haystack@.len(),
            at + n_len <= usize::MAX,
            0 <= k <= n_len,
            forall|j: int| 0 <= j < k ==> haystack@[at + j] == needle@[j],
        decreases n_len - k,
    {
        if haystack.get_char(at + k) != needle.get_char(k) {
            proof {
                assert(!matches_at(haystack@, needle@, at as int)) by {
                    if matches_at(haystack@, needle@, at as int) {
                        assert(haystack@[at + k] == needle@[k as int]);
                    }
                }
            }
            return false;
        }
        k = k + 1;
    }
    true
}

/// Substring search: whether the needle occurs anywhere in the haystack.
pub fn str_contains(haystack: &str, needle: &str) -> (b: bool)
    ensures
        b == contains_seq(haystack@, needle@),
{
    let h_len = haystack.unicode_len();
    let n_len = needle.unicode_len();
    if n_len > h_len {
        proof {
            assert(!contains_seq(haystack@, needle@)) by {
                assert forall|i: int| !matches_at(haystack@, needle@, i) by {}
            }
        }
        return false;
    }
    let last_start = h_len - n_len;
    let mut i: usize = 0;
    while i <= last_start
        invariant
            n_len == needle@.len(),
            h_len == haystack@.len(),
            n_len <= h_len,
            last_start == h_len - n_len,
            0 <= i <= last_start + 1,
            forall|j: int| 0 <= j < i ==> !matches_at(haystack@, needle@, j),
        decreases last_start + 1 - i,
    {
        if str_matches_at(haystack, needle, i, n_len) {
            return true;
        }
        i = i + 1;
    }
    proof {
        assert(!contains_seq(haystack@, needle@)) by {
            assert forall|j: int| !matches_at(haystack@, needle@, j) by {
                if 0 <= j < i {
                    assert(!matches_at(haystack@, needle@, j));
                }
            }
        }
    }
    false
}

/// Whether the title marks the broadcast as a rerun: its Unicode
/// lowercase form contains the substring "rerun".
pub fn title_is_rerun(title: &str) -> (b: bool)
    ensures
        b == is_rerun_title(title@),
{
    let lowered = to_lowercase(title);
    str_contains(lowered.as_str(), "rerun")
}

} // verus!
