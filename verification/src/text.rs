//! Substring matching over character sequences, used by the playlist search.

use vstd::prelude::*;

verus! {

/// `needle` occurs in `hay` starting at character position `i`.
pub open spec fn match_at(hay: Seq<char>, needle: Seq<char>, i: int) -> bool {
    &&& 0 <= i
    &&& i + needle.len() <= hay.len()
    &&& hay.subrange(i, i + needle.len()) == needle
}

/// `needle` is a contiguous substring of `hay` (case-sensitive). The empty
/// needle is a substring of everything.
pub open spec fn has_substring(hay: Seq<char>, needle: Seq<char>) -> bool {
    exists|i: int| match_at(hay, needle, i)
}

/// Whether `needle` occurs in `hay`, comparing characters as typed.
pub fn str_has_substring(hay: &str, needle: &str) -> (r: bool)
    ensures
        r == has_substring(hay@, needle@),
{
    let hl: usize = hay.unicode_len();
    let nl: usize = needle.unicode_len();
    if nl > hl {
        proof {
            assert(forall|k: int| !match_at(hay@, needle@, k));
        }
        return false;
    }
    let mut i: usize = 0;
    while i <= hl - nl
        invariant
            nl <= hl,
            hl == hay@.len(),
            nl == needle@.len(),
            i <= hl - nl + 1,
            forall|k: int| 0 <= k < i ==> !match_at(hay@, needle@, k),
        decreases hl - nl + 1 - i,
    {
        let mut j: usize = 0;
        while j < nl && hay.get_char(i + j) == needle.get_char(j)
            invariant
                nl <= hl,
                hl == hay@.len(),
                nl == needle@.len(),
                i + nl <= hl,
                j <= nl,
                forall|t: int| 0 <= t < j ==> hay@[i + t] == needle@[t],
            decreases nl - j,
        {
            j += 1;
        }
        if j == nl {
            proof {
                assert(hay@.subrange(i as int, i + nl) =~= needle@);
                assert(match_at(hay@, needle@, i as int));
            }
            return true;
        }
        proof {
            assert(!match_at(hay@, needle@, i as int)) by {
                if match_at(hay@, needle@, i as int) {
                    assert(hay@.subrange(i as int, i + nl)[j as int] == needle@[j as int]);
                }
            }
        }
        i += 1;
    }
    proof {
        assert(forall|k: int| match_at(hay@, needle@, k) ==> 0 <= k < i);
    }
    false
}

} // verus!
