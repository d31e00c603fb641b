//! Small verified helpers on character strings, used by the builtin rules
//! and pre-handlers.

use vstd::prelude::*;
use vstd::string::StrSliceExecFns;

verus! {

/// Whether `s` begins with `p`.
pub open spec fn spec_starts_with(s: Seq<char>, p: Seq<char>) -> bool {
    p.len() <= s.len() && s.subrange(0, p.len() as int) == p
}

/// Whether a character counts as blank space.
pub open spec fn is_ws(c: char) -> bool {
    c == ' ' || c == '\t' || c == '\r' || c == '\n'
}

/// The length of the longest run of blank space at the front of `s`.
pub open spec fn leading_ws_len(s: Seq<char>) -> int
    decreases s.len(),
{
    if s.len() == 0 {
        0
    } else if is_ws(s[0]) {
        1 + leading_ws_len(s.subrange(1, s.len() as int))
    } else {
        0
    }
}

/// A position that is blank up to it and non-blank at it is exactly the
/// leading blank run's length.
proof fn lemma_leading_ws_len_at(s: Seq<char>, i: int)
    requires
        0 <= i <= s.len(),
        forall|j: int| 0 <= j < i ==> is_ws(s[j]),
        i == s.len() || !is_ws(s[i]),
    ensures
        leading_ws_len(s) == i,
    decreases i,
{
    if i == 0 {
    } else {
        assert(is_ws(s[0]));
        let t = s.subrange(1, s.len() as int);
        lemma_leading_ws_len_at(t, i - 1);
    }
}

/// Test whether `s` begins with the prefix `p`.
pub fn starts_with_str(s: &str, p: &str) -> (r: bool)
    ensures
        r == spec_starts_with(s@, p@),
{
    let slen = s.unicode_len();
    let plen = p.unicode_len();
    if plen > slen {
        return false;
    }
    let mut i: usize = 0;
    while i < plen
        invariant
            plen <= slen,
            slen == s@.len(),
            plen == p@.len(),
            i <= plen,
            forall|j: int| 0 <= j < i ==> s@[j] == p@[j],
        decreases plen - i,
    {
        if s.get_char(i) != p.get_char(i) {
            assert(!spec_starts_with(s@, p@)) by {
                assert(s@.subrange(0, p@.len() as int)[i as int] != p@[i as int]);
            }
            return false;
        }
        i = i + 1;
    }
    proof {
        assert(s@.subrange(0, p@.len() as int) =~= p@);
    }
    true
}

/// Remove the prefix `p` from the front of `s`.
pub fn strip_prefix_str(s: &str, p: &str) -> (r: String)
    requires
        spec_starts_with(s@, p@),
    ensures
        r@ == s@.subrange(p@.len() as int, s@.len() as int),
{
    let slen = s.unicode_len();
    let plen = p.unicode_len();
    s.substring_char(plen, slen).to_owned()
}

/// Remove all blank space from the front of `s`.
pub fn strip_leading_ws(s: &str) -> (r: String)
    ensures
        r@ == s@.subrange(leading_ws_len(s@), s@.len() as int),
{
    let slen = s.unicode_len();
    let mut i: usize = 0;
    while i < slen
        invariant
            slen == s@.len(),
            i <= slen,
            forall|j: int| 0 <= j < i ==> is_ws(s@[j]),
        decreases slen - i,
    {
        let c = s.get_char(i);
        if !(c == ' ' || c == '\t' || c == '\r' || c == '\n') {
            proof {
                lemma_leading_ws_len_at(s@, i as int);
            }
            return s.substring_char(i, slen).to_owned();
        }
        i = i + 1;
    }
    proof {
        lemma_leading_ws_len_at(s@, slen as int);
    }
    s.substring_char(slen, slen).to_owned()
}

} // verus!
