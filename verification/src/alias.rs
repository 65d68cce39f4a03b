//! Deriving a storage alias from a public image URL.
//!
//! An uploaded image's alias is embedded in its externally visible URL as
//! the final path segment. [`extract_alias`] reproduces exactly the
//! "text after the last `/`" projection, with no further validation: the
//! segment may be empty, and a URL without any `/` yields the whole text.

use vstd::prelude::*;
use vstd::string::StrSliceExecFns;

verus! {

/// The final path segment of `s`: everything after the last `/`, the
/// empty sequence when `s` ends in `/`, and all of `s` when it holds no
/// `/` at all.
pub open spec fn last_segment(s: Seq<char>) -> Seq<char>
    decreases s.len(),
{
    if s.len() == 0 {
        s
    } else if s.last() == '/' {
        Seq::empty()
    } else {
        last_segment(s.drop_last()).push(s.last())
    }
}

/// `last_segment` is the suffix that starts right after the last `/`.
proof fn lemma_last_segment_is_suffix(s: Seq<char>, cut: int)
    requires
        0 <= cut <= s.len(),
        forall|j: int| cut <= j < s.len() ==> s[j] != '/',
        cut == 0 || s[cut - 1] == '/',
    ensures
        last_segment(s) == s.subrange(cut, s.len() as int),
    decreases s.len(),
{
    if s.len() == 0 {
        assert(last_segment(s) =~= s.subrange(0, 0));
    } else if s.last() == '/' {
        assert(cut == s.len());
        assert(last_segment(s) =~= s.subrange(cut, s.len() as int));
    } else {
        assert(cut < s.len());
        lemma_last_segment_is_suffix(s.drop_last(), cut);
        assert(s.drop_last().subrange(cut, s.len() - 1).push(s.last()) =~= s.subrange(
            cut,
            s.len() as int,
        ));
    }
}

/// Character-by-character string equality, with the equality of the views
/// as its exact meaning.
pub fn str_eq(a: &str, b: &str) -> (r: bool)
    ensures
        r == (a@ == b@),
{
    let a_len = a.unicode_len();
    let b_len = b.unicode_len();
    if a_len != b_len {
        return false;
    }
    let mut i: usize = 0;
    while i < a_len
        invariant
            a_len == a@.len(),
            a_len == b@.len(),
            0 <= i <= a_len,
            forall|j: int| 0 <= j < i ==> a@[j] == b@[j],
        decreases a_len - i,
    {
        if a.get_char(i) != b.get_char(i) {
            return false;
        }
        i += 1;
    }
    proof {
        assert(a@ =~= b@);
    }
    true
}

/// Derives the storage alias from a public URL: the text after the last
/// `/`, exactly as stored URLs embed it. No validation is performed; the
/// result may be empty.
pub fn extract_alias(url: &str) -> (alias: String)
    ensures
        alias@ == last_segment(url@),
{
    let n = url.unicode_len();
    let mut cut: usize = 0;
    let mut i: usize = 0;
    while i < n
        invariant
            n == url@.len(),
            0 <= cut <= i <= n,
            cut == 0 || url@[cut - 1] == '/',
            forall|j: int| cut <= j < i ==> url@[j] != '/',
        decreases n - i,
    {
        if url.get_char(i) == '/' {
            cut = i + 1;
        }
        i += 1;
    }
    proof {
        lemma_last_segment_is_suffix(url@, cut as int);
    }
    let segment = url.substring_char(cut, n);
    segment.to_owned()
}

} // verus!
