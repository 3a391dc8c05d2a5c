//! Character-level helpers shared by the cache layout and naming logic.

use vstd::prelude::*;

verus! {

use vstd::string::StrSliceExecFns;
use vstd::string::StringExecFns;

/// The suffix of `s` that follows its last '/', or all of `s` when it holds none.
pub open spec fn last_segment(s: Seq<char>) -> Seq<char>
    decreases s.len(),
{
    if s.len() == 0 {
        s
    } else if s[s.len() - 1] == '/' {
        Seq::empty()
    } else {
        last_segment(s.take(s.len() - 1)).push(s[s.len() - 1])
    }
}

/// `s` without a single leading '/', when it starts with one.
pub open spec fn strip_leading_slash(s: Seq<char>) -> Seq<char> {
    if s.len() > 0 && s[0] == '/' {
        s.skip(1)
    } else {
        s
    }
}

proof fn lemma_last_segment_from(s: Seq<char>, cut: int)
    requires
        0 <= cut <= s.len(),
        forall|i: int| cut <= i < s.len() ==> s[i] != '/',
        cut > 0 ==> s[cut - 1] == '/',
    ensures
        last_segment(s) =~= s.subrange(cut, s.len() as int),
    decreases s.len(),
{
    if cut < s.len() {
        let t = s.take(s.len() - 1);
        lemma_last_segment_from(t, cut);
    }
}

/// The file-name part of a '/'-separated path: what follows the last '/'.
pub fn last_segment_of(s: &str) -> (r: String)
    ensures
        r@ == last_segment(s@),
{
    let n = s.unicode_len();
    let mut cut: usize = n;
    while cut > 0 && s.get_char(cut - 1) != '/'
        invariant
            cut <= n,
            n == s@.len(),
            forall|i: int| cut <= i < n ==> s@[i] != '/',
        decreases cut,
    {
        cut = cut - 1;
    }
    proof {
        lemma_last_segment_from(s@, cut as int);
    }
    String::from_str(s.substring_char(cut, n))
}

/// `s` with one leading '/' removed, when present.
pub fn strip_leading_slash_of(s: &str) -> (r: String)
    ensures
        r@ == strip_leading_slash(s@),
{
    let n = s.unicode_len();
    if n > 0 && s.get_char(0) == '/' {
        let r = String::from_str(s.substring_char(1, n));
        proof {
            assert(s@.subrange(1, n as int) =~= s@.skip(1));
        }
        r
    } else {
        String::from_str(s)
    }
}

/// `dir` and `name` joined by a '/'.
pub fn join_path(dir: &str, name: &str) -> (r: String)
    ensures
        r@ == dir@ + "/"@ + name@,
{
    let mut out = String::from_str(dir);
    out.append("/");
    out.append(name);
    proof {
        assert(out@ =~= dir@ + "/"@ + name@);
    }
    out
}

} // verus!
