use vstd::prelude::*;
use vstd::string::StrSliceExecFns;

verus! {

/// True when `pre` is an initial segment of `s`.
pub open spec fn is_prefix(pre: Seq<char>, s: Seq<char>) -> bool {
    pre.len() <= s.len() && pre =~= s.subrange(0, pre.len() as int)
}

/// Character-for-character string equality.
pub(crate) fn str_eq(a: &str, b: &str) -> (r: bool)
    ensures
        r == (a@ == b@),
{
    let sa: String = a.to_owned();
    let sb: String = b.to_owned();
    sa == sb
}

/// Whether `s` starts with `pre`.
pub(crate) fn str_starts_with(s: &str, pre: &str) -> (r: bool)
    ensures
        r == is_prefix(pre@, s@),
{
    let n = s.unicode_len();
    let m = pre.unicode_len();
    if m > n {
        return false;
    }
    let mut i: usize = 0;
    while i < m
        invariant
            0 <= i <= m,
            m == pre@.len(),
            n == s@.len(),
            m <= n,
            forall|j: int| 0 <= j < i ==> pre@[j] == s@[j],
        decreases m - i,
    {
        if s.get_char(i) != pre.get_char(i) {
            return false;
        }
        i += 1;
    }
    proof {
        assert(pre@ =~= s@.subrange(0, pre@.len() as int));
    }
    true
}

/// The characters of `s` from position `from` (in characters) to the end.
pub(crate) fn str_suffix(s: &str, from: usize) -> (r: String)
    requires
        from <= s@.len(),
    ensures
        r@ == s@.subrange(from as int, s@.len() as int),
{
    let n = s.unicode_len();
    let suf = s.substring_char(from, n);
    suf.to_owned()
}

} // verus!
