use vstd::prelude::*;
use vstd::string::*;

verus! {

/// `p` is a prefix of `s`.
pub open spec fn is_prefix(p: Seq<char>, s: Seq<char>) -> bool {
    p.len() <= s.len() && s.subrange(0, p.len() as int) == p
}

/// The last character of `s` is `!`.
pub open spec fn ends_with_bang(s: Seq<char>) -> bool {
    s.len() > 0 && s.last() == '!'
}

/// `s` without a trailing `!`, if it has one.
pub open spec fn strip_bang(s: Seq<char>) -> Seq<char> {
    if ends_with_bang(s) {
        s.drop_last()
    } else {
        s
    }
}

/// Whether `p` is a prefix of `s`.
pub fn has_prefix(s: &str, p: &str) -> (r: bool)
    ensures
        r == is_prefix(p@, s@),
{
    let n = p.unicode_len();
    let m = s.unicode_len();
    if n > m {
        return false;
    }
    let mut i: usize = 0;
    while i < n
        invariant
            n == p@.len(),
            m == s@.len(),
            n <= m,
            i <= n,
            forall|j: int| 0 <= j < i ==> s@[j] == p@[j],
        decreases n - i,
    {
        if s.get_char(i) != p.get_char(i) {
            return false;
        }
        i = i + 1;
    }
    assert(s@.subrange(0, n as int) =~= p@);
    true
}

/// Whether `a` and `b` hold the same characters.
pub fn same_text(a: &str, b: &str) -> (r: bool)
    ensures
        r == (a@ == b@),
{
    if a.unicode_len() != b.unicode_len() {
        return false;
    }
    let r = has_prefix(a, b);
    assert(a@.subrange(0, a@.len() as int) =~= a@);
    r
}

/// Whether the last character of `s` is `!`.
pub fn has_bang_suffix(s: &str) -> (r: bool)
    ensures
        r == ends_with_bang(s@),
{
    let n = s.unicode_len();
    n > 0 && s.get_char(n - 1) == '!'
}

/// `s` without a trailing `!`.
pub fn without_bang(s: &str) -> (r: String)
    ensures
        r@ == strip_bang(s@),
{
    let n = s.unicode_len();
    if n > 0 && s.get_char(n - 1) == '!' {
        let t = s.substring_char(0, n - 1);
        assert(t@ =~= s@.drop_last());
        String::from_str(t)
    } else {
        String::from_str(s)
    }
}

} // verus!
