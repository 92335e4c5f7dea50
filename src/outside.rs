use vstd::prelude::*;

use crate::subject::opt_view;

verus! {

/// The capture groups of the first match of `pattern` in `haystack`, as
/// `regex::Regex::captures` reports them (group 0 is the whole match; a
/// group that took no part in the match is `None`), or `None` where there
/// is no match or `pattern` does not compile.
pub uninterp spec fn regex_captures(pattern: Seq<char>, haystack: Seq<char>) -> Option<
    Seq<Option<Seq<char>>>,
>;

/// What `str::to_lowercase` makes of `s`.
pub uninterp spec fn lower_of(s: Seq<char>) -> Seq<char>;

/// The view of the capture groups handed back by [`captures`].
pub open spec fn caps_view(c: Seq<Option<String>>) -> Seq<Option<Seq<char>>> {
    c.map_values(|o: Option<String>| opt_view(o))
}

/// The view of the optional capture groups handed back by [`captures`].
pub open spec fn opt_caps_view(r: Option<Vec<Option<String>>>) -> Option<Seq<Option<Seq<char>>>> {
    match r {
        Some(v) => Some(caps_view(v@)),
        None => None,
    }
}

/// Relies on `regex::Regex::new`, which compiles `pattern` (an error
/// becomes `None`), and on `regex::Regex::captures` with
/// `regex::Captures::iter`, which give the groups of the first match in
/// order, group 0 first. The result depends on the two texts alone.
#[verifier::external_body]
pub(crate) fn captures(pattern: &str, haystack: &str) -> (r: Option<Vec<Option<String>>>)
    ensures
        opt_caps_view(r) == regex_captures(pattern@, haystack@),
{
    let re = regex::Regex::new(pattern).ok()?;
    let caps = re.captures(haystack)?;
    Some(caps.iter().map(|m| m.map(|m| m.as_str().to_owned())).collect())
}

/// Relies on `str::to_lowercase`: the result depends on the characters of
/// `s` alone.
#[verifier::external_body]
pub(crate) fn lowercase(s: &str) -> (r: String)
    ensures
        r@ == lower_of(s@),
{
    s.to_lowercase()
}

} // verus!
