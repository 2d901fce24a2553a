//! The regular-expression operations that citation formatting relies on,
//! each a call into the `regex` crate. A pattern that does not compile gives
//! `None`.
use vstd::prelude::*;
use vstd::string::StringExecFns;

verus! {

/// Name for what `Regex::new(pattern)` followed by `replace_all(haystack,
/// replacement)` gives: `None` when the pattern does not compile, else the
/// haystack with every match replaced by the replacement, in which `$name`
/// and `$1` stand for capture groups.
pub uninterp spec fn regex_replace_all(
    pattern: Seq<char>,
    haystack: Seq<char>,
    replacement: Seq<char>,
) -> Option<Seq<char>>;

/// Name for what `Regex::new(pattern)` followed by `is_match(haystack)`
/// gives: `None` when the pattern does not compile, else whether the pattern
/// matches somewhere in the haystack.
pub uninterp spec fn regex_is_match(pattern: Seq<char>, haystack: Seq<char>) -> Option<bool>;

/// Name for what `Regex::new(pattern)` followed by `split(haystack)` gives:
/// `None` when the pattern does not compile, else the pieces of the haystack
/// between the successive matches.
pub uninterp spec fn regex_split(pattern: Seq<char>, haystack: Seq<char>) -> Option<
    Seq<Seq<char>>,
>;

/// Name for what `Regex::new(pattern)` followed by `find_iter(haystack)`
/// gives: `None` when the pattern does not compile, else the text of the
/// successive matches.
pub uninterp spec fn regex_find_all(pattern: Seq<char>, haystack: Seq<char>) -> Option<
    Seq<Seq<char>>,
>;

/// Calls `regex::Regex::new` and `Regex::replace_all`; the result is named
/// `regex_replace_all`.
#[verifier::external_body]
pub(crate) fn replace_all_matches(pattern: &str, haystack: &str, replacement: &str) -> (res: Option<
    String,
>)
    ensures
        res is Some <==> regex_replace_all(pattern@, haystack@, replacement@) is Some,
        res matches Some(s) ==> regex_replace_all(pattern@, haystack@, replacement@) == Some(s@),
{
    regex::Regex::new(pattern).ok().map(|re| re.replace_all(haystack, replacement).into_owned())
}

/// Calls `regex::Regex::new` and `Regex::is_match`; the result is named
/// `regex_is_match`.
#[verifier::external_body]
pub(crate) fn is_match(pattern: &str, haystack: &str) -> (res: Option<bool>)
    ensures
        res == regex_is_match(pattern@, haystack@),
{
    regex::Regex::new(pattern).ok().map(|re| re.is_match(haystack))
}

/// The haystack rewritten by the pattern, or unchanged when the pattern
/// does not compile.
pub open spec fn rewrite(pattern: Seq<char>, haystack: Seq<char>, replacement: Seq<char>) -> Seq<
    char,
> {
    match regex_replace_all(pattern, haystack, replacement) {
        Some(s) => s,
        None => haystack,
    }
}

/// `haystack` with every match of `pattern` replaced by `replacement`;
/// unchanged when the pattern does not compile.
pub fn rewrite_all(pattern: &str, haystack: &str, replacement: &str) -> (res: String)
    ensures
        res@ == rewrite(pattern@, haystack@, replacement@),
{
    match replace_all_matches(pattern, haystack, replacement) {
        Some(s) => s,
        None => haystack.to_owned(),
    }
}

/// The `i`-th replacement, or nothing when there is none.
pub open spec fn piece(reps: Seq<Seq<char>>, i: int) -> Seq<char> {
    if 0 <= i < reps.len() {
        reps[i]
    } else {
        seq![]
    }
}

/// The gaps between matches put back together with the replacements of
/// the matches between them.
pub open spec fn rejoin(gaps: Seq<Seq<char>>, reps: Seq<Seq<char>>) -> Seq<char>
    decreases gaps.len(),
{
    if gaps.len() == 0 {
        seq![]
    } else if gaps.len() == 1 {
        gaps[0]
    } else {
        rejoin(gaps.drop_last(), reps) + piece(reps, gaps.len() - 2) + gaps.last()
    }
}


} // verus!
