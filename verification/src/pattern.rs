//! Regular-expression matching and rewriting, done by the `regex` crate.
//!
//! What a regular expression matches takes pages to state, so the results of
//! the `regex` calls are named here; the library's contracts speak of these names.
use vstd::prelude::*;

verus! {

/// `regex::Regex::new(pattern)` succeeds.
pub uninterp spec fn regex_compiles(pattern: Seq<char>) -> bool;

/// `Regex::is_match` of the compiled `pattern` on `text`.
pub uninterp spec fn regex_matches(pattern: Seq<char>, text: Seq<char>) -> bool;

/// `Regex::replace_all` of the compiled `pattern` on `text` with replacement `rep`.
pub uninterp spec fn regex_replaced_all(pattern: Seq<char>, text: Seq<char>, rep: Seq<char>) -> Seq<char>;

/// `Regex::replace` (first match only) of the compiled `pattern` on `text` with replacement `rep`.
pub uninterp spec fn regex_replaced_first(pattern: Seq<char>, text: Seq<char>, rep: Seq<char>) -> Seq<char>;

/// For each match of `Regex::captures_iter` of the compiled `pattern` on
/// `text`, in order, the text of the capture group named `group` (`None` when
/// that group took no part in the match).
pub uninterp spec fn regex_captured_all(pattern: Seq<char>, text: Seq<char>, group: Seq<char>) -> Seq<Option<Seq<char>>>;

/// `Regex::captures` of the compiled `pattern` on `text` (the leftmost match),
/// then the text of its group named `group`; `None` when there is no match or
/// the group took no part in it.
pub uninterp spec fn regex_captured_first(pattern: Seq<char>, text: Seq<char>, group: Seq<char>) -> Option<Seq<char>>;

/// Compiles `pattern` with `regex::Regex::new` and tells whether it matches
/// anywhere in `text` (`Regex::is_match`); `None` when the pattern does not compile.
#[verifier::external_body]
pub(crate) fn regex_is_match(pattern: &str, text: &str) -> (r: Option<bool>)
    ensures
        r is Some <==> regex_compiles(pattern@),
        r matches Some(b) ==> b == regex_matches(pattern@, text@),
{
    match regex::Regex::new(pattern) {
        Ok(re) => Some(re.is_match(text)),
        Err(_) => None,
    }
}

/// Compiles `pattern` and replaces every match in `text` with `rep`
/// (`Regex::replace_all`, where `$name` in `rep` refers to a capture group);
/// `None` when the pattern does not compile.
#[verifier::external_body]
pub(crate) fn regex_replace_all(pattern: &str, text: &str, rep: &str) -> (r: Option<String>)
    ensures
        r is Some <==> regex_compiles(pattern@),
        r matches Some(s) ==> s@ == regex_replaced_all(pattern@, text@, rep@),
{
    match regex::Regex::new(pattern) {
        Ok(re) => Some(re.replace_all(text, rep).to_string()),
        Err(_) => None,
    }
}

/// Compiles `pattern` and replaces its leftmost match in `text` with `rep`
/// (`Regex::replace`); `None` when the pattern does not compile.
#[verifier::external_body]
pub(crate) fn regex_replace_first(pattern: &str, text: &str, rep: &str) -> (r: Option<String>)
    ensures
        r is Some <==> regex_compiles(pattern@),
        r matches Some(s) ==> s@ == regex_replaced_first(pattern@, text@, rep@),
{
    match regex::Regex::new(pattern) {
        Ok(re) => Some(re.replace(text, rep).to_string()),
        Err(_) => None,
    }
}

/// Compiles `pattern` and lists, for every match of `Regex::captures_iter` on
/// `text`, the text of the group named `group`; `None` when the pattern does
/// not compile.
#[verifier::external_body]
pub(crate) fn regex_capture_all(pattern: &str, text: &str, group: &str) -> (r: Option<Vec<Option<String>>>)
    ensures
        r is Some <==> regex_compiles(pattern@),
        r matches Some(v) ==> v@.map_values(|o: Option<String>| match o {
            Some(s) => Some(s@),
            None => None,
        }) == regex_captured_all(pattern@, text@, group@),
{
    match regex::Regex::new(pattern) {
        Ok(re) => Some(
            re.captures_iter(text).map(|c| c.name(group).map(|m| m.as_str().to_string())).collect(),
        ),
        Err(_) => None,
    }
}

/// Compiles `pattern` and gives the text of group `group` in its leftmost
/// match on `text` (`Regex::captures`); `None` when the pattern does not compile.
#[verifier::external_body]
pub(crate) fn regex_capture_first(pattern: &str, text: &str, group: &str) -> (r: Option<Option<String>>)
    ensures
        r is Some <==> regex_compiles(pattern@),
        r matches Some(o) ==> match o {
            Some(s) => regex_captured_first(pattern@, text@, group@) == Some(s@),
            None => regex_captured_first(pattern@, text@, group@) is None,
        },
{
    match regex::Regex::new(pattern) {
        Ok(re) => Some(re.captures(text).and_then(|c| c.name(group).map(|m| m.as_str().to_string()))),
        Err(_) => None,
    }
}

} // verus!
