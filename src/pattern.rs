//! Regular-expression searches, made by the `regex` crate.
use vstd::prelude::*;

verus! {

/// Group 1 of the leftmost-first match of `pattern` in `hay`, in the `regex`
/// crate's syntax and semantics; `None` where there is no match, where
/// group 1 takes no part in it, or where `pattern` does not compile.
pub uninterp spec fn first_capture_of(pattern: Seq<char>, hay: Seq<char>) -> Option<Seq<char>>;

/// Group 1 of each successive non-overlapping match of `pattern` in `hay`,
/// in order, skipping matches in which group 1 takes no part; empty where
/// `pattern` does not compile.
pub uninterp spec fn all_captures_of(pattern: Seq<char>, hay: Seq<char>) -> Seq<Seq<char>>;

/// Whether `pattern` matches somewhere in `hay`; false where `pattern` does
/// not compile.
pub uninterp spec fn is_match_of(pattern: Seq<char>, hay: Seq<char>) -> bool;

/// The text held by an optional string.
pub open spec fn opt_view(o: Option<String>) -> Option<Seq<char>> {
    match o {
        Some(s) => Some(s@),
        None => None,
    }
}

/// The texts held by a sequence of strings.
pub open spec fn texts(v: Seq<String>) -> Seq<Seq<char>> {
    v.map_values(|s: String| s@)
}

/// Relies on `regex::Regex::new`, `Regex::captures` and `Captures::get`:
/// compiles `pattern` and returns the text of group 1 of its first match.
#[verifier::external_body]
pub(crate) fn first_capture(pattern: &str, hay: &str) -> (r: Option<String>)
    ensures
        opt_view(r) == first_capture_of(pattern@, hay@),
{
    match regex::Regex::new(pattern) {
        Ok(re) => re.captures(hay).and_then(|c| c.get(1)).map(|m| m.as_str().to_string()),
        Err(_) => None,
    }
}

/// Relies on `regex::Regex::new`, `Regex::captures_iter` and `Captures::get`:
/// compiles `pattern` and returns the text of group 1 of every match, in order.
#[verifier::external_body]
pub(crate) fn all_captures(pattern: &str, hay: &str) -> (r: Vec<String>)
    ensures
        texts(r@) == all_captures_of(pattern@, hay@),
{
    match regex::Regex::new(pattern) {
        Ok(re) => re.captures_iter(hay).filter_map(|c| c.get(1)).map(
            |m| m.as_str().to_string(),
        ).collect(),
        Err(_) => Vec::new(),
    }
}

/// Relies on `regex::Regex::new` and `Regex::is_match`: compiles `pattern`
/// and tells whether it matches `hay`.
#[verifier::external_body]
pub(crate) fn is_match(pattern: &str, hay: &str) -> (r: bool)
    ensures
        r == is_match_of(pattern@, hay@),
{
    match regex::Regex::new(pattern) {
        Ok(re) => re.is_match(hay),
        Err(_) => false,
    }
}

} // verus!
