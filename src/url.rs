//! The link validator, applied before any page is fetched.
use vstd::prelude::*;
use crate::pattern::{is_match, is_match_of};

verus! {

/// An `http` or `https` link (either case) whose host is the short-link
/// domain or the main site domain, possibly under subdomains made of
/// letters, digits and hyphens, with a path of one or more non-whitespace
/// characters after the host's `/`. Nothing else may stand before the
/// domain, so no link to another host passes.
pub const LINK_PATTERN: &'static str =
    r"(?i)^https?://([a-z0-9-]+\.)*(xhslink\.com|xiaohongshu\.com)/[^\s]+$";

/// Whether `url` is a link to a post of the site, as `LINK_PATTERN` states.
pub fn is_valid_rednote_url(url: &str) -> (r: bool)
    ensures
        r == is_match_of(LINK_PATTERN@, url@),
{
    is_match(LINK_PATTERN, url)
}

} // verus!
