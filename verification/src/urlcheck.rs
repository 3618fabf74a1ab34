//! Well-formedness of navigation targets, decided by the `url` crate's
//! WHATWG parser.

use vstd::prelude::*;

verus! {

/// Whether the text parses as a well-formed absolute URL. The parser's
/// verdict depends on the characters alone.
pub uninterp spec fn is_valid_url(s: Seq<char>) -> bool;

/// Relies on url::Url::parse: accepts exactly the well-formed absolute
/// URLs, and its verdict depends on the input characters alone.
#[verifier::external_body]
fn parse_url_ok(s: &str) -> (r: bool)
    ensures
        r == is_valid_url(s@),
{
    url::Url::parse(s).is_ok()
}

/// True exactly when the text is a well-formed navigation target.
pub fn url_well_formed(s: &str) -> (r: bool)
    ensures
        r == is_valid_url(s@),
{
    parse_url_ok(s)
}

} // verus!
