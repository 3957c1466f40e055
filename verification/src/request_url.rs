//! Parsing of the raw request target into the path used for routing and
//! asset resolution.
//!
//! The request line's target is interpreted as a URL reference against a
//! fixed local base; only its path component matters for resolution, and the
//! query and fragment are dropped. A target that does not parse is treated
//! by the handler exactly like a missing asset.

use vstd::prelude::*;

verus! {

/// Whether the request target `raw` parses as a URL reference against the
/// fixed local base. Server-relative targets such as a plain absolute path
/// do; parsing depends on the target string alone.
pub uninterp spec fn url_parses(raw: Seq<char>) -> bool;

/// The path component of the URL that the request target `raw` denotes
/// against the fixed local base, query and fragment dropped.
pub uninterp spec fn url_path_of(raw: Seq<char>) -> Seq<char>;

/// Relies on url::Url::parse, url::Url::join and url::Url::path: the request
/// target is resolved as a URL reference against a fixed local base, and the
/// path component of the result — query and fragment excluded — is returned.
/// Whether the target parses, and what path it denotes, depend on the target
/// string alone; a target that does not parse as a URL reference yields
/// `None`, and every target that does yields `Some`.
#[verifier::external_body]
pub(crate) fn parse_request_path(raw: &str) -> (r: Option<String>)
    ensures
        r is Some <==> url_parses(raw@),
        r is Some ==> r.unwrap()@ == url_path_of(raw@),
{
    let base = match url::Url::parse("http://localhost/") {
        Ok(u) => u,
        Err(_) => return None,
    };
    match base.join(raw) {
        Ok(u) => Some(u.path().to_string()),
        Err(_) => None,
    }
}

} // verus!
