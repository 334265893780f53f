//! The decisions of a run that are not per-file: where the manifest is, and
//! what a run that cannot get it fails with.
use vstd::prelude::*;
use crate::error::{DownloadError, error_message};

verus! {

/// Where the manifest of the site at `base_url` is published.
pub open spec fn manifest_location(base_url: Seq<char>) -> Seq<char> {
    base_url + "/llms.txt"@
}

pub open spec fn manifest_failure(url: Seq<char>, cause: Seq<char>) -> Seq<char> {
    "Could not find or access llms.txt at "@ + url + ": "@ + cause
}

/// The URL of the manifest of the site at `base_url` (given without a trailing `/`).
pub fn manifest_url(base_url: &str) -> (r: String)
    ensures
        r@ == manifest_location(base_url@),
{
    let mut s = String::from_str(base_url);
    s.append("/llms.txt");
    s
}

/// The error that ends a run whose manifest at `url` could not be fetched.
pub fn manifest_unavailable(url: &str, error: &DownloadError) -> (r: DownloadError)
    ensures
        r matches DownloadError::ParseError(m) && m@ == manifest_failure(url@, error_message(*error)),
{
    let mut m = String::from_str("Could not find or access llms.txt at ");
    m.append(url);
    m.append(": ");
    let cause = error.message();
    m.append(cause.as_str());
    DownloadError::ParseError(m)
}

} // verus!
