//! Absolute URLs, parsed and joined by the `url` crate.
//!
//! A `Location` is viewed as its serialization. What the `url` crate computes
//! from a serialization (parsing, joining, the accessors) is named below and
//! not restated: it is the WHATWG URL Standard as that crate implements it.
use vstd::prelude::*;

verus! {

#[verifier::external_type_specification]
#[verifier::external_body]
pub struct ExUrl(url::Url);

/// `url::Url::parse` on `s`: the serialization of the parsed URL, or the
/// parse error's message.
pub uninterp spec fn url_parse(s: Seq<char>) -> Result<Seq<char>, Seq<char>>;

/// `url::Url::join` of `input` on the URL serialized as `base`: the
/// serialization of the result, or the parse error's message.
pub uninterp spec fn url_join(base: Seq<char>, input: Seq<char>) -> Result<Seq<char>, Seq<char>>;

/// `url::Url::scheme` of the URL serialized as `u`.
pub uninterp spec fn url_scheme(u: Seq<char>) -> Seq<char>;

/// `url::Url::host_str` of the URL serialized as `u`.
pub uninterp spec fn url_host(u: Seq<char>) -> Option<Seq<char>>;

/// `url::Url::port` of the URL serialized as `u`: the port when it is not
/// the scheme's default.
pub uninterp spec fn url_port(u: Seq<char>) -> Option<u16>;

/// `url::Url::path` of the URL serialized as `u`.
pub uninterp spec fn url_path(u: Seq<char>) -> Seq<char>;

/// An absolute URL, with its serialization.
pub struct Location {
    url: url::Url,
    text: String,
}

impl View for Location {
    type V = Seq<char>;

    closed spec fn view(&self) -> Seq<char> {
        self.text@
    }
}

/// A parse or join outcome, as serialization or error message.
pub open spec fn outcome_view(r: Result<Location, String>) -> Result<Seq<char>, Seq<char>> {
    match r {
        Ok(l) => Ok(l@),
        Err(m) => Err(m@),
    }
}

/// A host name, as characters.
pub open spec fn host_view(r: Option<String>) -> Option<Seq<char>> {
    match r {
        Some(h) => Some(h@),
        None => None,
    }
}

/// Relies on `url::Url::parse` (and `Url`'s `Display`, which writes the
/// serialization): a URL parsed from its own serialization serializes the
/// same way, as `Url::check_invariants` asserts.
#[verifier::external_body]
fn parse_url(s: &str) -> (r: Result<Location, String>)
    ensures
        url_parse(s@) == outcome_view(r),
        r is Ok ==> url_parse(r->Ok_0@) == Ok::<Seq<char>, Seq<char>>(r->Ok_0@),
{
    match url::Url::parse(s) {
        Ok(u) => Ok(Location { text: u.to_string(), url: u }),
        Err(e) => Err(e.to_string()),
    }
}

/// Relies on `url::Url::join`: resolves `input` against `base` as the URL
/// Standard does; the result re-parses to its own serialization.
#[verifier::external_body]
fn join_url(base: &Location, input: &str) -> (r: Result<Location, String>)
    ensures
        url_join(base@, input@) == outcome_view(r),
        r is Ok ==> url_parse(r->Ok_0@) == Ok::<Seq<char>, Seq<char>>(r->Ok_0@),
{
    match base.url.join(input) {
        Ok(u) => Ok(Location { text: u.to_string(), url: u }),
        Err(e) => Err(e.to_string()),
    }
}

/// Relies on `url::Url::scheme`.
#[verifier::external_body]
fn scheme_of(l: &Location) -> (r: String)
    ensures
        r@ == url_scheme(l@),
{
    l.url.scheme().to_string()
}

/// Relies on `url::Url::host_str`.
#[verifier::external_body]
fn host_of(l: &Location) -> (r: Option<String>)
    ensures
        url_host(l@) == host_view(r),
{
    l.url.host_str().map(|h| h.to_string())
}

/// Relies on `url::Url::port`.
#[verifier::external_body]
fn port_of(l: &Location) -> (r: Option<u16>)
    ensures
        r == url_port(l@),
{
    l.url.port()
}

/// Relies on `url::Url::path`.
#[verifier::external_body]
fn path_of(l: &Location) -> (r: String)
    ensures
        r@ == url_path(l@),
{
    l.url.path().to_string()
}

impl Location {
    /// Parses an absolute URL.
    pub fn parse(s: &str) -> (r: Result<Location, String>)
        ensures
            url_parse(s@) == outcome_view(r),
            r is Ok ==> url_parse(r->Ok_0@) == Ok::<Seq<char>, Seq<char>>(r->Ok_0@),
    {
        parse_url(s)
    }

    /// Resolves `input` against this URL.
    pub fn join(&self, input: &str) -> (r: Result<Location, String>)
        ensures
            url_join(self@, input@) == outcome_view(r),
            r is Ok ==> url_parse(r->Ok_0@) == Ok::<Seq<char>, Seq<char>>(r->Ok_0@),
    {
        join_url(self, input)
    }

    /// The serialization.
    pub fn as_string(&self) -> (r: String)
        ensures
            r@ == self@,
    {
        self.text.clone()
    }

    pub fn scheme(&self) -> (r: String)
        ensures
            r@ == url_scheme(self@),
    {
        scheme_of(self)
    }

    pub fn host(&self) -> (r: Option<String>)
        ensures
            url_host(self@) == host_view(r),
    {
        host_of(self)
    }

    pub fn port(&self) -> (r: Option<u16>)
        ensures
            r == url_port(self@),
    {
        port_of(self)
    }

    pub fn path(&self) -> (r: String)
        ensures
            r@ == url_path(self@),
    {
        path_of(self)
    }
}

} // verus!
