//! Absolute URLs as the `url` crate parses them, reduced to the parts the
//! conversion rules read.

use vstd::prelude::*;
use vstd::string::*;

verus! {

/// The parts of a parsed URL: its lower-cased scheme, its authority (user
/// information, host, and port as written), its host if it has one, its
/// percent-encoded path, and its decoded query pairs in order.
#[derive(Debug)]
pub struct UrlParts {
    pub scheme: String,
    pub authority: String,
    pub host: Option<String>,
    pub path: String,
    pub query_pairs: Vec<(String, String)>,
}

/// The model of the parts of a parsed URL.
pub struct UrlPartsView {
    pub scheme: Seq<char>,
    pub authority: Seq<char>,
    pub host: Option<Seq<char>>,
    pub path: Seq<char>,
    pub query_pairs: Seq<(Seq<char>, Seq<char>)>,
}

/// The model of a list of string pairs.
pub open spec fn pairs_view(pairs: Seq<(String, String)>) -> Seq<(Seq<char>, Seq<char>)> {
    pairs.map_values(|p: (String, String)| (p.0@, p.1@))
}

/// The model of an optional string.
pub open spec fn opt_view(s: Option<String>) -> Option<Seq<char>> {
    match s {
        Some(s) => Some(s@),
        None => None,
    }
}

impl View for UrlParts {
    type V = UrlPartsView;

    open spec fn view(&self) -> UrlPartsView {
        UrlPartsView {
            scheme: self.scheme@,
            authority: self.authority@,
            host: opt_view(self.host),
            path: self.path@,
            query_pairs: pairs_view(self.query_pairs@),
        }
    }
}

/// What `url::Url::parse` gives for `input`: the parts of the URL, or the
/// text of the parse error.
pub uninterp spec fn parsed_url(input: Seq<char>) -> Result<UrlPartsView, Seq<char>>;

/// Calls `url::Url::parse` and reads back `scheme`, `authority`, `host_str`,
/// `path`, and `query_pairs`, or renders the `ParseError`. The contract names that
/// outcome; how the WHATWG URL standard parses is left unstated.
#[verifier::external_body]
pub(crate) fn parse_url(input: &str) -> (r: Result<UrlParts, String>)
    ensures
        match parsed_url(input@) {
            Ok(parts) => r matches Ok(p) && p@ == parts,
            Err(message) => r matches Err(m) && m@ == message,
        },
{
    match url::Url::parse(input) {
        Ok(url) => Ok(UrlParts {
            scheme: url.scheme().to_owned(),
            authority: url.authority().to_owned(),
            host: url.host_str().map(str::to_owned),
            path: url.path().to_owned(),
            query_pairs: url.query_pairs().map(|(k, v)| (k.into_owned(), v.into_owned())).collect(),
        }),
        Err(error) => Err(error.to_string()),
    }
}

/// The origin an HTTP blob store is built on: `scheme://authority`.
pub open spec fn http_origin(url: UrlPartsView) -> Seq<char> {
    url.scheme + "://"@ + url.authority
}

/// The key under which Lance caches the HTTP store of a URL:
/// `scheme$authority`.
pub open spec fn http_store_prefix(url: UrlPartsView) -> Seq<char> {
    url.scheme + "$"@ + url.authority
}

/// The origin of the HTTP store serving a blob URL.
pub fn origin_of(url: &UrlParts) -> (r: String)
    ensures
        r@ == http_origin(url@),
{
    crate::text::concat3(url.scheme.as_str(), "://", url.authority.as_str())
}

/// The cache key of the HTTP store serving a blob URL.
pub fn store_prefix_of(url: &UrlParts) -> (r: String)
    ensures
        r@ == http_store_prefix(url@),
{
    crate::text::concat3(url.scheme.as_str(), "$", url.authority.as_str())
}

} // verus!
