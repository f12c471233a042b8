//! What the pipeline reads of a URL.

use vstd::prelude::*;
use url::Url;
use crate::table::pairs_view;
use crate::table::PairSeq;
use crate::table::text_view;

verus! {

/// `url::Url`: a parsed URL, of which nothing is seen but through the calls
/// below.
#[verifier::external_type_specification]
#[verifier::external_body]
pub struct ExUrl(Url);

/// The parts of a URL that take part in an entity.
#[derive(Debug, Clone)]
pub struct PageUrl {
    /// The host, where the URL has one and it is a domain name.
    pub domain: Option<String>,
    /// The path, percent-encoded.
    pub path: String,
    /// The pairs of the query string, decoded, in the order of the URL.
    pub query: Vec<(String, String)>,
}

/// A `PageUrl` as texts.
pub struct PageUrlView {
    pub domain: Option<Seq<char>>,
    pub path: Seq<char>,
    pub query: PairSeq,
}

impl View for PageUrl {
    type V = PageUrlView;

    open spec fn view(&self) -> PageUrlView {
        PageUrlView {
            domain: text_view(self.domain),
            path: self.path@,
            query: pairs_view(self.query@),
        }
    }
}

/// The view of an optional URL.
pub open spec fn optional_url_view(url: Option<PageUrl>) -> Option<PageUrlView> {
    match url {
        Some(u) => Some(u@),
        None => None,
    }
}

/// Calls `Url::domain`, which gives the host if it is a domain name. Trusted:
/// nothing is claimed of the result.
#[verifier::external_body]
pub(crate) fn url_domain(url: &Url) -> (domain: Option<String>) {
    url.domain().map(str::to_owned)
}

/// Calls `Url::path`. Trusted: nothing is claimed of the result.
#[verifier::external_body]
pub(crate) fn url_path(url: &Url) -> (path: String) {
    url.path().to_owned()
}

/// Calls `Url::query_pairs` and collects the decoded pairs in their order.
/// Trusted: nothing is claimed of the result.
#[verifier::external_body]
pub(crate) fn url_query_pairs(url: &Url) -> (pairs: Vec<(String, String)>) {
    url.query_pairs().map(|(key, value)| (key.into_owned(), value.into_owned())).collect()
}

impl PageUrl {
    /// Reads domain, path and query pairs off a parsed URL.
    pub fn from_url(url: &Url) -> (parts: Self) {
        let domain = url_domain(url);
        let path = url_path(url);
        let query = url_query_pairs(url);
        PageUrl { domain, path, query }
    }
}

} // verus!
