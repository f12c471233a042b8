//! The referrer entity.

use vstd::prelude::*;
use crate::hash::Hasher;
use crate::identity::absorb_number;
use crate::identity::absorb_text;
use crate::identity::finish;
use crate::identity::identifier;
use crate::identity::lemma_identifier_injective;
use crate::identity::lemma_number_injective;
use crate::identity::lemma_text_state_injective;
use crate::identity::write_number;
use crate::identity::write_text;
use crate::link::PageUrl;
use crate::link::PageUrlView;
use crate::text::lowercase;
use crate::text::lowercased;
use crate::text::text_eq;

verus! {

/// The site that led a visitor to a page.
#[derive(Debug, Clone)]
pub struct Referrer {
    pub id: i64,
    pub project: i64,
    pub domain: String,
}

/// A `Referrer` as texts and numbers.
pub struct ReferrerView {
    pub id: i64,
    pub project: i64,
    pub domain: Seq<char>,
}

impl View for Referrer {
    type V = ReferrerView;

    open spec fn view(&self) -> ReferrerView {
        ReferrerView { id: self.id, project: self.project, domain: self.domain@ }
    }
}

impl Default for Referrer {
    /// The blank referrer: zeros and an empty domain.
    fn default() -> (val: Self)
        ensures
            val@ == (ReferrerView { id: 0, project: 0, domain: Seq::empty() }),
    {
        Referrer { id: 0, project: 0, domain: String::new() }
    }
}

/// The view of an optional `Referrer`.
pub open spec fn referrer_view(referrer: Option<Referrer>) -> Option<ReferrerView> {
    match referrer {
        Some(r) => Some(r@),
        None => None,
    }
}

/// The view of an optional URL.
pub open spec fn url_view(url: Option<&PageUrl>) -> Option<PageUrlView> {
    match url {
        Some(u) => Some(u@),
        None => None,
    }
}

/// The identifier that a referrer's attributes give: project, then domain.
pub open spec fn referrer_identity(r: ReferrerView) -> i64 {
    let s = absorb_number(0, r.project as int);
    let s = absorb_text(s, r.domain);
    identifier(s)
}

/// The referrer with a domain that is already in lower case, seen from a
/// page whose host, in lower case too, is `host`: none where the two are
/// the same.
pub open spec fn referrer_from_lowercase(project: i64, domain: Seq<char>, host: Seq<char>) -> Option<
    ReferrerView,
> {
    if domain == host {
        None
    } else {
        let bare = ReferrerView { id: 0, project, domain };
        Some(ReferrerView { id: referrer_identity(bare), ..bare })
    }
}

/// The referrer that a report names, seen from a page at `host`: none where
/// no URL was given, where the URL has no domain, or where its domain is the
/// page's own, letter case aside. The domain is kept in lower case.
pub open spec fn referrer_of(project: i64, referrer: Option<PageUrlView>, host: Seq<char>) -> Option<
    ReferrerView,
> {
    match referrer {
        Some(url) => match url.domain {
            Some(domain) => referrer_from_lowercase(project, lowercased(domain), lowercased(host)),
            None => None,
        },
        None => None,
    }
}

/// A referrer whose domain is the page's own host, letter case aside, is no
/// referrer.
pub proof fn lemma_referrer_self_excluded(project: i64, referrer: PageUrlView, host: Seq<char>)
    requires
        referrer.domain matches Some(domain) && lowercased(domain) == lowercased(host),
    ensures
        referrer_of(project, Some(referrer), host) is None,
{
}

/// A referrer that exists has the lower-case form of the URL's domain, which
/// is not the lower-case form of the page's host.
pub proof fn lemma_referrer_present(project: i64, referrer: Option<PageUrlView>, host: Seq<char>)
    requires
        referrer_of(project, referrer, host) is Some,
    ensures
        referrer matches Some(url) && url.domain matches Some(domain) && referrer_of(
            project,
            referrer,
            host,
        ).unwrap().domain == lowercased(domain) && lowercased(domain) != lowercased(host),
{
}

/// Referrers with the same project and the same domain have the same
/// identifier.
pub proof fn lemma_referrer_identity_deterministic(a: Referrer, b: Referrer)
    requires
        a.wf(),
        b.wf(),
        a@.project == b@.project,
        a@.domain == b@.domain,
    ensures
        a.id == b.id,
{
}

/// The project never collides: referrers with the same domain and the same
/// identifier belong to the same project.
pub proof fn lemma_referrer_project_matters(a: ReferrerView, b: ReferrerView)
    requires
        a.domain == b.domain,
        referrer_identity(a) == referrer_identity(b),
    ensures
        a.project == b.project,
{
    let a0 = absorb_number(0, a.project as int);
    let b0 = absorb_number(0, b.project as int);
    lemma_identifier_injective(absorb_text(a0, a.domain), absorb_text(b0, b.domain));
    lemma_text_state_injective(a0, b0, a.domain);
    lemma_number_injective(0, a.project, b.project);
}

impl Referrer {
    /// Whether the identifier is the one that the attributes give.
    pub open spec fn wf(&self) -> bool {
        self.id == referrer_identity(self@)
    }

    /// The referrer with the lower-case domain `domain`, unless that is the
    /// page's own host `host`, given in lower case too.
    pub fn from_lowercase(project_id: i64, domain: String, host: &str) -> (val: Option<Self>)
        ensures
            referrer_view(val) == referrer_from_lowercase(project_id, domain@, host@),
            val matches Some(referrer) ==> referrer.wf(),
    {
        if text_eq(domain.as_str(), host) {
            return None;
        }
        let mut hasher = Hasher::new();
        write_number(&mut hasher, project_id);
        write_text(&mut hasher, domain.as_str());
        let id: i64 = finish(hasher);

        Some(Referrer { id, project: project_id, domain })
    }

    /// The referrer that `referrer` names, seen from a page at `host`.
    pub fn new(project_id: i64, referrer: Option<&PageUrl>, host: &str) -> (val: Option<Self>)
        ensures
            referrer_view(val) == referrer_of(project_id, url_view(referrer), host@),
            val matches Some(r) ==> r.wf(),
    {
        let url = match referrer {
            Some(url) => url,
            None => {
                return None;
            },
        };
        let domain = match &url.domain {
            Some(domain) => lowercase(domain.as_str()),
            None => {
                return None;
            },
        };
        let host = lowercase(host);
        Referrer::from_lowercase(project_id, domain, host.as_str())
    }
}

} // verus!
