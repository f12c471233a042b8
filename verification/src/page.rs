//! The page entity.

use vstd::prelude::*;
use crate::error::Error;
use crate::hash::Hasher;
use crate::identity::absorb_number;
use crate::identity::absorb_text;
use crate::identity::finish;
use crate::identity::identifier;
use crate::identity::lemma_identifier_injective;
use crate::identity::lemma_number_injective;
use crate::identity::lemma_text_state_injective;
use crate::identity::write_number;
use crate::identity::write_text;
use crate::link::PageUrl;
use crate::link::PageUrlView;

verus! {

/// A page of a project: the domain and the path of its URL.
#[derive(Debug, Clone)]
pub struct Page {
    pub id: i64,
    pub project: i64,
    pub domain: String,
    pub path: String,
}

/// A `Page` as texts and numbers.
pub struct PageView {
    pub id: i64,
    pub project: i64,
    pub domain: Seq<char>,
    pub path: Seq<char>,
}

impl View for Page {
    type V = PageView;

    open spec fn view(&self) -> PageView {
        PageView { id: self.id, project: self.project, domain: self.domain@, path: self.path@ }
    }
}

impl Default for Page {
    /// The blank page: zeros and empty texts.
    fn default() -> (val: Self)
        ensures
            val@ == (PageView { id: 0, project: 0, domain: Seq::empty(), path: Seq::empty() }),
    {
        Page { id: 0, project: 0, domain: String::new(), path: String::new() }
    }
}

/// The identifier that a page's attributes give: project, domain and path
/// enter the fingerprint in this order.
pub open spec fn page_identity(p: PageView) -> i64 {
    let s = absorb_number(0, p.project as int);
    let s = absorb_text(s, p.domain);
    let s = absorb_text(s, p.path);
    identifier(s)
}

/// The page that a URL names, if the URL has a domain.
pub open spec fn page_of(project: i64, url: PageUrlView) -> Option<PageView> {
    match url.domain {
        Some(domain) => {
            let bare = PageView { id: 0, project, domain, path: url.path };
            Some(PageView { id: page_identity(bare), ..bare })
        },
        None => None,
    }
}

/// Pages with the same project, domain and path have the same identifier.
pub proof fn lemma_page_identity_deterministic(a: Page, b: Page)
    requires
        a.wf(),
        b.wf(),
        a@.project == b@.project,
        a@.domain == b@.domain,
        a@.path == b@.path,
    ensures
        a.id == b.id,
{
}

/// The project never collides: pages with the same domain and path and the
/// same identifier belong to the same project.
pub proof fn lemma_page_project_matters(a: PageView, b: PageView)
    requires
        a.domain == b.domain,
        a.path == b.path,
        page_identity(a) == page_identity(b),
    ensures
        a.project == b.project,
{
    let a0 = absorb_number(0, a.project as int);
    let b0 = absorb_number(0, b.project as int);
    let a1 = absorb_text(a0, a.domain);
    let b1 = absorb_text(b0, b.domain);
    lemma_identifier_injective(absorb_text(a1, a.path), absorb_text(b1, b.path));
    lemma_text_state_injective(a1, b1, a.path);
    lemma_text_state_injective(a0, b0, a.domain);
    lemma_number_injective(0, a.project, b.project);
}

impl Page {
    /// Whether the identifier is the one that the attributes give.
    pub open spec fn wf(&self) -> bool {
        self.id == page_identity(self@)
    }

    /// The page that `url` names. A URL without a domain names none: the
    /// error then says that the domain is missing.
    pub fn new(project_id: i64, url: &PageUrl) -> (val: Result<Self, Error>)
        ensures
            match val {
                Ok(page) => page_of(project_id, url@) == Some(page@) && page.wf(),
                Err(e) => page_of(project_id, url@) is None && e.is_missing("domain"@),
            },
    {
        let domain = match &url.domain {
            Some(domain) => domain.clone(),
            None => {
                return Err(Error::Missing("domain".to_owned()));
            },
        };
        let path = url.path.clone();

        let mut hasher = Hasher::new();
        write_number(&mut hasher, project_id);
        write_text(&mut hasher, domain.as_str());
        write_text(&mut hasher, path.as_str());
        let id: i64 = finish(hasher);

        Ok(Page { id, project: project_id, domain, path })
    }
}

} // verus!
