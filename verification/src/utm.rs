//! The campaign parameters of a page URL.

use vstd::prelude::*;
use crate::hash::Hasher;
use crate::identity::absorb_number;
use crate::identity::absorb_optional;
use crate::identity::absorb_text;
use crate::identity::finish;
use crate::identity::identifier;
use crate::identity::lemma_identifier_injective;
use crate::identity::lemma_number_injective;
use crate::identity::lemma_optional_state_injective;
use crate::identity::write_number;
use crate::identity::write_optional;
use crate::link::PageUrl;
use crate::table::find_last;
use crate::table::last_value;
use crate::table::lemma_last_value_none;
use crate::table::PairSeq;
use crate::table::text_view;

verus! {

/// The campaign parameters that a page URL carries in its query string.
#[derive(Debug, Clone)]
pub struct UtmParam {
    pub id: i64,
    pub project: i64,
    pub campaign: Option<String>,
    pub content: Option<String>,
    pub medium: Option<String>,
    pub source: Option<String>,
    pub term: Option<String>,
}

/// A `UtmParam` as texts and numbers.
pub struct UtmParamView {
    pub id: i64,
    pub project: i64,
    pub campaign: Option<Seq<char>>,
    pub content: Option<Seq<char>>,
    pub medium: Option<Seq<char>>,
    pub source: Option<Seq<char>>,
    pub term: Option<Seq<char>>,
}

impl View for UtmParam {
    type V = UtmParamView;

    open spec fn view(&self) -> UtmParamView {
        UtmParamView {
            id: self.id,
            project: self.project,
            campaign: text_view(self.campaign),
            content: text_view(self.content),
            medium: text_view(self.medium),
            source: text_view(self.source),
            term: text_view(self.term),
        }
    }
}

impl Default for UtmParam {
    /// The blank record: zeros and no parameter.
    fn default() -> (val: Self)
        ensures
            val@ == (UtmParamView {
                id: 0,
                project: 0,
                campaign: None,
                content: None,
                medium: None,
                source: None,
                term: None,
            }),
    {
        UtmParam {
            id: 0,
            project: 0,
            campaign: None,
            content: None,
            medium: None,
            source: None,
            term: None,
        }
    }
}

/// The view of an optional `UtmParam`.
pub open spec fn utm_view(utm: Option<UtmParam>) -> Option<UtmParamView> {
    match utm {
        Some(u) => Some(u@),
        None => None,
    }
}

/// Whether `key` is one of the five keys that are read.
pub open spec fn recognized(key: Seq<char>) -> bool {
    key == "campaign"@ || key == "content"@ || key == "medium"@ || key == "source"@ || key
        == "term"@
}

/// The identifier that campaign parameters give: the project, then
/// campaign, content, medium, source and term, each only if it is there.
pub open spec fn utm_identity(u: UtmParamView) -> i64 {
    let s = absorb_number(0, u.project as int);
    let s = absorb_optional(s, u.campaign);
    let s = absorb_optional(s, u.content);
    let s = absorb_optional(s, u.medium);
    let s = absorb_optional(s, u.source);
    let s = absorb_optional(s, u.term);
    identifier(s)
}

/// The campaign parameters that a query string carries: for each of the five
/// keys the value of its last pair. A query without any of them carries
/// none.
pub open spec fn utm_of(project: i64, query: PairSeq) -> Option<UtmParamView> {
    let bare = UtmParamView {
        id: 0,
        project,
        campaign: last_value(query, "campaign"@),
        content: last_value(query, "content"@),
        medium: last_value(query, "medium"@),
        source: last_value(query, "source"@),
        term: last_value(query, "term"@),
    };
    if bare.campaign is None && bare.content is None && bare.medium is None && bare.source is None
        && bare.term is None {
        None
    } else {
        Some(UtmParamView { id: utm_identity(bare), ..bare })
    }
}

/// The five keys are five different texts.
pub proof fn lemma_keys_differ()
    ensures
        "campaign"@ != "content"@,
        "campaign"@ != "medium"@,
        "campaign"@ != "source"@,
        "campaign"@ != "term"@,
        "content"@ != "medium"@,
        "content"@ != "source"@,
        "content"@ != "term"@,
        "medium"@ != "source"@,
        "medium"@ != "term"@,
        "source"@ != "term"@,
{
    reveal_strlit("campaign");
    reveal_strlit("content");
    reveal_strlit("medium");
    reveal_strlit("source");
    reveal_strlit("term");
    assert("campaign"@.len() == 8);
    assert("content"@.len() == 7);
    assert("medium"@.len() == 6);
    assert("source"@.len() == 6);
    assert("term"@.len() == 4);
    assert("medium"@[0] == 'm');
    assert("source"@[0] == 's');
}

/// A query string carries campaign parameters exactly if one of its keys is
/// among the five that are read.
pub proof fn lemma_utm_presence(project: i64, query: PairSeq)
    ensures
        utm_of(project, query) is Some <==> exists|i: int|
            0 <= i < query.len() && recognized((#[trigger] query[i]).0),
{
    lemma_last_value_none(query, "campaign"@);
    lemma_last_value_none(query, "content"@);
    lemma_last_value_none(query, "medium"@);
    lemma_last_value_none(query, "source"@);
    lemma_last_value_none(query, "term"@);
    if utm_of(project, query) is None {
        assert forall|i: int| 0 <= i < query.len() implies !recognized((#[trigger] query[i]).0) by {}
    }
}

/// The campaign parameters of a query string that is the one pair
/// `campaign=value`: the campaign alone, with an identifier that the project
/// and `value` give.
pub proof fn lemma_utm_campaign_only(project: i64, query: PairSeq, value: Seq<char>)
    requires
        query.len() == 1,
        query[0] == ("campaign"@, value),
    ensures
        utm_of(project, query) == Some(
            UtmParamView {
                id: identifier(absorb_text(absorb_number(0, project as int), value)),
                project,
                campaign: Some(value),
                content: None,
                medium: None,
                source: None,
                term: None,
            },
        ),
{
    lemma_keys_differ();
    lemma_last_value_none(query, "content"@);
    lemma_last_value_none(query, "medium"@);
    lemma_last_value_none(query, "source"@);
    lemma_last_value_none(query, "term"@);
    assert(query.last() == query[0]);
}

/// Campaign parameters with the same project and the same five values have
/// the same identifier.
pub proof fn lemma_utm_identity_deterministic(a: UtmParam, b: UtmParam)
    requires
        a.wf(),
        b.wf(),
        a@.project == b@.project,
        a@.campaign == b@.campaign,
        a@.content == b@.content,
        a@.medium == b@.medium,
        a@.source == b@.source,
        a@.term == b@.term,
    ensures
        a.id == b.id,
{
}

/// Two query strings that hold the same last value for each of the five
/// keys carry the same campaign parameters, in whatever order and among
/// whatever other pairs the keys stand.
pub proof fn lemma_utm_ignores_query_order(project: i64, first: PairSeq, second: PairSeq)
    requires
        forall|key: Seq<char>|
            recognized(key) ==> #[trigger] last_value(first, key) == last_value(second, key),
    ensures
        utm_of(project, first) == utm_of(project, second),
{
    assert(recognized("campaign"@));
    assert(recognized("content"@));
    assert(recognized("medium"@));
    assert(recognized("source"@));
    assert(recognized("term"@));
}

/// The project never collides: campaign parameters with the same five
/// values and the same identifier belong to the same project.
pub proof fn lemma_utm_project_matters(a: UtmParamView, b: UtmParamView)
    requires
        a.campaign == b.campaign,
        a.content == b.content,
        a.medium == b.medium,
        a.source == b.source,
        a.term == b.term,
        utm_identity(a) == utm_identity(b),
    ensures
        a.project == b.project,
{
    let a0 = absorb_number(0, a.project as int);
    let b0 = absorb_number(0, b.project as int);
    let a1 = absorb_optional(a0, a.campaign);
    let b1 = absorb_optional(b0, b.campaign);
    let a2 = absorb_optional(a1, a.content);
    let b2 = absorb_optional(b1, b.content);
    let a3 = absorb_optional(a2, a.medium);
    let b3 = absorb_optional(b2, b.medium);
    let a4 = absorb_optional(a3, a.source);
    let b4 = absorb_optional(b3, b.source);
    lemma_identifier_injective(absorb_optional(a4, a.term), absorb_optional(b4, b.term));
    lemma_optional_state_injective(a4, b4, a.term);
    lemma_optional_state_injective(a3, b3, a.source);
    lemma_optional_state_injective(a2, b2, a.medium);
    lemma_optional_state_injective(a1, b1, a.content);
    lemma_optional_state_injective(a0, b0, a.campaign);
    lemma_number_injective(0, a.project, b.project);
}

impl UtmParam {
    /// Whether the identifier is the one that the attributes give.
    pub open spec fn wf(&self) -> bool {
        self.id == utm_identity(self@)
    }

    /// The campaign parameters of the page URL `url`, if it carries any.
    pub fn new(project_id: i64, url: &PageUrl) -> (val: Option<Self>)
        ensures
            utm_view(val) == utm_of(project_id, url@.query),
            val matches Some(utm) ==> utm.wf(),
    {
        let campaign = find_last(&url.query, "campaign");
        let content = find_last(&url.query, "content");
        let medium = find_last(&url.query, "medium");
        let source = find_last(&url.query, "source");
        let term = find_last(&url.query, "term");

        if campaign.is_none() && content.is_none() && medium.is_none() && source.is_none()
            && term.is_none() {
            return None;
        }
        let mut hasher = Hasher::new();
        write_number(&mut hasher, project_id);
        write_optional(&mut hasher, &campaign);
        write_optional(&mut hasher, &content);
        write_optional(&mut hasher, &medium);
        write_optional(&mut hasher, &source);
        write_optional(&mut hasher, &term);
        let id: i64 = finish(hasher);

        Some(UtmParam { id, project: project_id, campaign, content, medium, source, term })
    }
}

} // verus!
