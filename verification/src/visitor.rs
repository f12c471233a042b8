//! The visitor entity.

use vstd::prelude::*;
use crate::agent::parse_families;
use crate::agent::Resolvers;
use crate::api::PubVisitor;
use crate::hash::Hasher;
use crate::identity::absorb_number;
use crate::identity::absorb_optional;
use crate::identity::absorb_text;
use crate::identity::finish;
use crate::identity::identifier;
use crate::identity::lemma_identifier_injective;
use crate::identity::lemma_number_injective;
use crate::identity::lemma_number_state_injective;
use crate::identity::lemma_optional_state_injective;
use crate::identity::lemma_text_state_injective;
use crate::identity::write_number;
use crate::identity::write_optional;
use crate::identity::write_text;
use crate::table::text_view;

verus! {

/// Who sent a report, as far as the report tells.
#[derive(Debug, Clone)]
pub struct Visitor {
    pub id: i64,
    pub project: i64,
    pub region: Option<String>,
    pub timezone: String,
    pub language: String,
    pub browser: Option<String>,
    pub platform: Option<String>,
    pub width: i32,
    pub height: i32,
}

/// A `Visitor` as texts and numbers.
pub struct VisitorView {
    pub id: i64,
    pub project: i64,
    pub region: Option<Seq<char>>,
    pub timezone: Seq<char>,
    pub language: Seq<char>,
    pub browser: Option<Seq<char>>,
    pub platform: Option<Seq<char>>,
    pub width: i32,
    pub height: i32,
}

impl View for Visitor {
    type V = VisitorView;

    open spec fn view(&self) -> VisitorView {
        VisitorView {
            id: self.id,
            project: self.project,
            region: text_view(self.region),
            timezone: self.timezone@,
            language: self.language@,
            browser: text_view(self.browser),
            platform: text_view(self.platform),
            width: self.width,
            height: self.height,
        }
    }
}

impl Default for Visitor {
    /// The blank visitor: zeros, empty texts, nothing known.
    fn default() -> (val: Self)
        ensures
            val@ == (VisitorView {
                id: 0,
                project: 0,
                region: None,
                timezone: Seq::empty(),
                language: Seq::empty(),
                browser: None,
                platform: None,
                width: 0,
                height: 0,
            }),
    {
        Visitor {
            id: 0,
            project: 0,
            region: None,
            timezone: String::new(),
            language: String::new(),
            browser: None,
            platform: None,
            width: 0,
            height: 0,
        }
    }
}

/// The identifier that a visitor's attributes give: project, region if
/// known, timezone, language, browser and platform if known, width and
/// height enter the fingerprint in this order.
pub open spec fn visitor_identity(v: VisitorView) -> i64 {
    let s = absorb_number(0, v.project as int);
    let s = absorb_optional(s, v.region);
    let s = absorb_text(s, v.timezone);
    let s = absorb_text(s, v.language);
    let s = absorb_optional(s, v.browser);
    let s = absorb_optional(s, v.platform);
    let s = absorb_number(s, v.width as int);
    let s = absorb_number(s, v.height as int);
    identifier(s)
}

/// A family as the resolver reports it: the empty text stands for unknown.
pub open spec fn family_view(family: Seq<char>) -> Option<Seq<char>> {
    if family.len() == 0 {
        None
    } else {
        Some(family)
    }
}

/// The visitor that the reported attributes and the resolved ones make.
pub open spec fn visitor_of(
    project: i64,
    timezone: Seq<char>,
    language: Seq<char>,
    screen: (i32, i32),
    region: Option<Seq<char>>,
    browser_family: Seq<char>,
    platform_family: Seq<char>,
) -> VisitorView {
    let bare = VisitorView {
        id: 0,
        project,
        region,
        timezone,
        language,
        browser: family_view(browser_family),
        platform: family_view(platform_family),
        width: screen.0,
        height: screen.1,
    };
    VisitorView { id: visitor_identity(bare), ..bare }
}

/// `None` for the empty family, the family itself otherwise.
fn known_family(family: String) -> (known: Option<String>)
    ensures
        text_view(known) == family_view(family@),
{
    if family.as_str().is_empty() {
        None
    } else {
        Some(family)
    }
}

/// Visitors with the same attributes have the same identifier.
pub proof fn lemma_visitor_identity_deterministic(a: Visitor, b: Visitor)
    requires
        a.wf(),
        b.wf(),
        a@.project == b@.project,
        a@.region == b@.region,
        a@.timezone == b@.timezone,
        a@.language == b@.language,
        a@.browser == b@.browser,
        a@.platform == b@.platform,
        a@.width == b@.width,
        a@.height == b@.height,
    ensures
        a.id == b.id,
{
}

/// A visitor never has the empty text for its browser or its platform: an
/// unknown family is absent.
pub proof fn lemma_visitor_no_empty_family(
    project: i64,
    timezone: Seq<char>,
    language: Seq<char>,
    screen: (i32, i32),
    region: Option<Seq<char>>,
    browser_family: Seq<char>,
    platform_family: Seq<char>,
)
    ensures
        ({
            let v = visitor_of(
                project,
                timezone,
                language,
                screen,
                region,
                browser_family,
                platform_family,
            );
            &&& v.browser != Some(Seq::<char>::empty())
            &&& v.platform != Some(Seq::<char>::empty())
        }),
{
    assert(Seq::<char>::empty().len() == 0);
}

/// The project never collides: visitors with the same attributes and the
/// same identifier belong to the same project.
pub proof fn lemma_visitor_project_matters(a: VisitorView, b: VisitorView)
    requires
        a.region == b.region,
        a.timezone == b.timezone,
        a.language == b.language,
        a.browser == b.browser,
        a.platform == b.platform,
        a.width == b.width,
        a.height == b.height,
        visitor_identity(a) == visitor_identity(b),
    ensures
        a.project == b.project,
{
    let a0 = absorb_number(0, a.project as int);
    let b0 = absorb_number(0, b.project as int);
    let a1 = absorb_optional(a0, a.region);
    let b1 = absorb_optional(b0, b.region);
    let a2 = absorb_text(a1, a.timezone);
    let b2 = absorb_text(b1, b.timezone);
    let a3 = absorb_text(a2, a.language);
    let b3 = absorb_text(b2, b.language);
    let a4 = absorb_optional(a3, a.browser);
    let b4 = absorb_optional(b3, b.browser);
    let a5 = absorb_optional(a4, a.platform);
    let b5 = absorb_optional(b4, b.platform);
    let a6 = absorb_number(a5, a.width as int);
    let b6 = absorb_number(b5, b.width as int);
    lemma_identifier_injective(
        absorb_number(a6, a.height as int),
        absorb_number(b6, b.height as int),
    );
    lemma_number_state_injective(a6, b6, a.height as int);
    lemma_number_state_injective(a5, b5, a.width as int);
    lemma_optional_state_injective(a4, b4, a.platform);
    lemma_optional_state_injective(a3, b3, a.browser);
    lemma_text_state_injective(a2, b2, a.language);
    lemma_text_state_injective(a1, b1, a.timezone);
    lemma_optional_state_injective(a0, b0, a.region);
    lemma_number_injective(0, a.project, b.project);
}

/// The screen never collides: visitors that differ in nothing but the
/// height of the screen have different identifiers.
pub proof fn lemma_visitor_height_matters(a: VisitorView, b: VisitorView)
    requires
        a.project == b.project,
        a.region == b.region,
        a.timezone == b.timezone,
        a.language == b.language,
        a.browser == b.browser,
        a.platform == b.platform,
        a.width == b.width,
        visitor_identity(a) == visitor_identity(b),
    ensures
        a.height == b.height,
{
    let s = absorb_number(0, a.project as int);
    let s = absorb_optional(s, a.region);
    let s = absorb_text(s, a.timezone);
    let s = absorb_text(s, a.language);
    let s = absorb_optional(s, a.browser);
    let s = absorb_optional(s, a.platform);
    let s = absorb_number(s, a.width as int);
    lemma_identifier_injective(
        absorb_number(s, a.height as int),
        absorb_number(s, b.height as int),
    );
    lemma_number_injective(s, a.height as i64, b.height as i64);
}

impl Visitor {
    /// Whether the identifier is the one that the attributes give.
    pub open spec fn wf(&self) -> bool {
        self.id == visitor_identity(self@)
    }

    /// The visitor of a report whose timezone and user agent have been
    /// resolved to `region` and to the two families.
    pub fn from_resolved(
        project_id: i64,
        visitor: &PubVisitor,
        region: Option<String>,
        browser_family: String,
        platform_family: String,
    ) -> (val: Self)
        ensures
            val@ == visitor_of(
                project_id,
                visitor.tz@,
                visitor.lang@,
                visitor.screen,
                text_view(region),
                browser_family@,
                platform_family@,
            ),
            val.wf(),
    {
        let browser = known_family(browser_family);
        let platform = known_family(platform_family);
        let timezone = visitor.tz.clone();
        let language = visitor.lang.clone();
        let width: i32 = visitor.screen.0;
        let height: i32 = visitor.screen.1;

        let mut hasher = Hasher::new();
        write_number(&mut hasher, project_id);
        write_optional(&mut hasher, &region);
        write_text(&mut hasher, timezone.as_str());
        write_text(&mut hasher, language.as_str());
        write_optional(&mut hasher, &browser);
        write_optional(&mut hasher, &platform);
        write_number(&mut hasher, width as i64);
        write_number(&mut hasher, height as i64);
        let id: i64 = finish(hasher);

        Visitor { id, project: project_id, region, timezone, language, browser, platform, width, height }
    }

    /// The visitor of a report: the region comes from the timezone table,
    /// browser and platform from the user-agent parser, whose answer is not
    /// known beforehand.
    pub fn new(project_id: i64, visitor: &PubVisitor, user_agent: &str, resolvers: &Resolvers) -> (val: Self)
        ensures
            exists|browser_family: Seq<char>, platform_family: Seq<char>|
                val@ == #[trigger] visitor_of(
                    project_id,
                    visitor.tz@,
                    visitor.lang@,
                    visitor.screen,
                    resolvers.timezones.region_of(visitor.tz@),
                    browser_family,
                    platform_family,
                ),
            val.wf(),
    {
        let region = resolvers.timezones.get(visitor.tz.as_str());
        let (browser_family, platform_family) = parse_families(&resolvers.agents, user_agent);
        Visitor::from_resolved(project_id, visitor, region, browser_family, platform_family)
    }
}

} // verus!
