//! The three kinds of report and what becomes of each.

use vstd::prelude::*;
use serde_json::Value;
use crate::agent::Resolvers;
use crate::error::Error;
use crate::link::optional_url_view;
use crate::link::PageUrl;
use crate::link::PageUrlView;
use crate::page::Page;
use crate::page::page_of;
use crate::page::PageView;
use crate::record::Event;
use crate::record::Visit;
use crate::referrer::Referrer;
use crate::referrer::referrer_of;
use crate::referrer::referrer_view;
use crate::text::decimal_i64;
use crate::text::parse_decimal;
use crate::utm::utm_of;
use crate::utm::utm_view;
use crate::utm::UtmParam;
use crate::visitor::Visitor;
use crate::visitor::visitor_of;
use crate::visitor::VisitorView;

verus! {

/// What a report says of its sender.
#[derive(Debug)]
pub struct PubVisitor {
    pub tz: String,
    pub lang: String,
    pub screen: (i32, i32),
}

impl Default for PubVisitor {
    /// Empty texts and a screen of zero by zero.
    fn default() -> (visitor: Self)
        ensures
            visitor.tz@ == Seq::<char>::empty(),
            visitor.lang@ == Seq::<char>::empty(),
            visitor.screen == (0i32, 0i32),
    {
        PubVisitor { tz: String::new(), lang: String::new(), screen: (0, 0) }
    }
}

/// What a report says of the page: its URL and, optionally, the URL that
/// led there.
#[derive(Debug)]
pub struct PubPage {
    pub url: PageUrl,
    pub referrer: Option<PageUrl>,
}

/// The report of a visit that begins.
#[derive(Debug)]
pub struct PubVisit {
    pub session: String,
    pub visitor: PubVisitor,
    pub page: PubPage,
}

/// The report of a visit that ends.
#[derive(Debug)]
pub struct PubExit {
    pub session: String,
    pub visitor: PubVisitor,
    pub page: PubPage,
    pub dur: i32,
    /// The distance, as the bit pattern of a 64-bit float.
    pub dist: u64,
}

/// The report of a custom event.
#[derive(Debug)]
pub struct PubEvent {
    pub session: String,
    pub visitor: PubVisitor,
    pub page: PubPage,
    pub name: String,
    pub data: Value,
}

/// Whether a report with this session text and page URL is accepted.
pub open spec fn accepted(session: Seq<char>, url: PageUrlView) -> bool {
    decimal_i64(session) is Some && url.domain is Some
}

/// Whether `e` is the error that a report with this session text and page
/// URL is rejected with: a malformed session comes before a missing domain.
pub open spec fn rejected_with(session: Seq<char>, url: PageUrlView, e: Error) -> bool {
    if decimal_i64(session) is None {
        e.is_malformed_session()
    } else {
        url.domain is None && e.is_missing("domain"@)
    }
}

/// Whether `v` is a visitor that the report's attributes give under these
/// resolvers, whatever the user-agent parser answered.
pub open spec fn resolved_from(
    project: i64,
    visitor: PubVisitor,
    resolvers: Resolvers,
    v: VisitorView,
) -> bool {
    exists|browser_family: Seq<char>, platform_family: Seq<char>|
        v == #[trigger] visitor_of(
            project,
            visitor.tz@,
            visitor.lang@,
            visitor.screen,
            resolvers.timezones.region_of(visitor.tz@),
            browser_family,
            platform_family,
        )
}

/// Whether session, visitor and page are those that an accepted report
/// gives.
pub open spec fn core_of(
    project: i64,
    session_text: Seq<char>,
    visitor: PubVisitor,
    url: PageUrlView,
    resolvers: Resolvers,
    session: i64,
    v: VisitorView,
    p: PageView,
) -> bool {
    &&& decimal_i64(session_text) == Some(session)
    &&& resolved_from(project, visitor, resolvers, v)
    &&& page_of(project, url) == Some(p)
}

/// The session identifier that `text` writes in base ten.
pub fn parse_session(text: &str) -> (val: Result<i64, Error>)
    ensures
        match val {
            Ok(session) => decimal_i64(text@) == Some(session),
            Err(e) => decimal_i64(text@) is None && e.is_malformed_session(),
        },
{
    match parse_decimal(text) {
        Ok(session) => Ok(session),
        Err(e) => Err(Error::ParseIntError(e)),
    }
}

/// Session, visitor and page of a report: what the three kinds share.
fn core_entities(
    project_id: i64,
    session: &str,
    visitor: &PubVisitor,
    page: &PubPage,
    user_agent: &str,
    resolvers: &Resolvers,
) -> (val: Result<(i64, Visitor, Page), Error>)
    ensures
        val is Ok <==> accepted(session@, page.url@),
        match val {
            Ok((session_id, v, p)) => core_of(
                project_id,
                session@,
                *visitor,
                page.url@,
                *resolvers,
                session_id,
                v@,
                p@,
            ) && v.wf() && p.wf(),
            Err(e) => rejected_with(session@, page.url@, e),
        },
{
    let session_id: i64 = match parse_session(session) {
        Ok(session_id) => session_id,
        Err(e) => {
            return Err(e);
        },
    };
    let v = Visitor::new(project_id, visitor, user_agent, resolvers);
    let p = match Page::new(project_id, &page.url) {
        Ok(p) => p,
        Err(e) => {
            return Err(e);
        },
    };
    Ok((session_id, v, p))
}

/// Campaign parameters and referrer of a report, seen from its page.
fn visit_extras(project_id: i64, page: &PubPage, host: &str) -> (val: (
    Option<UtmParam>,
    Option<Referrer>,
))
    ensures
        utm_view(val.0) == utm_of(project_id, page.url@.query),
        referrer_view(val.1) == referrer_of(project_id, optional_url_view(page.referrer), host@),
        val.0 matches Some(u) ==> u.wf(),
        val.1 matches Some(r) ==> r.wf(),
{
    let utm_param = UtmParam::new(project_id, &page.url);
    let referrer = Referrer::new(project_id, page.referrer.as_ref(), host);
    (utm_param, referrer)
}

/// Whether `visit` holds the entities that the report's common part gives.
pub open spec fn visit_of(
    project: i64,
    session_text: Seq<char>,
    visitor: PubVisitor,
    page: PubPage,
    resolvers: Resolvers,
    visit: Visit,
) -> bool {
    &&& visit.project == project
    &&& core_of(
        project,
        session_text,
        visitor,
        page.url@,
        resolvers,
        visit.session,
        visit.visitor@,
        visit.page@,
    )
    &&& utm_view(visit.utm_param) == utm_of(project, page.url@.query)
    &&& referrer_view(visit.referrer) == referrer_of(
        project,
        optional_url_view(page.referrer),
        visit.page@.domain,
    )
}

/// Records the start of a visit. The report is rejected where its session
/// is no decimal 64-bit integer or its page URL has no domain.
pub fn handle_visit(project_id: i64, body: PubVisit, user_agent: &str, resolvers: &Resolvers) -> (val:
    Result<Visit, Error>)
    ensures
        val is Ok <==> accepted(body.session@, body.page.url@),
        match val {
            Ok(visit) => {
                &&& visit_of(project_id, body.session@, body.visitor, body.page, *resolvers, visit)
                &&& visit.duration is None
                &&& visit.distance is None
            },
            Err(e) => rejected_with(body.session@, body.page.url@, e),
        },
{
    let (session, visitor, page) = match core_entities(
        project_id,
        body.session.as_str(),
        &body.visitor,
        &body.page,
        user_agent,
        resolvers,
    ) {
        Ok(core) => core,
        Err(e) => {
            return Err(e);
        },
    };
    let (utm_param, referrer) = visit_extras(project_id, &body.page, page.domain.as_str());
    Ok(Visit::new(project_id, session, visitor, page, utm_param, referrer))
}

/// Records the end of a visit, with the reported duration and distance.
/// The report is rejected where its session is no decimal 64-bit integer or
/// its page URL has no domain.
pub fn handle_exit(project_id: i64, body: PubExit, user_agent: &str, resolvers: &Resolvers) -> (val:
    Result<Visit, Error>)
    ensures
        val is Ok <==> accepted(body.session@, body.page.url@),
        match val {
            Ok(visit) => {
                &&& visit_of(project_id, body.session@, body.visitor, body.page, *resolvers, visit)
                &&& visit.duration == Some(body.dur)
                &&& visit.distance == Some(body.dist)
            },
            Err(e) => rejected_with(body.session@, body.page.url@, e),
        },
{
    let (session, visitor, page) = match core_entities(
        project_id,
        body.session.as_str(),
        &body.visitor,
        &body.page,
        user_agent,
        resolvers,
    ) {
        Ok(core) => core,
        Err(e) => {
            return Err(e);
        },
    };
    let (utm_param, referrer) = visit_extras(project_id, &body.page, page.domain.as_str());
    let mut visit = Visit::new(project_id, session, visitor, page, utm_param, referrer);
    visit.duration = Some(body.dur);
    visit.distance = Some(body.dist);
    Ok(visit)
}

/// Records a custom event. The report is rejected where its session is no
/// decimal 64-bit integer or its page URL has no domain.
pub fn handle_event(project_id: i64, body: PubEvent, user_agent: &str, resolvers: &Resolvers) -> (val:
    Result<Event, Error>)
    ensures
        val is Ok <==> accepted(body.session@, body.page.url@),
        match val {
            Ok(event) => {
                &&& event.project == project_id
                &&& core_of(
                    project_id,
                    body.session@,
                    body.visitor,
                    body.page.url@,
                    *resolvers,
                    event.session,
                    event.visitor@,
                    event.page@,
                )
                &&& event.name == body.name
                &&& event.data == body.data
            },
            Err(e) => rejected_with(body.session@, body.page.url@, e),
        },
{
    let (session, visitor, page) = match core_entities(
        project_id,
        body.session.as_str(),
        &body.visitor,
        &body.page,
        user_agent,
        resolvers,
    ) {
        Ok(core) => core,
        Err(e) => {
            return Err(e);
        },
    };
    Ok(Event::new(project_id, session, visitor, page, body.name, body.data))
}

} // verus!
