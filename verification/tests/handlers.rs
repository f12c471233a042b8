use analytics_core::agent::Resolvers;
use analytics_core::api::handle_event;
use analytics_core::api::handle_exit;
use analytics_core::api::handle_visit;
use analytics_core::api::parse_session;
use analytics_core::api::PubEvent;
use analytics_core::api::PubExit;
use analytics_core::api::PubPage;
use analytics_core::api::PubVisit;
use analytics_core::api::PubVisitor;
use analytics_core::clock::Timestamp;
use analytics_core::link::PageUrl;
use analytics_core::table::TimezoneTable;
use analytics_core::Error;
use analytics_core::Event;
use analytics_core::Page;
use analytics_core::Visit;
use analytics_core::Visitor;
use serde_json::Value;
use uaparser::UserAgentParser;
use url::Url;

const AGENT_PATTERNS: &str = "
user_agent_parsers:
  - regex: '(Chromium|Chrome)/(\\d+)\\.(\\d+)(?:\\.(\\d+)|)'
os_parsers:
  - regex: '(Linux)(?:[ /](\\d+)\\.(\\d+)(?:\\.(\\d+)|)|)'
device_parsers:
  - regex: '(iPhone)'
";

const CHROME: &str = "Mozilla/5.0 (X11; Linux x86_64) AppleWebKit/537.36 (KHTML, like Gecko) Chrome/112.0.0.0 Safari/537.36";

fn lookup() -> Resolvers {
    let mut timezones = TimezoneTable::new();
    timezones.insert("Europe/Zurich".to_string(), "CH".to_string());
    Resolvers {
        timezones,
        agents: UserAgentParser::from_bytes(AGENT_PATTERNS.as_bytes()).expect("patterns are valid"),
    }
}

fn sender() -> PubVisitor {
    PubVisitor { tz: "Europe/Zurich".to_string(), lang: "en".to_string(), screen: (1920, 1080) }
}

fn parts(text: &str) -> PageUrl {
    PageUrl::from_url(&Url::parse(text).expect("url is valid"))
}

fn page(url: &str, referrer: Option<&str>) -> PubPage {
    PubPage { url: parts(url), referrer: referrer.map(parts) }
}

fn visit(session: &str, url: &str, referrer: Option<&str>) -> PubVisit {
    PubVisit { session: session.to_string(), visitor: sender(), page: page(url, referrer) }
}

fn exit(session: &str, url: &str) -> PubExit {
    PubExit {
        session: session.to_string(),
        visitor: sender(),
        page: page(url, None),
        dur: 1500,
        dist: 0.75f64.to_bits(),
    }
}

fn event(session: &str, url: &str) -> PubEvent {
    PubEvent {
        session: session.to_string(),
        visitor: sender(),
        page: page(url, None),
        name: "signup".to_string(),
        data: Value::String("blue".to_string()),
    }
}

#[test]
fn visit_end_to_end() {
    let body = visit("42", "https://shop.example/p?campaign=spring", None);
    let visit = handle_visit(7, body, CHROME, &lookup()).expect("report is accepted");
    assert_eq!(visit.project, 7);
    assert_eq!(visit.session, 42);
    assert_eq!(visit.visitor.region, Some("CH".to_string()));
    assert_eq!(visit.visitor.browser, Some("Chrome".to_string()));
    assert_eq!(visit.visitor.platform, Some("Linux".to_string()));
    assert_eq!(visit.visitor.id, -9207428616589118804);
    assert_eq!(visit.page.domain, "shop.example");
    assert_eq!(visit.page.path, "/p");
    assert_eq!(visit.page.id, 4793258211688780042);
    let utm = visit.utm_param.expect("campaign was given");
    assert_eq!(utm.campaign, Some("spring".to_string()));
    assert_eq!(utm.id, 7472985736318714660);
    assert!(visit.referrer.is_none());
    assert_eq!(visit.duration, None);
    assert_eq!(visit.distance, None);
    assert!(visit.time.seconds > 1_600_000_000);
}

#[test]
fn visit_with_referrer() {
    let body = visit("-5", "https://shop.example/", Some("https://news.example/story"));
    let visit = handle_visit(7, body, CHROME, &lookup()).expect("report is accepted");
    assert_eq!(visit.session, -5);
    assert!(visit.utm_param.is_none());
    let referrer = visit.referrer.expect("came from another site");
    assert_eq!(referrer.domain, "news.example");
    assert_eq!(referrer.id, -1547350340692605322);
}

#[test]
fn visit_from_the_same_site_has_no_referrer() {
    let body = visit("1", "https://example.com/", Some("https://example.com/other"));
    let visit = handle_visit(7, body, CHROME, &lookup()).expect("report is accepted");
    assert!(visit.referrer.is_none());
}

#[test]
fn visit_without_domain_fails() {
    let body = visit("42", "data:text/plain,hello", None);
    match handle_visit(7, body, CHROME, &lookup()) {
        Err(Error::Missing(what)) => assert_eq!(what, "domain"),
        _ => panic!("a page without a domain was accepted"),
    }
    let body = visit("42", "https://192.168.0.1/", None);
    assert!(matches!(handle_visit(7, body, CHROME, &lookup()), Err(Error::Missing(_))));
}

#[test]
fn malformed_session_fails_everywhere() {
    let url = "https://shop.example/p";
    assert!(matches!(
        handle_visit(7, visit("abc", url, None), CHROME, &lookup()),
        Err(Error::ParseIntError(_))
    ));
    assert!(matches!(handle_exit(7, exit("abc", url), CHROME, &lookup()), Err(Error::ParseIntError(_))));
    assert!(matches!(handle_event(7, event("abc", url), CHROME, &lookup()), Err(Error::ParseIntError(_))));
}

#[test]
fn malformed_session_comes_before_missing_domain() {
    let body = visit("abc", "data:text/plain,hello", None);
    assert!(matches!(handle_visit(7, body, CHROME, &lookup()), Err(Error::ParseIntError(_))));
}

#[test]
fn session_is_a_decimal_integer() {
    assert_eq!(parse_session("42").ok(), Some(42));
    assert_eq!(parse_session("+7").ok(), Some(7));
    assert_eq!(parse_session("-0").ok(), Some(0));
    assert_eq!(parse_session("007").ok(), Some(7));
    assert_eq!(parse_session("9223372036854775807").ok(), Some(i64::MAX));
    assert_eq!(parse_session("-9223372036854775808").ok(), Some(i64::MIN));
    assert!(parse_session("9223372036854775808").is_err());
    assert!(parse_session("-9223372036854775809").is_err());
    assert!(parse_session("").is_err());
    assert!(parse_session("+").is_err());
    assert!(parse_session("-").is_err());
    assert!(parse_session(" 1").is_err());
    assert!(parse_session("1 ").is_err());
    assert!(parse_session("1.0").is_err());
    assert!(parse_session("--1").is_err());
    assert!(parse_session("0x10").is_err());
}

#[test]
fn exit_carries_duration_and_distance() {
    let body = exit("42", "https://shop.example/p?campaign=spring");
    let visit = handle_exit(7, body, CHROME, &lookup()).expect("report is accepted");
    assert_eq!(visit.session, 42);
    assert_eq!(visit.duration, Some(1500));
    assert_eq!(visit.distance.map(f64::from_bits), Some(0.75));
    assert_eq!(visit.utm_param.expect("campaign was given").campaign, Some("spring".to_string()));
    assert_eq!(visit.page.id, 4793258211688780042);
}

#[test]
fn exit_without_domain_fails() {
    let body = exit("42", "mailto:someone@example.com");
    assert!(matches!(handle_exit(7, body, CHROME, &lookup()), Err(Error::Missing(_))));
}

#[test]
fn event_carries_name_and_payload() {
    let body = event("42", "https://shop.example/p");
    let event = handle_event(7, body, CHROME, &lookup()).expect("report is accepted");
    assert_eq!(event.project, 7);
    assert_eq!(event.session, 42);
    assert_eq!(event.name, "signup");
    assert_eq!(event.data, Value::String("blue".to_string()));
    assert_eq!(event.visitor.id, -9207428616589118804);
    assert_eq!(event.page.id, 4793258211688780042);
}

#[test]
fn event_without_domain_fails() {
    let body = event("42", "data:text/plain,hello");
    assert!(matches!(handle_event(7, body, CHROME, &lookup()), Err(Error::Missing(_))));
}

#[test]
fn records_are_stamped_as_given() {
    let time = Timestamp { seconds: 1_700_000_000, nanos: 5 };
    let visitor = Visitor::from_resolved(7, &sender(), None, String::new(), String::new());
    let page = Page::new(7, &parts("https://shop.example/p")).expect("has a domain");
    let visit = Visit::at(time, 7, 42, visitor.clone(), page.clone(), None, None);
    assert_eq!(visit.time, time);
    assert_eq!(visit.session, 42);
    assert_eq!(visit.visitor.id, visitor.id);
    assert_eq!(visit.duration, None);

    let event = Event::at(time, 7, 42, visitor, page, "signup".to_string(), Value::Null);
    assert_eq!(event.time, time);
    assert_eq!(event.name, "signup");
    assert_eq!(event.data, Value::Null);
}

#[test]
fn new_records_take_the_current_time() {
    let visitor = Visitor::from_resolved(7, &sender(), None, String::new(), String::new());
    let page = Page::new(7, &parts("https://shop.example/p")).expect("has a domain");
    let first = Visit::new(7, 1, visitor.clone(), page.clone(), None, None);
    let second = Event::new(7, 1, visitor, page, "signup".to_string(), Value::Null);
    assert!(first.time.seconds > 1_600_000_000);
    assert!(second.time.seconds >= first.time.seconds);
    assert_eq!(first.project, 7);
    assert_eq!(second.session, 1);
}
