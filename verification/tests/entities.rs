use analytics_core::agent::Resolvers;
use analytics_core::api::PubVisitor;
use analytics_core::link::PageUrl;
use analytics_core::table::find_last;
use analytics_core::table::TimezoneTable;
use analytics_core::text::text_eq;
use analytics_core::Error;
use analytics_core::Page;
use analytics_core::Referrer;
use analytics_core::UtmParam;
use analytics_core::Visitor;
use uaparser::UserAgentParser;
use url::Url;

const PATTERNS: &str = "
user_agent_parsers:
  - regex: '(Firefox)/(\\d+)\\.(\\d+)'
  - regex: 'NamelessBrowser'
    family_replacement: ''
  - regex: '(Chromium|Chrome)/(\\d+)\\.(\\d+)(?:\\.(\\d+)|)'
os_parsers:
  - regex: '(Windows NT) (\\d+)\\.(\\d+)'
    os_replacement: 'Windows'
  - regex: 'NamelessSystem'
    os_replacement: ''
  - regex: '(Linux)(?:[ /](\\d+)\\.(\\d+)(?:\\.(\\d+)|)|)'
device_parsers:
  - regex: '(iPhone)'
";

const CHROME_ON_LINUX: &str = "Mozilla/5.0 (Linux x86_64) AppleWebKit/537.36 (KHTML, like Gecko) Chrome/112.0.0.0 Safari/537.36";

fn timezones() -> TimezoneTable {
    let mut table = TimezoneTable::new();
    table.insert("Europe/Berlin".to_string(), "DE".to_string());
    table.insert("Europe/Zurich".to_string(), "CH".to_string());
    table.insert("America/New_York".to_string(), "US".to_string());
    table
}

fn resolvers() -> Resolvers {
    Resolvers {
        timezones: timezones(),
        agents: UserAgentParser::from_bytes(PATTERNS.as_bytes()).expect("patterns are valid"),
    }
}

fn page_url(text: &str) -> PageUrl {
    PageUrl::from_url(&Url::parse(text).expect("url is valid"))
}

fn zurich_visitor() -> PubVisitor {
    PubVisitor { tz: "Europe/Zurich".to_string(), lang: "en".to_string(), screen: (1920, 1080) }
}

#[test]
fn smoke_test_timezones_map() {
    let ch = timezones().get("Europe/Zurich").expect("entry exists");
    assert_eq!(ch, "CH");
}

#[test]
fn smoke_test_ua_parser() {
    let user_agent = "Mozilla/5.0 (Linux x86_64) AppleWebKit/537.36 (KHTML, like Gecko) Chrome/112.0.0.0 Safari/537.36";
    let visitor = Visitor::new(1, &PubVisitor::default(), user_agent, &resolvers());
    assert_eq!(visitor.browser.expect("browser is known"), "Chrome");
    assert_eq!(visitor.platform.expect("platform is known"), "Linux");
}

#[test]
fn timezone_lookup_is_exact() {
    let table = timezones();
    assert_eq!(table.get("Europe/Berlin"), Some("DE".to_string()));
    assert_eq!(table.get("europe/zurich"), None);
    assert_eq!(table.get("Europe/Zurich "), None);
    assert_eq!(table.get(""), None);
    assert_eq!(TimezoneTable::new().get("Europe/Zurich"), None);
}

#[test]
fn timezone_insert_replaces() {
    let mut table = timezones();
    table.insert("Europe/Zurich".to_string(), "LI".to_string());
    assert_eq!(table.get("Europe/Zurich"), Some("LI".to_string()));
    assert_eq!(table.get("Europe/Berlin"), Some("DE".to_string()));
}

#[test]
fn text_eq_compares_characters() {
    assert!(text_eq("", ""));
    assert!(text_eq("campaign", "campaign"));
    assert!(!text_eq("campaign", "Campaign"));
    assert!(!text_eq("campaign", "campaig"));
    assert!(text_eq("zürich", "zürich"));
    assert!(!text_eq("zürich", "zurich"));
}

#[test]
fn find_last_takes_the_last_pair() {
    let pairs = vec![
        ("a".to_string(), "1".to_string()),
        ("b".to_string(), "2".to_string()),
        ("a".to_string(), "3".to_string()),
    ];
    assert_eq!(find_last(&pairs, "a"), Some("3".to_string()));
    assert_eq!(find_last(&pairs, "b"), Some("2".to_string()));
    assert_eq!(find_last(&pairs, "c"), None);
    assert_eq!(find_last(&Vec::new(), "a"), None);
}

#[test]
fn url_parts_are_read_off() {
    let url = page_url("https://shop.example/p?campaign=spring&x=1&note=a%20b");
    assert_eq!(url.domain, Some("shop.example".to_string()));
    assert_eq!(url.path, "/p");
    assert_eq!(
        url.query,
        vec![
            ("campaign".to_string(), "spring".to_string()),
            ("x".to_string(), "1".to_string()),
            ("note".to_string(), "a b".to_string()),
        ]
    );

    let bare = page_url("https://example.com");
    assert_eq!(bare.path, "/");
    assert!(bare.query.is_empty());

    assert_eq!(page_url("https://127.0.0.1/x").domain, None);
    assert_eq!(page_url("mailto:someone@example.com").domain, None);
}

#[test]
fn visitor_is_resolved_and_fingerprinted() {
    let visitor = Visitor::new(7, &zurich_visitor(), CHROME_ON_LINUX, &resolvers());
    assert_eq!(visitor.project, 7);
    assert_eq!(visitor.region, Some("CH".to_string()));
    assert_eq!(visitor.timezone, "Europe/Zurich");
    assert_eq!(visitor.language, "en");
    assert_eq!(visitor.browser, Some("Chrome".to_string()));
    assert_eq!(visitor.platform, Some("Linux".to_string()));
    assert_eq!(visitor.width, 1920);
    assert_eq!(visitor.height, 1080);
    assert_eq!(visitor.id, -9207428616589118804);
}

#[test]
fn visitor_is_deterministic() {
    let a = Visitor::new(7, &zurich_visitor(), CHROME_ON_LINUX, &resolvers());
    let b = Visitor::new(7, &zurich_visitor(), CHROME_ON_LINUX, &resolvers());
    assert_eq!(a.id, b.id);
    let c = Visitor::new(8, &zurich_visitor(), CHROME_ON_LINUX, &resolvers());
    assert_ne!(a.id, c.id);
}

#[test]
fn visitor_degrades_to_absent() {
    let raw = PubVisitor { tz: "Mars/Base".to_string(), lang: String::new(), screen: (-1, -2) };
    let visitor = Visitor::new(-1, &raw, "NamelessBrowser on NamelessSystem", &resolvers());
    assert_eq!(visitor.region, None);
    assert_eq!(visitor.browser, None);
    assert_eq!(visitor.platform, None);
    assert_eq!(visitor.width, -1);
    assert_eq!(visitor.height, -2);
    assert_eq!(visitor.id, -3585176267247611626);
}

#[test]
fn visitor_from_resolved_maps_empty_family_to_none() {
    let raw = PubVisitor { tz: "Mars/Base".to_string(), lang: String::new(), screen: (-1, -2) };
    let visitor = Visitor::from_resolved(-1, &raw, None, String::new(), String::new());
    assert_eq!(visitor.browser, None);
    assert_eq!(visitor.platform, None);
    assert_eq!(visitor.id, -3585176267247611626);

    let known = Visitor::from_resolved(
        7,
        &zurich_visitor(),
        Some("CH".to_string()),
        "Chrome".to_string(),
        "Linux".to_string(),
    );
    assert_eq!(known.id, -9207428616589118804);
}

#[test]
fn unmatched_user_agent_keeps_the_fallback_family() {
    let visitor = Visitor::new(1, &PubVisitor::default(), "curl/8.0", &resolvers());
    assert_eq!(visitor.browser, Some("Other".to_string()));
    assert_eq!(visitor.platform, Some("Other".to_string()));
}

#[test]
fn default_visitor_is_empty() {
    let raw = PubVisitor::default();
    assert_eq!(raw.tz, "");
    assert_eq!(raw.lang, "");
    assert_eq!(raw.screen, (0, 0));
}

#[test]
fn page_takes_domain_and_path() {
    let page = Page::new(7, &page_url("https://shop.example/p?campaign=spring")).expect("has a domain");
    assert_eq!(page.project, 7);
    assert_eq!(page.domain, "shop.example");
    assert_eq!(page.path, "/p");
    assert_eq!(page.id, 4793258211688780042);
}

#[test]
fn page_without_domain_is_an_error() {
    let result = Page::new(7, &page_url("data:text/plain,hello"));
    match result {
        Err(Error::Missing(what)) => assert_eq!(what, "domain"),
        _ => panic!("a page without a domain was accepted"),
    }
}

#[test]
fn page_is_deterministic() {
    let a = Page::new(3, &page_url("https://example.com/a")).expect("has a domain");
    let b = Page::new(3, &page_url("https://example.com/a")).expect("has a domain");
    let c = Page::new(3, &page_url("https://example.com/b")).expect("has a domain");
    assert_eq!(a.id, b.id);
    assert_ne!(a.id, c.id);
}

#[test]
fn utm_absent_without_recognized_keys() {
    assert!(UtmParam::new(7, &page_url("https://shop.example/p")).is_none());
    assert!(UtmParam::new(7, &page_url("https://shop.example/p?page=2&sort=desc")).is_none());
    assert!(UtmParam::new(7, &page_url("https://shop.example/p?Campaign=x&utm_campaign=y")).is_none());
}

#[test]
fn utm_with_campaign_only() {
    let utm = UtmParam::new(7, &page_url("https://shop.example/p?campaign=spring")).expect("has a campaign");
    assert_eq!(utm.project, 7);
    assert_eq!(utm.campaign, Some("spring".to_string()));
    assert_eq!(utm.content, None);
    assert_eq!(utm.medium, None);
    assert_eq!(utm.source, None);
    assert_eq!(utm.term, None);
    assert_eq!(utm.id, 7472985736318714660);

    let other = UtmParam::new(7, &page_url("https://other.example/q?x=1&campaign=spring#top"))
        .expect("has a campaign");
    assert_eq!(other.id, utm.id);
}

#[test]
fn utm_last_occurrence_wins() {
    let utm = UtmParam::new(1, &page_url("https://a.example/?term=one&source=s&term=two")).expect("has keys");
    assert_eq!(utm.term, Some("two".to_string()));
    assert_eq!(utm.source, Some("s".to_string()));
    assert_eq!(utm.campaign, None);
}

#[test]
fn utm_identity_ignores_the_order_in_the_query() {
    let a = UtmParam::new(1, &page_url("https://a.example/?campaign=c&content=d&medium=m&source=s&term=t"))
        .expect("has keys");
    let b = UtmParam::new(1, &page_url("https://a.example/?term=t&source=s&medium=m&content=d&campaign=c"))
        .expect("has keys");
    assert_eq!(a.id, b.id);
    let swapped = UtmParam::new(1, &page_url("https://a.example/?campaign=d&content=c&medium=m&source=s&term=t"))
        .expect("has keys");
    assert_ne!(a.id, swapped.id);
}

#[test]
fn utm_keeps_an_empty_value() {
    let utm = UtmParam::new(1, &page_url("https://a.example/?medium=")).expect("has a key");
    assert_eq!(utm.medium, Some(String::new()));
}

#[test]
fn referrer_excludes_the_page_itself() {
    let referrer = page_url("https://example.com/other");
    assert!(Referrer::new(7, Some(&referrer), "example.com").is_none());
    assert!(Referrer::new(7, Some(&referrer), "EXAMPLE.com").is_none());

    let shouting = PageUrl { domain: Some("EXAMPLE.com".to_string()), path: "/".to_string(), query: Vec::new() };
    assert!(Referrer::new(7, Some(&shouting), "example.COM").is_none());
}

#[test]
fn referrer_absent_without_url_or_domain() {
    assert!(Referrer::new(7, None, "example.com").is_none());
    assert!(Referrer::new(7, Some(&page_url("https://10.0.0.1/")), "example.com").is_none());
}

#[test]
fn referrer_domain_is_kept_in_lower_case() {
    let shouting = PageUrl { domain: Some("NEWS.Example".to_string()), path: "/".to_string(), query: Vec::new() };
    let referrer = Referrer::new(7, Some(&shouting), "example.com").expect("another site");
    assert_eq!(referrer.project, 7);
    assert_eq!(referrer.domain, "news.example");
    assert_eq!(referrer.id, -1547350340692605322);

    let plain = Referrer::new(7, Some(&page_url("https://news.example/story")), "example.com")
        .expect("another site");
    assert_eq!(plain.id, referrer.id);
}

#[test]
fn referrer_from_lowercase_compares_exactly() {
    assert!(Referrer::from_lowercase(7, "example.com".to_string(), "example.com").is_none());
    let kept = Referrer::from_lowercase(7, "news.example".to_string(), "example.com").expect("another site");
    assert_eq!(kept.domain, "news.example");
    assert_eq!(kept.id, -1547350340692605322);
}

#[test]
fn project_changes_every_identifier() {
    let url = page_url("https://shop.example/p?campaign=spring");
    let from = page_url("https://news.example/story");
    assert_ne!(Page::new(1, &url).expect("has a domain").id, Page::new(2, &url).expect("has a domain").id);
    assert_ne!(
        UtmParam::new(1, &url).expect("has a campaign").id,
        UtmParam::new(2, &url).expect("has a campaign").id
    );
    assert_ne!(
        Referrer::new(1, Some(&from), "shop.example").expect("another site").id,
        Referrer::new(2, Some(&from), "shop.example").expect("another site").id
    );
    assert_ne!(
        Visitor::new(1, &zurich_visitor(), CHROME_ON_LINUX, &resolvers()).id,
        Visitor::new(2, &zurich_visitor(), CHROME_ON_LINUX, &resolvers()).id
    );
}

#[test]
fn screen_height_changes_the_visitor() {
    let mut taller = zurich_visitor();
    taller.screen = (1920, 1200);
    assert_ne!(
        Visitor::new(1, &zurich_visitor(), CHROME_ON_LINUX, &resolvers()).id,
        Visitor::new(1, &taller, CHROME_ON_LINUX, &resolvers()).id
    );
}

#[test]
fn absent_field_differs_from_empty_field() {
    let absent = UtmParam::new(7, &page_url("https://a.example/?campaign=c")).expect("has a key");
    let empty = UtmParam::new(7, &page_url("https://a.example/?campaign=c&term=")).expect("has keys");
    assert_eq!(absent.term, None);
    assert_eq!(empty.term, Some(String::new()));
    assert_ne!(absent.id, empty.id);
}

#[test]
fn blank_entities() {
    let visitor = Visitor::default();
    assert_eq!(visitor.id, 0);
    assert_eq!(visitor.region, None);
    assert_eq!(visitor.timezone, "");
    let page = Page::default();
    assert_eq!((page.id, page.project), (0, 0));
    assert_eq!(page.domain, "");
    let utm = UtmParam::default();
    assert_eq!(utm.campaign, None);
    let referrer = Referrer::default();
    assert_eq!(referrer.domain, "");
}
