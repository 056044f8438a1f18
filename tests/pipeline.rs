use std::collections::HashMap;

use venue_events::adapter::events_from_page;
use venue_events::date::{
    assemble_date, canonical, month_number, normalize, tokenize, zero_pad_num_string, DateLayout,
};
use venue_events::event::{Event, EventField};
use venue_events::extract::{apply_field_rules, extract, last_segment, FieldRule, Mode, Selection, Source};
use venue_events::fanout::FanOut;
use venue_events::registry::{adapter_for, Registry, PARALLEL_REQUESTS};
use venue_events::request::{Action, Failure, Request};

fn registry() -> Registry {
    Registry::new("2024").expect("every registered selector parses")
}

fn layout(delimiters: Vec<char>, month: usize, day: usize, year: Option<usize>) -> DateLayout {
    DateLayout { delimiters, month_token: month, day_token: day, year_token: year }
}

fn text(selector: &str) -> Selection {
    Selection { selector: selector.to_string(), mode: Mode::Text }
}

/// A stand-in for the network: a page (or a failure) per URL, and a count
/// of the requests made.
struct FakeTransport {
    pages: HashMap<String, Option<String>>,
    calls: usize,
}

impl FakeTransport {
    fn new() -> FakeTransport {
        FakeTransport { pages: HashMap::new(), calls: 0 }
    }

    fn get(&mut self, url: &str) -> Option<String> {
        self.calls += 1;
        self.pages.get(url).cloned().flatten()
    }
}

/// Runs a request to the end against the fake transport. Detail fetches
/// complete last-in first-out, so out of order. Returns the outcome and the
/// largest number of detail fetches that were in flight at once.
fn drive(mut request: Request, transport: &mut FakeTransport) -> (Result<Vec<Event>, Failure>, usize) {
    let mut pending: Vec<(usize, String)> = Vec::new();
    let mut most = 0;
    loop {
        match request.next_action() {
            Action::FetchListing(url) => {
                let page = transport.get(&url);
                assert!(request.listing_fetched(page));
            }
            Action::FetchDetail(index, url) => {
                pending.push((index, url));
                most = most.max(pending.len());
            }
            Action::Wait => {
                let (index, url) = pending.pop().expect("a fetch is running");
                let page = transport.get(&url);
                assert!(request.detail_fetched(index, page));
            }
            Action::Done => break,
        }
    }
    (request.outcome().expect("the request is finished"), most)
}

#[test]
fn zero_pad_single_digit() {
    assert_eq!(zero_pad_num_string("3".to_string()), "03");
    assert_eq!(zero_pad_num_string("21".to_string()), "21");
    assert_eq!(zero_pad_num_string("".to_string()), "");
    assert_eq!(zero_pad_num_string("é".to_string()), "é");
    assert_eq!(zero_pad_num_string("x".to_string()), "0x");
}

#[test]
fn tokenize_skips_empty_tokens() {
    assert_eq!(tokenize("Friday, March 3, 2024", &vec![',', ' ']), vec!["Friday", "March", "3", "2024"]);
    assert_eq!(tokenize("  a  b ", &vec![' ']), vec!["a", "b"]);
    assert!(tokenize("", &vec![' ']).is_empty());
    assert_eq!(tokenize("abc", &vec![]), vec!["abc"]);
}

#[test]
fn month_table_lookup() {
    assert_eq!(month_number("jan"), "01");
    assert_eq!(month_number("september"), "09");
    assert_eq!(month_number("sept"), "09");
    assert_eq!(month_number("may"), "05");
    assert_eq!(month_number("December"), "");
    assert_eq!(month_number("smarch"), "");
}

#[test]
fn assemble_joins_with_dashes() {
    assert_eq!(assemble_date("2024", "03", "07"), "2024-03-07");
    assert_eq!(assemble_date("", "", ""), "--");
}

#[test]
fn normalize_month_day_with_fallback_year() {
    let l = layout(vec![' '], 0, 1, None);
    assert_eq!(normalize("March 3", &l, "2024"), "2024-03-03");
}

#[test]
fn normalize_month_day_comma_year() {
    let l = layout(vec![' ', ','], 0, 1, Some(2));
    assert_eq!(normalize("Sept 21, 2024", &l, "1999"), "2024-09-21");
}

#[test]
fn normalize_is_case_insensitive() {
    let l = layout(vec![' '], 1, 2, None);
    assert_eq!(normalize("Fri MAR 3", &l, "2024"), "2024-03-03");
}

#[test]
fn normalize_unknown_month_leaves_segment_empty() {
    let l = layout(vec![' ', ','], 0, 1, Some(2));
    assert_eq!(normalize("Smarch 4, 2023", &l, "2024"), "2023--04");
}

#[test]
fn normalize_short_input_degrades() {
    let l = layout(vec![' '], 1, 2, Some(3));
    assert_eq!(normalize("Fri", &l, "2024"), "--");
    assert_eq!(normalize("", &l, "2024"), "--");
}

#[test]
fn normalize_canonical_is_unchanged() {
    let l = layout(vec![' ', ','], 0, 1, Some(2));
    assert!(canonical("2024-03-03"));
    assert!(!canonical("2024-3-03"));
    assert_eq!(normalize("2024-03-03", &l, "1999"), "2024-03-03");
    let once = normalize("Sept 21, 2024", &l, "1999");
    assert_eq!(normalize(&once, &l, "1999"), once);
}

#[test]
fn extract_text_is_trimmed() {
    let fragment = "<div><p class=\"a\">  Band  <b>Name</b>\n </p><p class=\"a\">Other</p></div>";
    assert_eq!(extract(&text("p.a"), fragment), "Band  Name");
}

#[test]
fn extract_missing_node_is_empty() {
    let fragment = "<div><p class=\"a\">x</p></div>";
    assert_eq!(extract(&text("p.missing"), fragment), "");
    let attr = Selection { selector: "p.missing > a".to_string(), mode: Mode::Attribute("href".to_string()) };
    assert_eq!(extract(&attr, fragment), "");
    let tail = Selection { selector: "span.time".to_string(), mode: Mode::LastSegment('\t') };
    assert_eq!(extract(&tail, fragment), "");
}

#[test]
fn extract_missing_attribute_is_empty() {
    let fragment = "<div><p class=\"t\"><a>no link</a></p></div>";
    let attr = Selection { selector: "p.t > a".to_string(), mode: Mode::Attribute("href".to_string()) };
    assert_eq!(extract(&attr, fragment), "");
}

#[test]
fn extract_attribute_value() {
    let fragment = "<div><p class=\"t\"><a href=\"https://example.com/e/1\">x</a></p></div>";
    let attr = Selection { selector: "p.t > a".to_string(), mode: Mode::Attribute("href".to_string()) };
    assert_eq!(extract(&attr, fragment), "https://example.com/e/1");
}

#[test]
fn extract_last_segment() {
    let fragment = "<div><span class=\"time\">\n Doors\t8:00 PM \n</span></div>";
    let tail = Selection { selector: "span.time".to_string(), mode: Mode::LastSegment('\t') };
    assert_eq!(extract(&tail, fragment), "8:00 PM");
    assert_eq!(last_segment("a\tb\tc", '\t'), "c");
    assert_eq!(last_segment("abc", '\t'), "abc");
    assert_eq!(last_segment("abc\t", '\t'), "");
}

#[test]
fn later_rule_wins() {
    let mut event = Event::blank();
    let rules = vec![
        FieldRule { field: EventField::Venue, source: Source::Constant("First".to_string()) },
        FieldRule { field: EventField::Venue, source: Source::Select(text("p.venue")) },
        FieldRule { field: EventField::Age, source: Source::Constant("21+".to_string()) },
    ];
    apply_field_rules(&mut event, &rules, "<div><p class=\"venue\">Hall</p></div>");
    assert_eq!(event.venue, "Hall");
    assert_eq!(event.age, "21+");
    assert_eq!(event.headliner, "");
}

fn corazon_container(day: u32, name: &str) -> String {
    format!(
        "<div class=\"seetickets-list-event-container\">\
         <p class=\"event-date\">Fri Mar {day}</p>\
         <p class=\"event-title\"><a href=\"https://elcorazonseattle.com/e/{day}\">{name}</a></p>\
         <p class=\"headliners\">{name}</p>\
         <p class=\"supporting-talent\">Opener {day}</p>\
         <p class=\"doortime-showtime\">Doors 7pm</p>\
         <p class=\"venue\">El Corazon</p>\
         <span class=\"ages\">21+</span></div>"
    )
}

#[test]
fn listing_keeps_document_order() {
    let adapter = adapter_for("corazon", "2024").unwrap();
    assert!(adapter.check());
    let page = format!(
        "<html><body>{}{}{}</body></html>",
        corazon_container(3, "First"),
        corazon_container(14, "Second"),
        corazon_container(5, "Third")
    );
    let events = events_from_page(&adapter, &page);
    assert_eq!(events.len(), 3);
    assert_eq!(events[0].headliner, "First");
    assert_eq!(events[1].headliner, "Second");
    assert_eq!(events[2].headliner, "Third");
    assert_eq!(events[0].date, "2024-03-03");
    assert_eq!(events[1].date, "2024-03-14");
    assert_eq!(events[0].url, "https://elcorazonseattle.com/e/3");
    assert_eq!(events[2].support_talent, "Opener 5");
    assert_eq!(events[1].showtime, "Doors 7pm");
    assert_eq!(events[1].venue, "El Corazon");
    assert_eq!(events[1].age, "21+");
}

#[test]
fn listing_without_containers_is_empty() {
    let adapter = adapter_for("corazon", "2024").unwrap();
    let events = events_from_page(&adapter, "<html><body><p>No shows</p></body></html>");
    assert!(events.is_empty());
}

#[test]
fn registry_is_exact_match() {
    assert!(adapter_for("corazon", "2024").is_some());
    assert!(adapter_for("barboza", "2024").is_some());
    assert!(adapter_for("showbox", "2024").is_some());
    assert!(adapter_for("Corazon", "2024").is_none());
    assert!(adapter_for("", "2024").is_none());
    assert!(adapter_for("showbox ", "2024").is_none());
    assert!(adapter_for("showbox", "2024").unwrap().detail.is_some());
    assert!(adapter_for("barboza", "2024").unwrap().detail.is_none());
}

#[test]
fn unknown_source_makes_no_network_call() {
    let mut transport = FakeTransport::new();
    let request = Request::start(&registry(), "nowhere");
    let (outcome, _) = drive(request, &mut transport);
    assert!(matches!(outcome, Err(Failure::UnknownSource)));
    assert_eq!(transport.calls, 0);
}

#[test]
fn listing_fetch_failure_is_upstream_error() {
    let mut transport = FakeTransport::new();
    let request = Request::start(&registry(), "corazon");
    let (outcome, _) = drive(request, &mut transport);
    assert!(matches!(outcome, Err(Failure::Upstream)));
    assert_eq!(transport.calls, 1);
}

fn barboza_container(label: &str, title: &str, link: Option<&str>) -> String {
    let heading = match link {
        Some(href) => format!("<h3 class=\"title\"><a href=\"{href}\">{title}</a></h3>"),
        None => format!("<h3 class=\"title\">{title}</h3>"),
    };
    format!(
        "<div class=\"eventItem\"><div class=\"date\" aria-label=\"{label}\">x</div>{heading}\
         <h4 class=\"tagline\">with Friends</h4><div class=\"time\">8pm</div>\
         <div class=\"age\">All Ages</div></div>"
    )
}

#[test]
fn end_to_end_without_enrichment() {
    let mut transport = FakeTransport::new();
    let page = format!(
        "<html><body>{}{}{}</body></html>",
        barboza_container("March 3 2024", "One", Some("https://www.thebarboza.com/e/1")),
        barboza_container("Sept 21, 2024", "Two", Some("https://www.thebarboza.com/e/2")),
        barboza_container("Dec 31 2024", "Three", None)
    );
    transport.pages.insert("https://www.thebarboza.com/events".to_string(), Some(page));
    let (outcome, _) = drive(Request::start(&registry(), "barboza"), &mut transport);
    let events = outcome.unwrap();
    assert_eq!(transport.calls, 1);
    assert_eq!(events.len(), 3);
    for e in &events {
        assert_eq!(e.venue, "Barboza");
        assert_eq!(e.age, "All Ages");
    }
    assert_eq!(events[0].date, "2024-03-03");
    assert_eq!(events[1].date, "2024-09-21");
    assert_eq!(events[2].date, "2024-12-31");
    assert_eq!(events[0].headliner, "One");
    assert_eq!(events[1].url, "https://www.thebarboza.com/e/2");
    assert_eq!(events[2].url, "");
}

fn showbox_container(i: usize) -> String {
    format!(
        "<div class=\"entry\"><div class=\"thumb\"><a href=\"https://showbox.test/e/{i}\">img</a></div>\
         <span class=\"date\">Friday, March {d}, 2024</span>\
         <span class=\"time\">Doors\t8:00 PM</span><span class=\"venue\">Showbox</span></div>",
        d = i + 1
    )
}

fn showbox_detail(i: usize) -> String {
    format!(
        "<html><body><div class=\"event_detail\"><div class=\"page_header_left\">\
         <h1>Headliner {i}</h1><h4>Support {i}</h4></div>\
         <div class=\"age_res\">Age {i}</div></div></body></html>"
    )
}

#[test]
fn enrichment_tolerates_one_failure_and_keeps_order() {
    let mut transport = FakeTransport::new();
    let listing: String = (0..5).map(showbox_container).collect();
    transport.pages.insert(
        "https://www.showboxpresents.com/events/all".to_string(),
        Some(format!("<html><body>{listing}</body></html>")),
    );
    for i in 0..5 {
        let page = if i == 2 { None } else { Some(showbox_detail(i)) };
        transport.pages.insert(format!("https://showbox.test/e/{i}"), page);
    }
    assert_eq!(adapter_for("showbox", "2024").unwrap().detail.unwrap().concurrency, PARALLEL_REQUESTS);
    assert_eq!(PARALLEL_REQUESTS, 2);
    let (outcome, most) = drive(Request::start(&registry(), "showbox"), &mut transport);
    let events = outcome.unwrap();
    assert!(most <= 2);
    assert_eq!(transport.calls, 6);
    assert_eq!(events.len(), 5);
    for (i, e) in events.iter().enumerate() {
        assert_eq!(e.url, format!("https://showbox.test/e/{i}"));
        assert_eq!(e.date, format!("2024-03-0{}", i + 1));
        assert_eq!(e.showtime, "8:00 PM");
        assert_eq!(e.venue, "Showbox");
        if i == 2 {
            assert_eq!(e.headliner, "");
            assert_eq!(e.support_talent, "");
            assert_eq!(e.age, "");
        } else {
            assert_eq!(e.headliner, format!("Headliner {i}"));
            assert_eq!(e.support_talent, format!("Support {i}"));
            assert_eq!(e.age, format!("Age {i}"));
        }
    }
}

#[test]
fn events_without_url_are_not_fetched() {
    let mut events = vec![Event::blank(), Event::blank(), Event::blank()];
    events[1].url = "https://showbox.test/e/1".to_string();
    let mut fan = FanOut::new(&events, 2);
    assert!(!fan.is_finished());
    let (index, url) = fan.next_request().unwrap();
    assert_eq!(index, 1);
    assert_eq!(url, "https://showbox.test/e/1");
    assert!(fan.next_request().is_none());
    assert!(!fan.complete(0, None));
    assert!(fan.complete(1, None));
    assert!(!fan.complete(1, None));
    assert!(fan.is_finished());
}

#[test]
fn fan_out_respects_bound() {
    let mut events = Vec::new();
    for i in 0..4 {
        let mut e = Event::blank();
        e.url = format!("u{i}");
        events.push(e);
    }
    let mut fan = FanOut::new(&events, 2);
    assert_eq!(fan.next_request().map(|r| r.0), Some(0));
    assert_eq!(fan.next_request().map(|r| r.0), Some(1));
    assert!(fan.next_request().is_none());
    assert!(fan.complete(1, Some("page".to_string())));
    assert_eq!(fan.next_request().map(|r| r.0), Some(2));
    assert!(fan.next_request().is_none());
}


#[test]
fn malformed_selector_is_rejected() {
    assert!(text("p.ok > a").check());
    assert!(!text("p..[").check());
    let mut adapter = adapter_for("corazon", "2024").unwrap();
    adapter.container = "div[".to_string();
    assert!(!adapter.check());
}

#[test]
fn registry_checks_and_looks_up() {
    let registry = registry();
    assert!(registry.adapter("corazon").is_some());
    assert!(registry.adapter("showbox").unwrap().detail.is_some());
    assert!(registry.adapter("Showbox").is_none());
    assert!(registry.adapter("").is_none());
    let barboza = registry.adapter("barboza").unwrap();
    assert!(barboza.check());
    assert_eq!(barboza.container, "div.eventItem");
}
