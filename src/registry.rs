//! The static registry of venue adapters, keyed by source name.
use vstd::prelude::*;
use crate::adapter::{DateRule, DetailRules, SourceAdapter};
use crate::date::DateLayout;
use crate::event::EventField;
use crate::extract::{rule_valid, selector_accepted, FieldRule, Mode, Selection, Source};

verus! {

/// Maximum number of detail-page fetches in flight at once, for the sources
/// that fetch detail pages.
pub const PARALLEL_REQUESTS: usize = 2;

/// Whether `name` is a registered source (exact, case-sensitive match).
pub open spec fn is_source(name: Seq<char>) -> bool {
    name == "corazon"@ || name == "barboza"@ || name == "showbox"@
}

/// The listing page of a registered source.
pub open spec fn listing_url_of(name: Seq<char>) -> Seq<char> {
    if name == "corazon"@ {
        "https://elcorazonseattle.com/"@
    } else if name == "barboza"@ {
        "https://www.thebarboza.com/events"@
    } else {
        "https://www.showboxpresents.com/events/all"@
    }
}

/// Whether a registered source fills some fields from detail pages.
pub open spec fn has_detail_pages(name: Seq<char>) -> bool {
    name == "showbox"@
}

proof fn lemma_names_distinct()
    ensures
        "corazon"@ != "barboza"@,
        "corazon"@ != "showbox"@,
        "barboza"@ != "showbox"@,
{
    reveal_strlit("corazon");
    reveal_strlit("barboza");
    reveal_strlit("showbox");
    assert("corazon"@[0] != "barboza"@[0]);
    assert("corazon"@[0] != "showbox"@[0]);
    assert("barboza"@[0] != "showbox"@[0]);
}

/// The rule sets `f` to the trimmed text of the first match of `sel`.
pub open spec fn text_rule_is(r: FieldRule, f: EventField, sel: Seq<char>) -> bool {
    &&& r.field == f
    &&& (r.source matches Source::Select(s) && s.selector@ == sel && s.mode is Text)
}

/// The rule sets `f` to the attribute `name` of the first match of `sel`.
pub open spec fn attr_rule_is(r: FieldRule, f: EventField, sel: Seq<char>, name: Seq<char>) -> bool {
    &&& r.field == f
    &&& (r.source matches Source::Select(s) && s.selector@ == sel && (s.mode matches Mode::Attribute(
        n,
    ) && n@ == name))
}

/// The rule sets `f` to the trimmed text of the first match of `sel` after
/// the last `c`.
pub open spec fn tail_rule_is(r: FieldRule, f: EventField, sel: Seq<char>, c: char) -> bool {
    &&& r.field == f
    &&& (r.source matches Source::Select(s) && s.selector@ == sel && s.mode == Mode::LastSegment(c))
}

/// The rule sets `f` to the fixed text `t`.
pub open spec fn const_rule_is(r: FieldRule, f: EventField, t: Seq<char>) -> bool {
    &&& r.field == f
    &&& (r.source matches Source::Constant(c) && c@ == t)
}

/// The El Corazon adapter: dates read as `<weekday> <month> <day>`, with the
/// fallback year; no detail pages.
pub open spec fn is_corazon(a: SourceAdapter, fallback_year: Seq<char>) -> bool {
    &&& a.name@ == "corazon"@
    &&& a.listing_url@ == "https://elcorazonseattle.com/"@
    &&& a.container@ == "div.seetickets-list-event-container"@
    &&& a.date.selection.selector@ == "p.event-date"@
    &&& a.date.selection.mode is Text
    &&& a.date.layout.delimiters@ == seq![' ']
    &&& a.date.layout.month_token == 1
    &&& a.date.layout.day_token == 2
    &&& a.date.layout.year_token is None
    &&& a.date.fallback_year@ == fallback_year
    &&& a.fields@.len() == 6
    &&& text_rule_is(a.fields@[0], EventField::Headliner, "p.headliners"@)
    &&& attr_rule_is(a.fields@[1], EventField::Url, "p.event-title > a"@, "href"@)
    &&& text_rule_is(a.fields@[2], EventField::SupportTalent, "p.supporting-talent"@)
    &&& text_rule_is(a.fields@[3], EventField::Showtime, "p.doortime-showtime"@)
    &&& text_rule_is(a.fields@[4], EventField::Venue, "p.venue"@)
    &&& text_rule_is(a.fields@[5], EventField::Age, "span.ages"@)
    &&& a.detail is None
}

/// Every selector of the El Corazon adapter is accepted.
pub open spec fn corazon_selectors_ok() -> bool {
    &&& selector_accepted("div.seetickets-list-event-container"@)
    &&& selector_accepted("p.event-date"@)
    &&& selector_accepted("p.headliners"@)
    &&& selector_accepted("p.event-title > a"@)
    &&& selector_accepted("p.supporting-talent"@)
    &&& selector_accepted("p.doortime-showtime"@)
    &&& selector_accepted("p.venue"@)
    &&& selector_accepted("span.ages"@)
}

/// The Barboza adapter: dates read from the `aria-label` of `div.date` as
/// `<month> <day>, <year>`; a fixed venue; no detail pages.
pub open spec fn is_barboza(a: SourceAdapter, fallback_year: Seq<char>) -> bool {
    &&& a.name@ == "barboza"@
    &&& a.listing_url@ == "https://www.thebarboza.com/events"@
    &&& a.container@ == "div.eventItem"@
    &&& a.date.selection.selector@ == "div.date"@
    &&& (a.date.selection.mode matches Mode::Attribute(n) && n@ == "aria-label"@)
    &&& a.date.layout.delimiters@ == seq![' ', ',']
    &&& a.date.layout.month_token == 0
    &&& a.date.layout.day_token == 1
    &&& a.date.layout.year_token == Some(2usize)
    &&& a.date.fallback_year@ == fallback_year
    &&& a.fields@.len() == 6
    &&& text_rule_is(a.fields@[0], EventField::Headliner, "h3.title"@)
    &&& attr_rule_is(a.fields@[1], EventField::Url, "h3.title > a"@, "href"@)
    &&& text_rule_is(a.fields@[2], EventField::SupportTalent, "h4.tagline"@)
    &&& text_rule_is(a.fields@[3], EventField::Showtime, "div.time"@)
    &&& const_rule_is(a.fields@[4], EventField::Venue, "Barboza"@)
    &&& text_rule_is(a.fields@[5], EventField::Age, "div.age"@)
    &&& a.detail is None
}

/// Every selector of the Barboza adapter is accepted.
pub open spec fn barboza_selectors_ok() -> bool {
    &&& selector_accepted("div.eventItem"@)
    &&& selector_accepted("div.date"@)
    &&& selector_accepted("h3.title"@)
    &&& selector_accepted("h3.title > a"@)
    &&& selector_accepted("h4.tagline"@)
    &&& selector_accepted("div.time"@)
    &&& selector_accepted("div.age"@)
}

/// The Showbox adapter: dates read as `<weekday>, <month> <day>, <year>`;
/// headliner, support and age filled from each event's detail page, at most
/// [`PARALLEL_REQUESTS`] at a time.
pub open spec fn is_showbox(a: SourceAdapter, fallback_year: Seq<char>) -> bool {
    &&& a.name@ == "showbox"@
    &&& a.listing_url@ == "https://www.showboxpresents.com/events/all"@
    &&& a.container@ == "div.entry"@
    &&& a.date.selection.selector@ == "span.date"@
    &&& a.date.selection.mode is Text
    &&& a.date.layout.delimiters@ == seq![',', ' ']
    &&& a.date.layout.month_token == 1
    &&& a.date.layout.day_token == 2
    &&& a.date.layout.year_token == Some(3usize)
    &&& a.date.fallback_year@ == fallback_year
    &&& a.fields@.len() == 3
    &&& attr_rule_is(a.fields@[0], EventField::Url, "div.thumb > a"@, "href"@)
    &&& tail_rule_is(a.fields@[1], EventField::Showtime, "span.time"@, '\t')
    &&& text_rule_is(a.fields@[2], EventField::Venue, "span.venue"@)
    &&& (a.detail matches Some(d) && {
        &&& d.container@ == "div.event_detail"@
        &&& d.concurrency == PARALLEL_REQUESTS
        &&& d.fields@.len() == 3
        &&& text_rule_is(d.fields@[0], EventField::Headliner, "div.page_header_left > h1"@)
        &&& text_rule_is(d.fields@[1], EventField::SupportTalent, "div.page_header_left > h4"@)
        &&& text_rule_is(d.fields@[2], EventField::Age, "div.age_res"@)
    })
}

/// Every selector of the Showbox adapter is accepted.
pub open spec fn showbox_selectors_ok() -> bool {
    &&& selector_accepted("div.entry"@)
    &&& selector_accepted("span.date"@)
    &&& selector_accepted("div.thumb > a"@)
    &&& selector_accepted("span.time"@)
    &&& selector_accepted("span.venue"@)
    &&& selector_accepted("div.event_detail"@)
    &&& selector_accepted("div.page_header_left > h1"@)
    &&& selector_accepted("div.page_header_left > h4"@)
    &&& selector_accepted("div.age_res"@)
}

/// `a` is the adapter registered under `name`.
pub open spec fn registered_adapter(name: Seq<char>, fallback_year: Seq<char>, a: SourceAdapter) -> bool {
    if name == "corazon"@ {
        is_corazon(a, fallback_year)
    } else if name == "barboza"@ {
        is_barboza(a, fallback_year)
    } else {
        name == "showbox"@ && is_showbox(a, fallback_year)
    }
}

/// A registered adapter carries its name and listing URL, and has detail
/// rules exactly where its source has detail pages.
pub proof fn lemma_registered_facts(name: Seq<char>, fallback_year: Seq<char>, a: SourceAdapter)
    requires
        registered_adapter(name, fallback_year, a),
    ensures
        is_source(name),
        a.name@ == name,
        a.listing_url@ == listing_url_of(name),
        a.detail is Some <==> has_detail_pages(name),
{
    lemma_names_distinct();
}

/// Every selector of every registered adapter is accepted.
pub open spec fn registry_valid() -> bool {
    corazon_selectors_ok() && barboza_selectors_ok() && showbox_selectors_ok()
}

proof fn lemma_corazon_checked(a: SourceAdapter, fallback_year: Seq<char>)
    requires
        is_corazon(a, fallback_year),
    ensures
        a.well_formed() <==> corazon_selectors_ok(),
{
    let f = a.fields@;
    assert(rule_valid(f[0]) <==> selector_accepted("p.headliners"@));
    assert(rule_valid(f[1]) <==> selector_accepted("p.event-title > a"@));
    assert(rule_valid(f[2]) <==> selector_accepted("p.supporting-talent"@));
    assert(rule_valid(f[3]) <==> selector_accepted("p.doortime-showtime"@));
    assert(rule_valid(f[4]) <==> selector_accepted("p.venue"@));
    assert(rule_valid(f[5]) <==> selector_accepted("span.ages"@));
    if corazon_selectors_ok() {
        assert forall|i: int| 0 <= i < f.len() implies #[trigger] rule_valid(f[i]) by {
            if i == 0 {
            } else if i == 1 {
            } else if i == 2 {
            } else if i == 3 {
            } else if i == 4 {
            } else {
            }
        }
    }
}

proof fn lemma_barboza_checked(a: SourceAdapter, fallback_year: Seq<char>)
    requires
        is_barboza(a, fallback_year),
    ensures
        a.well_formed() <==> barboza_selectors_ok(),
{
    let f = a.fields@;
    assert(rule_valid(f[0]) <==> selector_accepted("h3.title"@));
    assert(rule_valid(f[1]) <==> selector_accepted("h3.title > a"@));
    assert(rule_valid(f[2]) <==> selector_accepted("h4.tagline"@));
    assert(rule_valid(f[3]) <==> selector_accepted("div.time"@));
    assert(rule_valid(f[4]));
    assert(rule_valid(f[5]) <==> selector_accepted("div.age"@));
    if barboza_selectors_ok() {
        assert forall|i: int| 0 <= i < f.len() implies #[trigger] rule_valid(f[i]) by {
            if i == 0 {
            } else if i == 1 {
            } else if i == 2 {
            } else if i == 3 {
            } else if i == 4 {
            } else {
            }
        }
    }
}

proof fn lemma_showbox_checked(a: SourceAdapter, fallback_year: Seq<char>)
    requires
        is_showbox(a, fallback_year),
    ensures
        a.well_formed() <==> showbox_selectors_ok(),
{
    let f = a.fields@;
    let d = a.detail->0;
    let g = d.fields@;
    assert(rule_valid(f[0]) <==> selector_accepted("div.thumb > a"@));
    assert(rule_valid(f[1]) <==> selector_accepted("span.time"@));
    assert(rule_valid(f[2]) <==> selector_accepted("span.venue"@));
    assert(rule_valid(g[0]) <==> selector_accepted("div.page_header_left > h1"@));
    assert(rule_valid(g[1]) <==> selector_accepted("div.page_header_left > h4"@));
    assert(rule_valid(g[2]) <==> selector_accepted("div.age_res"@));
    if showbox_selectors_ok() {
        assert forall|i: int| 0 <= i < f.len() implies #[trigger] rule_valid(f[i]) by {
            if i == 0 {
            } else if i == 1 {
            } else {
            }
        }
        assert forall|i: int| 0 <= i < g.len() implies #[trigger] rule_valid(g[i]) by {
            if i == 0 {
            } else if i == 1 {
            } else {
            }
        }
    }
}

fn text_of(selector: &str) -> (r: Selection)
    ensures
        r.selector@ == selector@,
        r.mode is Text,
{
    Selection { selector: selector.to_owned(), mode: Mode::Text }
}

fn attr_of(selector: &str, name: &str) -> (r: Selection)
    ensures
        r.selector@ == selector@,
        r.mode matches Mode::Attribute(n) && n@ == name@,
{
    Selection { selector: selector.to_owned(), mode: Mode::Attribute(name.to_owned()) }
}

fn text_rule(field: EventField, selector: &str) -> (r: FieldRule)
    ensures
        text_rule_is(r, field, selector@),
{
    FieldRule { field, source: Source::Select(text_of(selector)) }
}

fn corazon(fallback_year: &str) -> (r: SourceAdapter)
    ensures
        is_corazon(r, fallback_year@),
{
    let mut fields: Vec<FieldRule> = Vec::new();
    fields.push(text_rule(EventField::Headliner, "p.headliners"));
    fields.push(
        FieldRule {
            field: EventField::Url,
            source: Source::Select(attr_of("p.event-title > a", "href")),
        },
    );
    fields.push(text_rule(EventField::SupportTalent, "p.supporting-talent"));
    fields.push(text_rule(EventField::Showtime, "p.doortime-showtime"));
    fields.push(text_rule(EventField::Venue, "p.venue"));
    fields.push(text_rule(EventField::Age, "span.ages"));
    let delimiters = vec![' '];
    assert(delimiters@ =~= seq![' ']);
    SourceAdapter {
        name: "corazon".to_owned(),
        listing_url: "https://elcorazonseattle.com/".to_owned(),
        container: "div.seetickets-list-event-container".to_owned(),
        date: DateRule {
            selection: text_of("p.event-date"),
            layout: DateLayout {
                delimiters,
                month_token: 1,
                day_token: 2,
                year_token: None,
            },
            fallback_year: fallback_year.to_owned(),
        },
        fields,
        detail: None,
    }
}

fn barboza(fallback_year: &str) -> (r: SourceAdapter)
    ensures
        is_barboza(r, fallback_year@),
{
    proof {
        lemma_names_distinct();
    }
    let mut fields: Vec<FieldRule> = Vec::new();
    fields.push(text_rule(EventField::Headliner, "h3.title"));
    fields.push(
        FieldRule { field: EventField::Url, source: Source::Select(attr_of("h3.title > a", "href")) },
    );
    fields.push(text_rule(EventField::SupportTalent, "h4.tagline"));
    fields.push(text_rule(EventField::Showtime, "div.time"));
    fields.push(FieldRule { field: EventField::Venue, source: Source::Constant("Barboza".to_owned()) });
    fields.push(text_rule(EventField::Age, "div.age"));
    SourceAdapter {
        name: "barboza".to_owned(),
        listing_url: "https://www.thebarboza.com/events".to_owned(),
        container: "div.eventItem".to_owned(),
        date: DateRule {
            selection: attr_of("div.date", "aria-label"),
            layout: DateLayout {
                delimiters: vec![' ', ','],
                month_token: 0,
                day_token: 1,
                year_token: Some(2),
            },
            fallback_year: fallback_year.to_owned(),
        },
        fields,
        detail: None,
    }
}

fn showbox(fallback_year: &str) -> (r: SourceAdapter)
    ensures
        is_showbox(r, fallback_year@),
{
    proof {
        lemma_names_distinct();
    }
    let mut fields: Vec<FieldRule> = Vec::new();
    fields.push(
        FieldRule { field: EventField::Url, source: Source::Select(attr_of("div.thumb > a", "href")) },
    );
    fields.push(
        FieldRule {
            field: EventField::Showtime,
            source: Source::Select(
                Selection { selector: "span.time".to_owned(), mode: Mode::LastSegment('\t') },
            ),
        },
    );
    fields.push(text_rule(EventField::Venue, "span.venue"));
    let mut detail_fields: Vec<FieldRule> = Vec::new();
    detail_fields.push(text_rule(EventField::Headliner, "div.page_header_left > h1"));
    detail_fields.push(text_rule(EventField::SupportTalent, "div.page_header_left > h4"));
    detail_fields.push(text_rule(EventField::Age, "div.age_res"));
    SourceAdapter {
        name: "showbox".to_owned(),
        listing_url: "https://www.showboxpresents.com/events/all".to_owned(),
        container: "div.entry".to_owned(),
        date: DateRule {
            selection: text_of("span.date"),
            layout: DateLayout {
                delimiters: vec![',', ' '],
                month_token: 1,
                day_token: 2,
                year_token: Some(3),
            },
            fallback_year: fallback_year.to_owned(),
        },
        fields,
        detail: Some(
            DetailRules {
                container: "div.event_detail".to_owned(),
                fields: detail_fields,
                concurrency: PARALLEL_REQUESTS,
            },
        ),
    }
}

fn same_name(a: &String, b: &str) -> (r: bool)
    ensures
        r == (a@ == b@),
{
    let t = b.to_owned();
    *a == t
}

/// The adapter registered under `name`, with `fallback_year` as the year of
/// dates that carry none; `None` for a name that is not registered.
pub fn adapter_for(name: &str, fallback_year: &str) -> (r: Option<SourceAdapter>)
    ensures
        r is Some <==> is_source(name@),
        r matches Some(a) ==> {
            &&& registered_adapter(name@, fallback_year@, a)
            &&& a.name@ == name@
            &&& a.listing_url@ == listing_url_of(name@)
            &&& (a.detail is Some <==> has_detail_pages(name@))
        },
{
    let key = name.to_owned();
    proof {
        lemma_names_distinct();
    }
    if same_name(&key, "corazon") {
        Some(corazon(fallback_year))
    } else if same_name(&key, "barboza") {
        Some(barboza(fallback_year))
    } else if same_name(&key, "showbox") {
        Some(showbox(fallback_year))
    } else {
        None
    }
}

/// A selector of a registered adapter is malformed.
#[derive(Clone, Copy, Debug, PartialEq, Eq, Structural)]
pub enum ConfigError {
    InvalidSelector,
}

/// The registry of sources, with every selector checked once, when it is
/// built.
pub struct Registry {
    fallback_year: String,
}

impl Registry {
    /// Every selector of every registered adapter is accepted.
    pub closed spec fn well_formed(self) -> bool {
        registry_valid()
    }

    /// The year given to dates whose text carries none.
    pub closed spec fn fallback_year(self) -> Seq<char> {
        self.fallback_year@
    }

    /// Builds the registry, checking every selector of every adapter: a
    /// malformed one is a configuration error.
    pub fn new(fallback_year: &str) -> (r: Result<Registry, ConfigError>)
        ensures
            r is Ok <==> registry_valid(),
            r matches Ok(reg) ==> reg.well_formed() && reg.fallback_year() == fallback_year@,
            r matches Err(e) ==> e == ConfigError::InvalidSelector,
    {
        let c = corazon(fallback_year);
        let b = barboza(fallback_year);
        let s = showbox(fallback_year);
        proof {
            lemma_corazon_checked(c, fallback_year@);
            lemma_barboza_checked(b, fallback_year@);
            lemma_showbox_checked(s, fallback_year@);
        }
        if c.check() && b.check() && s.check() {
            Ok(Registry { fallback_year: fallback_year.to_owned() })
        } else {
            Err(ConfigError::InvalidSelector)
        }
    }

    /// The adapter registered under `name` (exact, case-sensitive match), or
    /// `None`.
    pub fn adapter(&self, name: &str) -> (r: Option<SourceAdapter>)
        requires
            self.well_formed(),
        ensures
            r is Some <==> is_source(name@),
            r matches Some(a) ==> registered_adapter(name@, self.fallback_year(), a)
                && a.well_formed(),
    {
        let r = adapter_for(name, self.fallback_year.as_str());
        proof {
            lemma_names_distinct();
            if r is Some {
                let a = r->0;
                if name@ == "corazon"@ {
                    lemma_corazon_checked(a, self.fallback_year@);
                } else if name@ == "barboza"@ {
                    lemma_barboza_checked(a, self.fallback_year@);
                } else {
                    lemma_showbox_checked(a, self.fallback_year@);
                }
            }
        }
        r
    }
}

} // verus!
