//! Source adapters: the declarative description of one venue's pages, and
//! the listing and detail-page extraction that they drive.
use vstd::prelude::*;
use crate::date::{normalize, normalized, DateLayout};
use crate::event::{blank_record, Event, EventField};
use crate::extract::{
    apply_field_rules, apply_rules, check_rules, extract, extracted, matched_fragments, rules_valid,
    select_fragments, selector_accepted, selector_parses, FieldRule, Selection,
};

verus! {

/// Where an event's date text is read, how it is laid out, and the year to
/// use where the text has none.
pub struct DateRule {
    pub selection: Selection,
    pub layout: DateLayout,
    pub fallback_year: String,
}

/// Rules for a source whose listing lacks some fields: each event's detail
/// page is fetched, and the rules are applied to every element of it that
/// `container` matches, in the order scraper yields them. At most `concurrency` detail
/// pages are fetched at once.
pub struct DetailRules {
    pub container: String,
    pub fields: Vec<FieldRule>,
    pub concurrency: usize,
}

impl DetailRules {
    pub open spec fn valid(self) -> bool {
        &&& selector_accepted(self.container@)
        &&& rules_valid(self.fields@)
        &&& self.concurrency > 0
    }
}

/// One venue: its listing page, the selector of the element that holds each
/// event, and the rules that fill an event's fields.
pub struct SourceAdapter {
    pub name: String,
    pub listing_url: String,
    pub container: String,
    pub date: DateRule,
    pub fields: Vec<FieldRule>,
    pub detail: Option<DetailRules>,
}

impl SourceAdapter {
    /// Every selector of the adapter is accepted.
    pub open spec fn well_formed(self) -> bool {
        &&& selector_accepted(self.container@)
        &&& self.date.selection.valid()
        &&& rules_valid(self.fields@)
        &&& match self.detail {
            Some(d) => d.valid(),
            None => true,
        }
    }

    /// Checks every selector of the adapter.
    pub fn check(&self) -> (r: bool)
        ensures
            r == self.well_formed(),
    {
        let detail_ok = match &self.detail {
            Some(d) => d.concurrency > 0 && selector_parses(d.container.as_str()) && check_rules(
                &d.fields,
            ),
            None => true,
        };
        selector_parses(self.container.as_str()) && self.date.selection.check()
            && check_rules(&self.fields) && detail_ok
    }
}

/// The records of a vector of events.
pub open spec fn records(v: Seq<Event>) -> Seq<Seq<Seq<char>>> {
    v.map_values(|e: Event| e@)
}

/// The partial record that the adapter reads from one container: the
/// normalized date, then the field rules in order, every other field empty.
pub open spec fn partial_record(a: SourceAdapter, fragment: Seq<char>) -> Seq<Seq<char>> {
    apply_rules(
        blank_record().update(
            EventField::Date.slot(),
            normalized(extracted(a.date.selection, fragment), a.date.layout, a.date.fallback_year@),
        ),
        a.fields@,
        fragment,
    )
}

/// Builds the partial event of one container.
pub fn partial_event(a: &SourceAdapter, fragment: &str) -> (r: Event)
    requires
        a.well_formed(),
    ensures
        r@ == partial_record(*a, fragment@),
{
    let mut event = Event::blank();
    let raw = extract(&a.date.selection, fragment);
    let date = normalize(raw.as_str(), &a.date.layout, a.date.fallback_year.as_str());
    event.set(EventField::Date, date);
    apply_field_rules(&mut event, &a.fields, fragment);
    event
}

/// The partial records of a listing page: one for each container, in
/// the order scraper yields them.
pub open spec fn listing_records(a: SourceAdapter, page: Seq<char>) -> Seq<Seq<Seq<char>>> {
    matched_fragments(page, a.container@).map_values(|f: Seq<char>| partial_record(a, f))
}

/// Extracts the partial events of a listing page: exactly one per element
/// that the container selector matches, in the order scraper yields them.
pub fn events_from_page(a: &SourceAdapter, page: &str) -> (r: Vec<Event>)
    requires
        a.well_formed(),
    ensures
        r@.len() == matched_fragments(page@, a.container@).len(),
        records(r@) == listing_records(*a, page@),
{
    let fragments = select_fragments(page, a.container.as_str());
    let ghost frags = matched_fragments(page@, a.container@);
    let mut out: Vec<Event> = Vec::new();
    let mut i: usize = 0;
    while i < fragments.len()
        invariant
            a.well_formed(),
            crate::date::texts(fragments@) == frags,
            i <= fragments@.len(),
            out@.len() == i,
            forall|j: int| 0 <= j < i ==> #[trigger] out@[j]@ == partial_record(*a, frags[j]),
        decreases fragments.len() - i,
    {
        assert(fragments@[i as int]@ == frags[i as int]);
        let event = partial_event(a, fragments[i].as_str());
        out.push(event);
        i = i + 1;
    }
    assert(records(out@) =~= listing_records(*a, page@));
    out
}

/// The record after the detail rules were applied to each of the fragments
/// in turn.
pub open spec fn enrich_over(
    record: Seq<Seq<char>>,
    rules: Seq<FieldRule>,
    fragments: Seq<Seq<char>>,
) -> Seq<Seq<char>>
    decreases fragments.len(),
{
    if fragments.len() == 0 {
        record
    } else {
        apply_rules(enrich_over(record, rules, fragments.drop_last()), rules, fragments.last())
    }
}

/// The record completed from a fetched detail page.
pub open spec fn enriched(record: Seq<Seq<char>>, d: DetailRules, page: Seq<char>) -> Seq<
    Seq<char>,
> {
    enrich_over(record, d.fields@, matched_fragments(page, d.container@))
}

/// Completes an event from its fetched detail page.
pub fn enrich_event(event: &mut Event, d: &DetailRules, page: &str)
    requires
        d.valid(),
    ensures
        final(event)@ == enriched(old(event)@, *d, page@),
{
    let fragments = select_fragments(page, d.container.as_str());
    let ghost frags = matched_fragments(page@, d.container@);
    let ghost start = event@;
    let mut i: usize = 0;
    while i < fragments.len()
        invariant
            d.valid(),
            crate::date::texts(fragments@) == frags,
            i <= fragments@.len(),
            event@ == enrich_over(start, d.fields@, frags.take(i as int)),
        decreases fragments.len() - i,
    {
        assert(fragments@[i as int]@ == frags[i as int]);
        apply_field_rules(event, &d.fields, fragments[i].as_str());
        assert(frags.take(i + 1).drop_last() =~= frags.take(i as int));
        i = i + 1;
    }
    assert(frags.take(i as int) =~= frags);
}

} // verus!
