//! The field extractor: reads one value out of an HTML fragment by a
//! selection rule. A rule that matches nothing yields the empty text.
use vstd::prelude::*;
use crate::date::texts;
use crate::event::{Event, EventField};

verus! {

/// Whether `scraper::Selector::parse` accepts the rule.
pub uninterp spec fn selector_accepted(rule: Seq<char>) -> bool;

/// Relies on `scraper::Selector::parse`: whether it accepts the rule, a
/// function of the rule's text alone.
#[verifier::external_body]
pub(crate) fn selector_parses(rule: &str) -> (r: bool)
    ensures
        r == selector_accepted(rule@),
{
    scraper::Selector::parse(rule).is_ok()
}

/// The HTML of every element of a document that a rule matches, in the
/// order in which scraper yields them.
pub uninterp spec fn matched_fragments(html: Seq<char>, rule: Seq<char>) -> Seq<Seq<char>>;

/// Relies on `scraper::Html::parse_document`, `Html::select` and
/// `ElementRef::html`: the outer HTML of each element of the parsed
/// document that the selector matches, in the order in which
/// `Html::select` walks the tree. The selector is
/// known to parse, so the `unwrap` cannot fail.
#[verifier::external_body]
pub(crate) fn select_fragments(html: &str, rule: &str) -> (r: Vec<String>)
    requires
        selector_accepted(rule@),
    ensures
        texts(r@) == matched_fragments(html@, rule@),
{
    let document = scraper::Html::parse_document(html);
    let selector = scraper::Selector::parse(rule).unwrap();
    let mut out = Vec::new();
    for element in document.select(&selector) {
        out.push(element.html());
    }
    out
}

/// The text of an optional string.
pub open spec fn opt_text(o: Option<String>) -> Option<Seq<char>> {
    match o {
        Some(t) => Some(t@),
        None => None,
    }
}

/// The concatenated text of the first element of a fragment that a rule
/// matches, if any element matches. The fragment is parsed on its own, in
/// a `<body>` context: a selector that depends on the element's ancestors
/// outside the fragment, or a fragment that only parses inside a table,
/// reads differently than it would in place.
pub uninterp spec fn first_text_in(fragment: Seq<char>, rule: Seq<char>) -> Option<Seq<char>>;

/// Relies on `scraper::Html::parse_fragment`, `ElementRef::select` and
/// `ElementRef::text`: the text nodes of the first element below the
/// fragment's root that the selector matches, concatenated; `None` where
/// nothing matches.
#[verifier::external_body]
fn first_match_text(fragment: &str, rule: &str) -> (r: Option<String>)
    requires
        selector_accepted(rule@),
    ensures
        opt_text(r) == first_text_in(fragment@, rule@),
{
    let document = scraper::Html::parse_fragment(fragment);
    let selector = scraper::Selector::parse(rule).unwrap();
    match document.root_element().select(&selector).next() {
        Some(element) => Some(element.text().collect::<String>()),
        None => None,
    }
}

/// The value of a named attribute of the first element of a fragment that a
/// rule matches, if an element matches and has that attribute.
pub uninterp spec fn first_attr_in(fragment: Seq<char>, rule: Seq<char>, name: Seq<char>) -> Option<
    Seq<char>,
>;

/// Relies on `scraper::Html::parse_fragment`, `ElementRef::select` and
/// `Element::attr`: the attribute of the first element below the fragment's
/// root that the selector matches; `None` where nothing matches or the
/// attribute is absent.
#[verifier::external_body]
fn first_match_attr(fragment: &str, rule: &str, name: &str) -> (r: Option<String>)
    requires
        selector_accepted(rule@),
    ensures
        opt_text(r) == first_attr_in(fragment@, rule@, name@),
{
    let document = scraper::Html::parse_fragment(fragment);
    let selector = scraper::Selector::parse(rule).unwrap();
    match document.root_element().select(&selector).next() {
        Some(element) => match element.value().attr(name) {
            Some(value) => Some(value.to_owned()),
            None => None,
        },
        None => None,
    }
}

/// What `str::trim` leaves of a text.
pub uninterp spec fn trimmed(s: Seq<char>) -> Seq<char>;

/// `t` is a contiguous part of `s`.
pub open spec fn is_slice_of(t: Seq<char>, s: Seq<char>) -> bool {
    exists|i: int, j: int| 0 <= i <= j <= s.len() && t == s.subrange(i, j)
}

/// Relies on `str::trim`: the text without leading and trailing white space,
/// a function of the text alone, and a contiguous part of it.
#[verifier::external_body]
fn trim_text(s: &str) -> (r: String)
    ensures
        r@ == trimmed(s@),
        is_slice_of(r@, s@),
{
    s.trim().to_owned()
}

/// The part of `s` after the last occurrence of `c`; all of `s` where `c`
/// does not occur.
pub open spec fn after_last(s: Seq<char>, c: char) -> Seq<char>
    decreases s.len(),
{
    if s.len() == 0 {
        s
    } else if s.last() == c {
        Seq::empty()
    } else {
        after_last(s.drop_last(), c).push(s.last())
    }
}

/// The part of `s` after the last occurrence of `c`.
pub fn last_segment(s: &str, c: char) -> (r: String)
    ensures
        r@ == after_last(s@, c),
{
    let n = s.unicode_len();
    let mut i: usize = n;
    assert(s@.take(n as int) =~= s@);
    assert(after_last(s@, c) + s@.subrange(n as int, n as int) =~= after_last(s@, c));
    while i > 0 && s.get_char(i - 1) != c
        invariant
            n == s@.len(),
            i <= n,
            after_last(s@, c) == after_last(s@.take(i as int), c) + s@.subrange(i as int, n as int),
        decreases i,
    {
        assert(s@.take(i as int).drop_last() =~= s@.take(i - 1));
        assert(s@.subrange(i - 1, n as int) =~= seq![s@[i - 1]] + s@.subrange(i as int, n as int));
        assert(after_last(s@.take(i - 1), c).push(s@[i - 1]) + s@.subrange(i as int, n as int)
            =~= after_last(s@.take(i - 1), c) + s@.subrange(i - 1, n as int));
        i = i - 1;
    }
    assert(after_last(s@.take(i as int), c) =~= Seq::<char>::empty());
    assert(Seq::<char>::empty() + s@.subrange(i as int, n as int) =~= s@.subrange(i as int, n as int));
    s.substring_char(i, n).to_owned()
}

/// How a value is read from the element that a selector picks.
pub enum Mode {
    /// The element's text, trimmed.
    Text,
    /// The value of the named attribute.
    Attribute(String),
    /// The element's trimmed text after the last occurrence of the character.
    LastSegment(char),
}

/// A selection rule: a CSS selector and what to read from its first match.
pub struct Selection {
    pub selector: String,
    pub mode: Mode,
}

impl Selection {
    /// The selector is one that the HTML library accepts.
    pub open spec fn valid(self) -> bool {
        selector_accepted(self.selector@)
    }

    /// Whether the fragment lacks what the rule reads: no element matches,
    /// or the first match lacks the attribute.
    pub open spec fn target_missing(self, fragment: Seq<char>) -> bool {
        match self.mode {
            Mode::Attribute(name) => first_attr_in(fragment, self.selector@, name@) is None,
            _ => first_text_in(fragment, self.selector@) is None,
        }
    }

    /// Checks the selector; malformed rules are a configuration error.
    pub fn check(&self) -> (r: bool)
        ensures
            r == self.valid(),
    {
        selector_parses(self.selector.as_str())
    }
}

/// The value that a rule reads from a fragment.
pub open spec fn extracted(sel: Selection, fragment: Seq<char>) -> Seq<char> {
    match sel.mode {
        Mode::Text => match first_text_in(fragment, sel.selector@) {
            Some(t) => trimmed(t),
            None => Seq::empty(),
        },
        Mode::Attribute(name) => match first_attr_in(fragment, sel.selector@, name@) {
            Some(v) => v,
            None => Seq::empty(),
        },
        Mode::LastSegment(c) => match first_text_in(fragment, sel.selector@) {
            Some(t) => after_last(trimmed(t), c),
            None => Seq::empty(),
        },
    }
}

/// Reads the value that `sel` picks out of `fragment`, or the empty text
/// where the fragment lacks it. Never fails.
pub fn extract(sel: &Selection, fragment: &str) -> (r: String)
    requires
        sel.valid(),
    ensures
        r@ == extracted(*sel, fragment@),
{
    match &sel.mode {
        Mode::Text => match first_match_text(fragment, sel.selector.as_str()) {
            Some(t) => trim_text(t.as_str()),
            None => String::new(),
        },
        Mode::Attribute(name) => match first_match_attr(
            fragment,
            sel.selector.as_str(),
            name.as_str(),
        ) {
            Some(v) => v,
            None => String::new(),
        },
        Mode::LastSegment(c) => match first_match_text(fragment, sel.selector.as_str()) {
            Some(t) => {
                let t = trim_text(t.as_str());
                last_segment(t.as_str(), *c)
            },
            None => String::new(),
        },
    }
}

/// For every selection rule, a fragment that lacks the rule's target
/// yields the empty text.
pub proof fn lemma_missing_target_is_empty(sel: Selection, fragment: Seq<char>)
    requires
        sel.target_missing(fragment),
    ensures
        extracted(sel, fragment) == Seq::<char>::empty(),
{
}

/// Where a field's value comes from.
pub enum Source {
    Select(Selection),
    Constant(String),
}

/// Sets one field of an event from a fragment.
pub struct FieldRule {
    pub field: EventField,
    pub source: Source,
}

/// The rule's selector, if it has one, is accepted.
pub open spec fn rule_valid(rule: FieldRule) -> bool {
    match rule.source {
        Source::Select(sel) => sel.valid(),
        Source::Constant(_) => true,
    }
}

/// Every rule of the list is valid.
pub open spec fn rules_valid(rules: Seq<FieldRule>) -> bool {
    forall|i: int| 0 <= i < rules.len() ==> #[trigger] rule_valid(rules[i])
}

/// The value that a field rule gives for a fragment.
pub open spec fn rule_value(rule: FieldRule, fragment: Seq<char>) -> Seq<char> {
    match rule.source {
        Source::Select(sel) => extracted(sel, fragment),
        Source::Constant(c) => c@,
    }
}

/// The record after applying the rules in order; a later rule for the same
/// field wins.
pub open spec fn apply_rules(
    record: Seq<Seq<char>>,
    rules: Seq<FieldRule>,
    fragment: Seq<char>,
) -> Seq<Seq<char>>
    decreases rules.len(),
{
    if rules.len() == 0 {
        record
    } else {
        apply_rules(record, rules.drop_last(), fragment).update(
            rules.last().field.slot(),
            rule_value(rules.last(), fragment),
        )
    }
}

/// Checks every selector of a rule list.
pub fn check_rules(rules: &Vec<FieldRule>) -> (r: bool)
    ensures
        r == rules_valid(rules@),
{
    let mut i: usize = 0;
    while i < rules.len()
        invariant
            i <= rules@.len(),
            forall|j: int| 0 <= j < i ==> #[trigger] rule_valid(rules@[j]),
        decreases rules.len() - i,
    {
        let ok = match &rules[i].source {
            Source::Select(sel) => sel.check(),
            Source::Constant(_) => true,
        };
        if !ok {
            assert(!rule_valid(rules@[i as int]));
            return false;
        }
        i = i + 1;
    }
    true
}

fn rule_output(rule: &FieldRule, fragment: &str) -> (r: String)
    requires
        rule_valid(*rule),
    ensures
        r@ == rule_value(*rule, fragment@),
{
    match &rule.source {
        Source::Select(sel) => extract(sel, fragment),
        Source::Constant(c) => c.clone(),
    }
}

/// Applies each rule to the fragment, in order, setting the rule's field.
pub fn apply_field_rules(event: &mut Event, rules: &Vec<FieldRule>, fragment: &str)
    requires
        rules_valid(rules@),
    ensures
        final(event)@ == apply_rules(old(event)@, rules@, fragment@),
{
    let ghost start = event@;
    let mut i: usize = 0;
    while i < rules.len()
        invariant
            i <= rules@.len(),
            rules_valid(rules@),
            event@ == apply_rules(start, rules@.take(i as int), fragment@),
        decreases rules.len() - i,
    {
        assert(rule_valid(rules@[i as int]));
        let value = rule_output(&rules[i], fragment);
        event.set(rules[i].field, value);
        assert(rules@.take(i + 1).drop_last() =~= rules@.take(i as int));
        i = i + 1;
    }
    assert(rules@.take(i as int) =~= rules@);
}

} // verus!
