//! Turns the free-text dates of the venue pages into `YYYY-MM-DD`.
use vstd::prelude::*;

verus! {

/// How one source lays its date text out: the characters that separate
/// tokens, and the positions of the month, day and (if present) year tokens.
pub struct DateLayout {
    pub delimiters: Vec<char>,
    pub month_token: usize,
    pub day_token: usize,
    pub year_token: Option<usize>,
}

/// A left-to-right scan of `s`: the tokens finished so far, and the token
/// being read.
pub open spec fn scan(s: Seq<char>, delimiters: Seq<char>) -> (Seq<Seq<char>>, Seq<char>)
    decreases s.len(),
{
    if s.len() == 0 {
        (Seq::empty(), Seq::empty())
    } else {
        let (done, current) = scan(s.drop_last(), delimiters);
        if delimiters.contains(s.last()) {
            if current.len() > 0 {
                (done.push(current), Seq::empty())
            } else {
                (done, Seq::empty())
            }
        } else {
            (done, current.push(s.last()))
        }
    }
}

/// The maximal runs of non-delimiter characters of `s`, in order.
pub open spec fn tokens(s: Seq<char>, delimiters: Seq<char>) -> Seq<Seq<char>> {
    let (done, current) = scan(s, delimiters);
    if current.len() > 0 {
        done.push(current)
    } else {
        done
    }
}

/// The texts of a vector of strings.
pub open spec fn texts(v: Seq<String>) -> Seq<Seq<char>> {
    v.map_values(|t: String| t@)
}

fn has_char(v: &Vec<char>, c: char) -> (r: bool)
    ensures
        r == v@.contains(c),
{
    let mut i: usize = 0;
    while i < v.len()
        invariant
            i <= v@.len(),
            forall|j: int| 0 <= j < i ==> v@[j] != c,
        decreases v.len() - i,
    {
        if v[i] == c {
            return true;
        }
        i = i + 1;
    }
    false
}

/// Splits `s` into its tokens: the maximal runs of characters that are not
/// in `delimiters`. Empty tokens are never produced.
pub fn tokenize(s: &str, delimiters: &Vec<char>) -> (r: Vec<String>)
    ensures
        texts(r@) == tokens(s@, delimiters@),
{
    let n = s.unicode_len();
    let mut out: Vec<String> = Vec::new();
    let mut start: usize = 0;
    let mut i: usize = 0;
    while i < n
        invariant
            n == s@.len(),
            start <= i <= n,
            texts(out@) == scan(s@.take(i as int), delimiters@).0,
            s@.subrange(start as int, i as int) == scan(s@.take(i as int), delimiters@).1,
        decreases n - i,
    {
        let c = s.get_char(i);
        assert(s@.take(i + 1).drop_last() =~= s@.take(i as int));
        if has_char(delimiters, c) {
            if start < i {
                let t = s.substring_char(start, i).to_owned();
                out.push(t);
                assert(texts(out@) =~= scan(s@.take(i as int), delimiters@).0.push(t@));
            }
            start = i + 1;
        }
        i = i + 1;
        assert(s@.subrange(start as int, i as int) =~= scan(s@.take(i as int), delimiters@).1);
    }
    assert(s@.take(n as int) =~= s@);
    if start < n {
        let t = s.substring_char(start, n).to_owned();
        out.push(t);
        assert(texts(out@) =~= scan(s@, delimiters@).0.push(t@));
    }
    out
}

/// The two-digit month for a lowercase month name or abbreviation, or the
/// empty text for anything else.
pub open spec fn month_code(name: Seq<char>) -> Seq<char> {
    if name == "jan"@ || name == "january"@ {
        "01"@
    } else if name == "feb"@ || name == "february"@ {
        "02"@
    } else if name == "mar"@ || name == "march"@ {
        "03"@
    } else if name == "apr"@ || name == "april"@ {
        "04"@
    } else if name == "may"@ {
        "05"@
    } else if name == "jun"@ || name == "june"@ {
        "06"@
    } else if name == "jul"@ || name == "july"@ {
        "07"@
    } else if name == "aug"@ || name == "august"@ {
        "08"@
    } else if name == "sep"@ || name == "sept"@ || name == "september"@ {
        "09"@
    } else if name == "oct"@ || name == "october"@ {
        "10"@
    } else if name == "nov"@ || name == "november"@ {
        "11"@
    } else if name == "dec"@ || name == "december"@ {
        "12"@
    } else {
        Seq::empty()
    }
}

fn same_text(a: &String, b: &str) -> (r: bool)
    ensures
        r == (a@ == b@),
{
    let t = b.to_owned();
    *a == t
}

/// Looks a lowercase month name up in the month table; an unknown name
/// gives the empty text.
pub fn month_number(lowered: &str) -> (r: String)
    ensures
        r@ == month_code(lowered@),
{
    let name = lowered.to_owned();
    let code = if same_text(&name, "jan") || same_text(&name, "january") {
        "01"
    } else if same_text(&name, "feb") || same_text(&name, "february") {
        "02"
    } else if same_text(&name, "mar") || same_text(&name, "march") {
        "03"
    } else if same_text(&name, "apr") || same_text(&name, "april") {
        "04"
    } else if same_text(&name, "may") {
        "05"
    } else if same_text(&name, "jun") || same_text(&name, "june") {
        "06"
    } else if same_text(&name, "jul") || same_text(&name, "july") {
        "07"
    } else if same_text(&name, "aug") || same_text(&name, "august") {
        "08"
    } else if same_text(&name, "sep") || same_text(&name, "sept") || same_text(
        &name,
        "september",
    ) {
        "09"
    } else if same_text(&name, "oct") || same_text(&name, "october") {
        "10"
    } else if same_text(&name, "nov") || same_text(&name, "november") {
        "11"
    } else if same_text(&name, "dec") || same_text(&name, "december") {
        "12"
    } else {
        ""
    };
    proof {
        reveal_strlit("");
    }
    code.to_owned()
}

/// What `str::to_lowercase` returns for a text.
pub uninterp spec fn lower_of(s: Seq<char>) -> Seq<char>;

/// The lowercase form of an ASCII character.
pub open spec fn ascii_lower(c: char) -> char {
    match c {
        'A' => 'a',
        'B' => 'b',
        'C' => 'c',
        'D' => 'd',
        'E' => 'e',
        'F' => 'f',
        'G' => 'g',
        'H' => 'h',
        'I' => 'i',
        'J' => 'j',
        'K' => 'k',
        'L' => 'l',
        'M' => 'm',
        'N' => 'n',
        'O' => 'o',
        'P' => 'p',
        'Q' => 'q',
        'R' => 'r',
        'S' => 's',
        'T' => 't',
        'U' => 'u',
        'V' => 'v',
        'W' => 'w',
        'X' => 'x',
        'Y' => 'y',
        'Z' => 'z',
        _ => c,
    }
}

/// Every character of `s` is ASCII.
pub open spec fn all_ascii(s: Seq<char>) -> bool {
    forall|i: int| 0 <= i < s.len() ==> (#[trigger] s[i] as u32) < 128
}

/// Relies on `str::to_lowercase`: the lowercase form of the text, a function
/// of the text alone; on ASCII text each letter `A`-`Z` becomes `a`-`z` and
/// every other character stays.
#[verifier::external_body]
fn lowercase(s: &str) -> (r: String)
    ensures
        r@ == lower_of(s@),
        all_ascii(s@) ==> r@ == s@.map_values(|c: char| ascii_lower(c)),
{
    s.to_lowercase()
}

/// A value of one ASCII character with a `0` put in front; any other value
/// as it is.
pub open spec fn padded(n: Seq<char>) -> Seq<char> {
    if n.len() == 1 && (n[0] as u32) < 128 {
        seq!['0'] + n
    } else {
        n
    }
}

/// Zero-pads a one-byte (single ASCII character) day value to two
/// characters.
pub fn zero_pad_num_string(n: String) -> (r: String)
    ensures
        r@ == padded(n@),
{
    if n.unicode_len() == 1 && (n.as_str().get_char(0) as u32) < 128 {
        proof {
            reveal_strlit("0");
        }
        "0".to_owned().concat(n.as_str())
    } else {
        n
    }
}

/// Whether `s` already has the shape `YYYY-MM-DD`: ten characters, digits
/// but for a `-` at the fifth and the eighth.
pub open spec fn is_canonical(s: Seq<char>) -> bool {
    &&& s.len() == 10
    &&& forall|i: int|
        0 <= i < 10 ==> if i == 4 || i == 7 {
            s[i] == '-'
        } else {
            '0' <= s[i] && s[i] <= '9'
        }
}

/// Whether a date text is already in the canonical form.
pub fn canonical(s: &str) -> (r: bool)
    ensures
        r == is_canonical(s@),
{
    if s.unicode_len() != 10 {
        return false;
    }
    let mut i: usize = 0;
    while i < 10
        invariant
            s@.len() == 10,
            i <= 10,
            forall|j: int|
                0 <= j < i ==> if j == 4 || j == 7 {
                    s@[j] == '-'
                } else {
                    '0' <= s@[j] && s@[j] <= '9'
                },
        decreases 10 - i,
    {
        let c = s.get_char(i);
        let ok = if i == 4 || i == 7 {
            c == '-'
        } else {
            '0' <= c && c <= '9'
        };
        if !ok {
            return false;
        }
        i = i + 1;
    }
    true
}

/// The token at position `k`, or the empty text where there is none.
pub open spec fn token_at(t: Seq<Seq<char>>, k: int) -> Seq<char> {
    if 0 <= k < t.len() {
        t[k]
    } else {
        Seq::empty()
    }
}

/// `year-month-day`.
pub open spec fn joined(year: Seq<char>, month: Seq<char>, day: Seq<char>) -> Seq<char> {
    year + "-"@ + month + "-"@ + day
}

/// The normalized form of a date text: a canonical text stays as it is;
/// otherwise the year, month and day tokens named by the layout are joined,
/// with the month looked up in the month table, the day zero-padded, and the
/// fallback year where the layout has no year token.
pub open spec fn normalized(raw: Seq<char>, layout: DateLayout, fallback_year: Seq<char>) -> Seq<
    char,
> {
    if is_canonical(raw) {
        raw
    } else {
        let t = tokens(raw, layout.delimiters@);
        let year = match layout.year_token {
            Some(k) => token_at(t, k as int),
            None => fallback_year,
        };
        joined(
            year,
            month_code(lower_of(token_at(t, layout.month_token as int))),
            padded(token_at(t, layout.day_token as int)),
        )
    }
}

/// Joins year, month and day with `-`.
pub fn assemble_date(year: &str, month: &str, day: &str) -> (r: String)
    ensures
        r@ == joined(year@, month@, day@),
{
    year.to_owned().concat("-").concat(month).concat("-").concat(day)
}

fn token_or_empty(t: &Vec<String>, k: usize) -> (r: String)
    ensures
        r@ == token_at(texts(t@), k as int),
{
    if k < t.len() {
        t[k].clone()
    } else {
        String::new()
    }
}

/// Normalizes the date text `raw`, laid out as `layout` says, to
/// `YYYY-MM-DD`. Never fails: a missing token gives an empty segment, and an
/// unknown month name an empty month.
pub fn normalize(raw: &str, layout: &DateLayout, fallback_year: &str) -> (r: String)
    ensures
        r@ == normalized(raw@, *layout, fallback_year@),
{
    if canonical(raw) {
        return raw.to_owned();
    }
    let t = tokenize(raw, &layout.delimiters);
    let year = match layout.year_token {
        Some(k) => token_or_empty(&t, k),
        None => fallback_year.to_owned(),
    };
    let month_name = token_or_empty(&t, layout.month_token);
    let lowered = lowercase(month_name.as_str());
    let month = month_number(lowered.as_str());
    let day = zero_pad_num_string(token_or_empty(&t, layout.day_token));
    assemble_date(year.as_str(), month.as_str(), day.as_str())
}

/// Normalizing a date text that is already canonical leaves it unchanged,
/// so normalizing twice gives what normalizing once gave whenever that was
/// canonical.
pub proof fn lemma_normalize_canonical_fixed(
    raw: Seq<char>,
    layout: DateLayout,
    fallback_year: Seq<char>,
)
    requires
        is_canonical(raw),
    ensures
        normalized(raw, layout, fallback_year) == raw,
{
}

/// A month token that is no month name leaves the month segment empty and
/// the year and day segments as they would otherwise be.
pub proof fn lemma_unknown_month_empty_segment(
    raw: Seq<char>,
    layout: DateLayout,
    fallback_year: Seq<char>,
)
    requires
        !is_canonical(raw),
        month_code(lower_of(token_at(tokens(raw, layout.delimiters@), layout.month_token as int)))
            == Seq::<char>::empty(),
    ensures
        ({
            let t = tokens(raw, layout.delimiters@);
            let year = match layout.year_token {
                Some(k) => token_at(t, k as int),
                None => fallback_year,
            };
            normalized(raw, layout, fallback_year) == year + "-"@ + "-"@ + padded(
                token_at(t, layout.day_token as int),
            )
        }),
{
    let t = tokens(raw, layout.delimiters@);
    let year = match layout.year_token {
        Some(k) => token_at(t, k as int),
        None => fallback_year,
    };
    assert(year + "-"@ + Seq::<char>::empty() =~= year + "-"@);
}

} // verus!
