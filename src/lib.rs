//! The currency table of ISO 4217 and lookups into it.
//!
//! Every record of the table is a [`CurrencyCode`]: its three-letter alpha
//! code, its three-digit numeric code, its name, the exponent of its minor
//! unit and the territories that use it. The lookups scan the table in its
//! canonical order (by numeric code); single-record lookups return the first
//! match, multi-record lookups return every match in table order.
pub mod codes;

pub use codes::{
    currency_codes, entry, lemma_alpha3_shared_only_by_sgd, lemma_sorted_by_num, table,
    CURRENCY_COUNT, SINGAPORE_DOLLAR, SUDANESE_POUND,
};
use vstd::prelude::*;

verus! {

/// One currency of ISO 4217.
#[derive(Clone, Debug)]
pub struct CurrencyCode<'a> {
    pub alpha3: &'a str,
    pub countries: Vec<&'a str>,
    pub exp: i8,
    pub name: &'a str,
    pub num: &'a str,
}

/// The mathematical value of a [`CurrencyCode`]: its text fields as
/// character sequences.
pub struct Currency {
    pub alpha3: Seq<char>,
    pub countries: Seq<Seq<char>>,
    pub exp: i8,
    pub name: Seq<char>,
    pub num: Seq<char>,
}

/// The character sequences of a list of territory codes.
pub open spec fn territory_views(ts: Seq<&str>) -> Seq<Seq<char>> {
    ts.map_values(|t: &str| t@)
}

/// The values of a sequence of records.
pub open spec fn records<'a>(s: Seq<CurrencyCode<'a>>) -> Seq<Currency> {
    s.map_values(|c: CurrencyCode<'a>| c@)
}

impl<'a> View for CurrencyCode<'a> {
    type V = Currency;

    open spec fn view(&self) -> Currency {
        Currency {
            alpha3: self.alpha3@,
            countries: territory_views(self.countries@),
            exp: self.exp,
            name: self.name@,
            num: self.num@,
        }
    }
}

/// Whether two strings hold the same characters.
fn same_text(a: &str, b: &str) -> (r: bool)
    ensures
        r == (a@ == b@),
{
    let n = a.unicode_len();
    if n != b.unicode_len() {
        return false;
    }
    let mut i: usize = 0;
    while i < n
        invariant
            n == a@.len(),
            n == b@.len(),
            i <= n,
            a@.take(i as int) == b@.take(i as int),
        decreases n - i,
    {
        if a.get_char(i) != b.get_char(i) {
            return false;
        }
        assert(a@.take(i + 1) == a@.take(i as int).push(a@[i as int]));
        assert(b@.take(i + 1) == b@.take(i as int).push(b@[i as int]));
        i += 1;
    }
    assert(a@ == a@.take(n as int));
    assert(b@ == b@.take(n as int));
    true
}

/// The record held in an optional result, as a value.
pub open spec fn record_of<'a>(o: Option<CurrencyCode<'a>>) -> Option<Currency> {
    match o {
        Some(c) => Some(c@),
        None => None,
    }
}

/// The first record of `s`, in order, that satisfies `p`.
pub open spec fn first_match(s: Seq<Currency>, p: spec_fn(Currency) -> bool) -> Option<Currency> {
    let found = s.filter(p);
    if found.len() > 0 {
        Some(found[0])
    } else {
        None
    }
}

/// Records whose alpha code is `code`.
pub open spec fn has_alpha3(code: Seq<char>) -> spec_fn(Currency) -> bool {
    |c: Currency| c.alpha3 == code
}

/// Records whose numeric code is `code`.
pub open spec fn has_num(code: Seq<char>) -> spec_fn(Currency) -> bool {
    |c: Currency| c.num == code
}

/// Records whose name is `name`.
pub open spec fn has_name(name: Seq<char>) -> spec_fn(Currency) -> bool {
    |c: Currency| c.name == name
}

/// Records used in the territory `t`.
pub open spec fn used_in(t: Seq<char>) -> spec_fn(Currency) -> bool {
    |c: Currency| c.countries.contains(t)
}

/// Records whose minor unit has the exponent `e`.
pub open spec fn has_exp(e: i8) -> spec_fn(Currency) -> bool {
    |c: Currency| c.exp == e
}

/// A scan that has met no match before position `i` finds the record at `i`
/// if it matches, and otherwise has met none before `i + 1`.
proof fn lemma_first_match_step(s: Seq<Currency>, p: spec_fn(Currency) -> bool, i: int)
    requires
        0 <= i < s.len(),
        s.take(i).filter(p).len() == 0,
    ensures
        p(s[i]) ==> first_match(s, p) == Some(s[i]),
        !p(s[i]) ==> s.take(i + 1).filter(p).len() == 0,
{
    lemma_filter_step(s, p, i);
    if p(s[i]) {
        assert(s =~= s.take(i + 1) + s.skip(i + 1));
        Seq::filter_distributes_over_add(s.take(i + 1), s.skip(i + 1), p);
        assert(s.take(i + 1).filter(p) =~= seq![s[i]]);
    }
}

/// A scan that has met no match in the whole of `s` finds none.
proof fn lemma_first_match_none(s: Seq<Currency>, p: spec_fn(Currency) -> bool)
    requires
        s.take(s.len() as int).filter(p).len() == 0,
    ensures
        first_match(s, p) == None::<Currency>,
{
    assert(s.take(s.len() as int) =~= s);
}

/// Filtering a prefix one element longer adds that element if it matches.
proof fn lemma_filter_step(s: Seq<Currency>, p: spec_fn(Currency) -> bool, i: int)
    requires
        0 <= i < s.len(),
    ensures
        s.take(i + 1).filter(p) == (if p(s[i]) {
            s.take(i).filter(p).push(s[i])
        } else {
            s.take(i).filter(p)
        }),
{
    assert(s.take(i + 1) =~= s.take(i).push(s[i]));
    s.take(i).lemma_filter_push(s[i], p);
}

/// No element of the first `i` of `s` matches, so filtering them leaves
/// nothing.
proof fn lemma_no_match_before(s: Seq<Currency>, p: spec_fn(Currency) -> bool, i: int)
    requires
        0 <= i <= s.len(),
        forall|k: int| 0 <= k < i ==> !p(#[trigger] s[k]),
    ensures
        s.take(i).filter(p).len() == 0,
    decreases i,
{
    if i == 0 {
        reveal(Seq::filter);
        assert(s.take(0).len() == 0);
    } else {
        lemma_no_match_before(s, p, i - 1);
        lemma_filter_step(s, p, i - 1);
    }
}

/// A matching element with no match before it is the first match.
proof fn lemma_first_match_at(s: Seq<Currency>, p: spec_fn(Currency) -> bool, i: int)
    requires
        0 <= i < s.len(),
        p(s[i]),
        forall|k: int| 0 <= k < i ==> !p(#[trigger] s[k]),
    ensures
        first_match(s, p) == Some(s[i]),
{
    lemma_no_match_before(s, p, i);
    lemma_first_match_step(s, p, i);
}

/// Looking a currency of the table up by its own alpha code gives that
/// currency back, and with it its numeric code and name. The one exception
/// is "SGD", which two records hold: for both, the lookup gives the first of
/// them, the Singapore dollar.
pub proof fn lemma_alpha3_round_trip(i: int)
    requires
        0 <= i < table().len(),
    ensures
        table()[i].alpha3 != "SGD"@ ==> first_match(table(), has_alpha3(table()[i].alpha3))
            == Some(table()[i]),
        table()[i].alpha3 == "SGD"@ ==> first_match(table(), has_alpha3(table()[i].alpha3))
            == Some(table()[SINGAPORE_DOLLAR as int]),
{
    lemma_alpha3_shared_only_by_sgd();
    let a = table()[i].alpha3;
    let j = if a == "SGD"@ {
        SINGAPORE_DOLLAR as int
    } else {
        i
    };
    assert forall|k: int| 0 <= k < j implies !has_alpha3(a)(#[trigger] table()[k]) by {
        if table()[k].alpha3 == a {
            assert(entry(k).alpha3 == entry(j).alpha3);
        }
    }
    lemma_first_match_at(table(), has_alpha3(a), j);
}

/// Looking a currency of the table up by its own numeric code gives that
/// currency back: no two records share a numeric code.
pub proof fn lemma_num_round_trip(i: int)
    requires
        0 <= i < table().len(),
    ensures
        first_match(table(), has_num(table()[i].num)) == Some(table()[i]),
{
    assert forall|k: int| 0 <= k < i implies !has_num(table()[i].num)(#[trigger] table()[k]) by {
        lemma_sorted_by_num(k, i);
    }
    lemma_first_match_at(table(), has_num(table()[i].num), i);
}

/// A record equal to `c`.
fn copy_of<'a>(c: &CurrencyCode<'a>) -> (r: CurrencyCode<'a>)
    ensures
        r@ == c@,
{
    let mut countries: Vec<&'a str> = Vec::new();
    let mut k: usize = 0;
    while k < c.countries.len()
        invariant
            k <= c.countries@.len(),
            countries@ == c.countries@.take(k as int),
        decreases c.countries@.len() - k,
    {
        countries.push(c.countries[k]);
        assert(countries@ =~= c.countries@.take(k + 1));
        k += 1;
    }
    assert(countries@ =~= c.countries@);
    CurrencyCode { alpha3: c.alpha3, countries, exp: c.exp, name: c.name, num: c.num }
}

/// Whether `t` is among `countries`.
fn lists(countries: &Vec<&str>, t: &str) -> (r: bool)
    ensures
        r == territory_views(countries@).contains(t@),
{
    let mut k: usize = 0;
    while k < countries.len()
        invariant
            k <= countries@.len(),
            forall|j: int| 0 <= j < k ==> countries@[j]@ != t@,
        decreases countries@.len() - k,
    {
        if same_text(countries[k], t) {
            assert(territory_views(countries@)[k as int] == t@);
            return true;
        }
        k += 1;
    }
    assert(!territory_views(countries@).contains(t@));
    false
}

/// Every currency of the table, in its canonical order: by numeric code,
/// ascending (see `lemma_sorted_by_num`).
///
/// The table is never empty, so the result is never empty either; an empty
/// table would give an empty result rather than an error.
pub fn all<'a>() -> (r: Vec<CurrencyCode<'a>>)
    ensures
        records(r@) == table(),
        r@.len() == CURRENCY_COUNT,
{
    currency_codes()
}

/// The first currency of the table whose alpha code is `code`, compared
/// exactly and case-sensitively.
pub fn alpha3<'a>(code: &str) -> (r: Option<CurrencyCode<'a>>)
    ensures
        record_of(r) == first_match(table(), has_alpha3(code@)),
{
    let codes = currency_codes();
    let mut i: usize = 0;
    while i < codes.len()
        invariant
            records(codes@) == table(),
            codes@.len() == table().len(),
            i <= codes@.len(),
            table().take(i as int).filter(has_alpha3(code@)).len() == 0,
        decreases codes@.len() - i,
    {
        assert(codes@[i as int]@ == table()[i as int]);
        proof {
            lemma_first_match_step(table(), has_alpha3(code@), i as int);
        }
        if same_text(codes[i].alpha3, code) {
            return Some(copy_of(&codes[i]));
        }
        i += 1;
    }
    proof {
        lemma_first_match_none(table(), has_alpha3(code@));
    }
    None
}

/// Every currency of the table used in the territory `territory`, in table
/// order; empty where no currency is.
pub fn country<'a>(territory: &str) -> (r: Vec<CurrencyCode<'a>>)
    ensures
        records(r@) == table().filter(used_in(territory@)),
{
    let codes = currency_codes();
    let mut found: Vec<CurrencyCode<'a>> = Vec::new();
    let mut i: usize = 0;
    while i < codes.len()
        invariant
            records(codes@) == table(),
            codes@.len() == table().len(),
            i <= codes@.len(),
            records(found@) == table().take(i as int).filter(used_in(territory@)),
        decreases codes@.len() - i,
    {
        assert(codes@[i as int]@ == table()[i as int]);
        proof {
            lemma_filter_step(table(), used_in(territory@), i as int);
        }
        if lists(&codes[i].countries, territory) {
            found.push(copy_of(&codes[i]));
        }
        assert(records(found@) =~= table().take(i + 1).filter(used_in(territory@)));
        i += 1;
    }
    assert(table().take(codes@.len() as int) =~= table());
    found
}

/// Every currency of the table whose minor unit has the exponent `e`, in
/// table order; empty where no currency has it.
pub fn exp<'a>(e: i8) -> (r: Vec<CurrencyCode<'a>>)
    ensures
        records(r@) == table().filter(has_exp(e)),
{
    let codes = currency_codes();
    let mut found: Vec<CurrencyCode<'a>> = Vec::new();
    let mut i: usize = 0;
    while i < codes.len()
        invariant
            records(codes@) == table(),
            codes@.len() == table().len(),
            i <= codes@.len(),
            records(found@) == table().take(i as int).filter(has_exp(e)),
        decreases codes@.len() - i,
    {
        assert(codes@[i as int]@ == table()[i as int]);
        proof {
            lemma_filter_step(table(), has_exp(e), i as int);
        }
        if codes[i].exp == e {
            found.push(copy_of(&codes[i]));
        }
        assert(records(found@) =~= table().take(i + 1).filter(has_exp(e)));
        i += 1;
    }
    assert(table().take(codes@.len() as int) =~= table());
    found
}

/// The first currency of the table whose name is `text`, compared exactly
/// and case-sensitively.
pub fn name<'a>(text: &str) -> (r: Option<CurrencyCode<'a>>)
    ensures
        record_of(r) == first_match(table(), has_name(text@)),
{
    let codes = currency_codes();
    let mut i: usize = 0;
    while i < codes.len()
        invariant
            records(codes@) == table(),
            codes@.len() == table().len(),
            i <= codes@.len(),
            table().take(i as int).filter(has_name(text@)).len() == 0,
        decreases codes@.len() - i,
    {
        assert(codes@[i as int]@ == table()[i as int]);
        proof {
            lemma_first_match_step(table(), has_name(text@), i as int);
        }
        if same_text(codes[i].name, text) {
            return Some(copy_of(&codes[i]));
        }
        i += 1;
    }
    proof {
        lemma_first_match_none(table(), has_name(text@));
    }
    None
}

/// The first currency of the table whose numeric code is `code`, compared
/// as text: leading zeros count, so "8" finds nothing where "008" does.
pub fn num<'a>(code: &str) -> (r: Option<CurrencyCode<'a>>)
    ensures
        record_of(r) == first_match(table(), has_num(code@)),
{
    let codes = currency_codes();
    let mut i: usize = 0;
    while i < codes.len()
        invariant
            records(codes@) == table(),
            codes@.len() == table().len(),
            i <= codes@.len(),
            table().take(i as int).filter(has_num(code@)).len() == 0,
        decreases codes@.len() - i,
    {
        assert(codes@[i as int]@ == table()[i as int]);
        proof {
            lemma_first_match_step(table(), has_num(code@), i as int);
        }
        if same_text(codes[i].num, code) {
            return Some(copy_of(&codes[i]));
        }
        i += 1;
    }
    proof {
        lemma_first_match_none(table(), has_num(code@));
    }
    None
}

} // verus!
