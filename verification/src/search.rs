pub mod indexing;
pub mod models;

use vstd::prelude::*;
use crate::util::text::{str_chars, string_from_chars};

verus! {

/// A search request (v1 API).
pub struct SearchRequest {
    pub query: Option<String>,
    pub filters: Option<String>,
    pub version: Option<String>,
    pub offset: Option<String>,
    pub index: Option<String>,
}

/// A project as the search index holds it.
pub struct SearchMod {
    pub mod_id: i32,
    pub author: String,
    pub title: String,
    pub description: String,
    pub keywords: Vec<String>,
    pub versions: Vec<String>,
    pub downloads: i32,
    pub page_url: String,
    pub icon_url: String,
    pub author_url: String,
    pub date_created: String,
    pub created: i64,
    pub date_modified: String,
    pub updated: i64,
    pub latest_version: String,
    pub empty: String,
}

impl SearchMod {
    /// The document id in the search index: the project id.
    pub fn get_uid(&self) -> (r: &i32)
        ensures
            *r == self.mod_id,
    {
        &self.mod_id
    }
}

/// What a search asks of the index.
pub struct SearchParams {
    pub query: String,
    /// The filter expression; `None` where there is none.
    pub filters: Option<String>,
    pub limit: usize,
    pub offset: usize,
    /// The index to search.
    pub index_name: String,
}

/// Whether every character is an ASCII decimal digit.
pub open spec fn all_decimal_digits(d: Seq<char>) -> bool {
    forall|k: int| 0 <= k < d.len() ==> '0' <= #[trigger] d[k] <= '9'
}

/// The number that a run of decimal digits spells.
pub open spec fn digits_value(d: Seq<char>) -> nat
    decreases d.len(),
{
    if d.len() == 0 {
        0
    } else {
        digits_value(d.drop_last()) * 10 + ((d.last() as int) - ('0' as int)) as nat
    }
}

/// The digits of a number's text: what follows a leading `+`, else the text.
pub open spec fn unsigned_digits(s: Seq<char>) -> Seq<char> {
    if s.len() > 0 && s[0] == '+' { s.skip(1) } else { s }
}

/// The number that the text is in decimal, as `str::parse::<usize>` reads
/// it: an optional `+`, then at least one decimal digit and nothing else,
/// and a value that fits in `usize`.
pub open spec fn parsed_usize(s: Seq<char>) -> Option<usize> {
    let d = unsigned_digits(s);
    if d.len() > 0 && all_decimal_digits(d) && digits_value(d) <= usize::MAX {
        Some(digits_value(d) as usize)
    } else {
        None
    }
}

/// A prefix of a run of digits spells no larger a number.
proof fn lemma_digits_value_prefix(d: Seq<char>, j: int)
    requires
        0 <= j <= d.len(),
        all_decimal_digits(d),
    ensures
        digits_value(d.take(j)) <= digits_value(d),
    decreases d.len(),
{
    if j < d.len() {
        let init = d.drop_last();
        assert(all_decimal_digits(init)) by {
            assert forall|k: int| 0 <= k < init.len() implies '0' <= #[trigger] init[k] <= '9' by {
                assert(init[k] == d[k]);
            }
        }
        lemma_digits_value_prefix(init, j);
        assert(init.take(j) =~= d.take(j));
        assert(d.last() == d[d.len() - 1]);
    } else {
        assert(d.take(j) =~= d);
    }
}

/// Reads a decimal number as `str::parse::<usize>` does.
fn parse_usize(s: &str) -> (r: Option<usize>)
    ensures
        r == parsed_usize(s@),
{
    let chars = str_chars(s);
    let mut start: usize = 0;
    if chars.len() > 0 && chars[0] == '+' {
        start = 1;
    }
    let ghost d = unsigned_digits(s@);
    assert(d =~= chars@.skip(start as int));
    if start == chars.len() {
        return None;
    }
    let mut acc: usize = 0;
    let mut i: usize = start;
    while i < chars.len()
        invariant
            start <= i <= chars@.len(),
            chars@ == s@,
            d == unsigned_digits(s@),
            d == chars@.skip(start as int),
            all_decimal_digits(d.take(i - start)),
            acc == digits_value(d.take(i - start)),
        decreases chars@.len() - i,
    {
        let c = chars[i];
        let ghost t = d.take(i - start + 1);
        proof {
            assert(t.drop_last() =~= d.take(i - start));
            assert(t.last() == c);
        }
        if c < '0' || c > '9' {
            assert(d[i - start] == c);
            return None;
        }
        let dig: usize = ((c as u32) - 48) as usize;
        assert(all_decimal_digits(t)) by {
            assert forall|k: int| 0 <= k < t.len() implies '0' <= #[trigger] t[k] <= '9' by {
                if k < t.len() - 1 {
                    assert(t[k] == d.take(i - start)[k]);
                }
            }
        }
        if acc > (usize::MAX - dig) / 10 {
            proof {
                assert(acc * 10 + dig > usize::MAX) by (nonlinear_arith)
                    requires
                        acc > (usize::MAX - dig) / 10,
                        dig <= 9,
                ;
                assert(digits_value(t) == acc * 10 + dig);
                if all_decimal_digits(d) {
                    lemma_digits_value_prefix(d, i - start + 1);
                }
            }
            return None;
        }
        assert(acc * 10 + dig <= usize::MAX) by (nonlinear_arith)
            requires
                acc <= (usize::MAX - dig) / 10,
                dig <= 9,
        ;
        acc = acc * 10 + dig;
        i = i + 1;
    }
    assert(d.take(i - start) =~= d);
    Some(acc)
}

/// The text of an optional string.
pub open spec fn opt_chars(o: Option<String>) -> Option<Seq<char>> {
    match o {
        Some(s) => Some(s@),
        None => None,
    }
}

/// The filter expression: the filters, the version filter, or both joined as
/// `(filters) AND (version)`; empty where neither is given.
pub open spec fn spec_search_filters(filters: Option<Seq<char>>, version: Option<Seq<char>>) -> Seq<char> {
    let f = match filters { Some(f) => f, None => Seq::empty() };
    match version {
        None => f,
        Some(v) => if f.len() == 0 { v } else { "("@ + f + ") AND ("@ + v + ")"@ },
    }
}

/// The search that a request asks for: the query (`{}{}{}` when none), the
/// filter expression (none when empty), ten results from the offset (0 when
/// none), in the index `<index>_mods` (`relevance` when none).
pub open spec fn spec_search_params(info: SearchRequest) -> (Seq<char>, Option<Seq<char>>, usize, usize, Seq<char>) {
    let filters = spec_search_filters(opt_chars(info.filters), opt_chars(info.version));
    (
        match info.query { Some(q) => q@, None => "{}{}{}"@ },
        if filters.len() == 0 { None } else { Some(filters) },
        10,
        match info.offset { Some(o) => parsed_usize(o@)->0, None => 0 },
        match info.index { Some(i) => i@, None => "relevance"@ } + "_mods"@,
    )
}

/// Whether `a` occurs in `e` as a run of characters.
pub open spec fn occurs_in(a: Seq<char>, e: Seq<char>) -> bool {
    exists|i: int| 0 <= i && i + a.len() <= e.len() && #[trigger] e.subrange(i, i + a.len()) == a
}

/// The version filter is never lost: alone (no other filter, or an empty
/// one) it is the whole filter expression; with another filter both occur in
/// the expression. A non-empty filter given without a version filter is the
/// expression as it is.
pub proof fn lemma_search_filters_keep_parts(info: SearchRequest)
    ensures
        match info.version {
            Some(v) => (v@.len() > 0 && match info.filters { Some(f) => f@.len() == 0, None => true })
                ==> spec_search_params(info).1 == Some(v@),
            None => true,
        },
        match info.version {
            Some(v) => v@.len() > 0 ==> (spec_search_params(info).1 matches Some(e) && occurs_in(v@, e)),
            None => true,
        },
        match info.filters {
            Some(f) => f@.len() > 0 ==> (spec_search_params(info).1 matches Some(e) && occurs_in(f@, e)),
            None => true,
        },
        match info.filters {
            Some(f) => (f@.len() > 0 && info.version is None) ==> spec_search_params(info).1 == Some(f@),
            None => true,
        },
{
    reveal_strlit("(");
    reveal_strlit(") AND (");
    reveal_strlit(")");
    let e = spec_search_filters(opt_chars(info.filters), opt_chars(info.version));
    if let Some(v) = info.version {
        if v@.len() > 0 {
            assert(e.len() > 0);
            if let Some(f) = info.filters {
                if f@.len() > 0 {
                    let i: int = 1 + f@.len() as int + 7;
                    assert(e.subrange(i, i + v@.len()) =~= v@);
                    assert(occurs_in(v@, e));
                    assert(e.subrange(1int, 1int + f@.len()) =~= f@);
                    assert(occurs_in(f@, e));
                } else {
                    assert(e.subrange(0int, 0int + v@.len()) =~= v@);
                    assert(occurs_in(v@, e));
                }
            } else {
                assert(e.subrange(0int, 0int + v@.len()) =~= v@);
                assert(occurs_in(v@, e));
            }
            assert(spec_search_params(info).1 == Some(e));
        }
    }
    if let Some(f) = info.filters {
        if f@.len() > 0 {
            assert(e.len() > 0);
            if info.version is None {
                assert(e.subrange(0int, 0int + f@.len()) =~= f@);
            } else {
                assert(e.subrange(1int, 1int + f@.len()) =~= f@);
            }
            assert(occurs_in(f@, e));
            assert(spec_search_params(info).1 == Some(e));
        }
    }
}

/// The parameters of a search as plain values.
pub open spec fn search_params_view(p: SearchParams) -> (Seq<char>, Option<Seq<char>>, usize, usize, Seq<char>) {
    (p.query@, opt_chars(p.filters), p.limit, p.offset, p.index_name@)
}

fn concat(a: &str, b: &str) -> (r: String)
    ensures
        r@ == a@ + b@,
{
    let mut s = a.to_owned();
    s.append(b);
    s
}

/// The search that a request asks for; an offset that is no decimal number
/// is outside what this function takes.
pub fn search_params(info: &SearchRequest) -> (r: SearchParams)
    requires
        info.offset matches Some(o) ==> parsed_usize(o@) is Some,
    ensures
        search_params_view(r) == spec_search_params(*info),
{
    let query = match &info.query {
        Some(q) => q.clone(),
        None => "{}{}{}".to_owned(),
    };
    let mut filters = match &info.filters {
        Some(f) => f.clone(),
        None => String::new(),
    };
    if let Some(v) = &info.version {
        if str_chars(filters.as_str()).len() == 0 {
            filters = v.clone();
        } else {
            let mut f = concat("(", filters.as_str());
            f = concat(f.as_str(), ") AND (");
            f = concat(f.as_str(), v.as_str());
            f = concat(f.as_str(), ")");
            filters = f;
        }
    }
    let offset: usize = match &info.offset {
        Some(o) => match parse_usize(o.as_str()) {
            Some(n) => n,
            None => 0,
        },
        None => 0,
    };
    let index = match &info.index {
        Some(i) => i.clone(),
        None => "relevance".to_owned(),
    };
    let index_name = concat(index.as_str(), "_mods");
    let nonempty = str_chars(filters.as_str()).len() != 0;
    let r = SearchParams {
        query,
        filters: if nonempty { Some(filters) } else { None },
        limit: 10,
        offset,
        index_name,
    };
    proof {
        let f = spec_search_filters(opt_chars(info.filters), opt_chars(info.version));
        assert(search_params_view(r).1 == (if f.len() == 0 { None } else { Some(f) }));
    }
    r
}

/// The search that a request asks for, or `None` where the offset is no decimal number.
pub fn checked_search_params(info: &SearchRequest) -> (r: Option<SearchParams>)
    ensures
        match info.offset {
            Some(o) => parsed_usize(o@) is None ==> r is None,
            None => true,
        },
        r matches Some(p) ==> search_params_view(p) == spec_search_params(*info),
        (info.offset matches Some(o) ==> parsed_usize(o@) is Some) ==> r is Some,
{
    if let Some(o) = &info.offset {
        if parse_usize(o.as_str()).is_none() {
            return None;
        }
    }
    Some(search_params(info))
}

} // verus!
