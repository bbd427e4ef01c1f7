//! Which headlines to ask for about a company, and which to keep: search queries,
//! relevance tokens from the company's names, ranking of the merged headlines and the
//! fallback searches when too few are relevant.
//!
//! The searches run outside the library: it asks for `company_news_queries`, merges
//! and de-duplicates the answers (`dedup_news_by_link`), ranks them here, and when
//! `needs_news_fallback` says so collects `fallback_news_queries` answers batch by
//! batch with `merge_fallback_batch`.

use vstd::prelude::*;
use vstd::string::StringSliceAdditionalSpecFns;

use crate::financial_company::opt_str;
use crate::fetcher::{link_seen, link_seen_exec, news_relevance_score, relevance};
use crate::models::NewsItem;
use crate::symbol::{strip_all_suffix, strip_all_suffix_exec};
use crate::text::{
    char_is_whitespace, chars_of, lower_chars, push_str, string_from_chars,
    string_views, trim, trim_str, unicode_lower, unicode_upper, unicode_white_space,
    upper_chars,
};

verus! {

// ---------------------------------------------------------------------------
// Queries
// ---------------------------------------------------------------------------

/// The company's base symbol: `.NS` suffixes removed, upper-cased.
pub open spec fn news_base(symbol: Seq<char>) -> Seq<char> {
    unicode_upper(strip_all_suffix(symbol, ".NS"@))
}

/// One query from an optional text when it is not blank: the trimmed text and `suffix`.
pub open spec fn query_from(o: Option<Seq<char>>, suffix: Seq<char>) -> Seq<Seq<char>> {
    match o {
        Some(s) => if trim(s).len() > 0 {
            seq![trim(s) + suffix]
        } else {
            Seq::empty()
        },
        None => Seq::empty(),
    }
}

/// Headline searches about a company: earnings and results by symbol, then its name,
/// industry and sector when given.
pub open spec fn company_news_queries_of(
    symbol: Seq<char>,
    long_name: Option<Seq<char>>,
    sector: Option<Seq<char>>,
    industry: Option<Seq<char>>,
) -> Seq<Seq<char>> {
    let base = news_base(symbol);
    seq![base + " NSE India stock earnings"@, base + " NSE India quarterly results"@]
        + query_from(long_name, " India stock"@) + query_from(
        long_name,
        " earnings guidance India"@,
    ) + query_from(industry, " India stock sector news"@) + query_from(
        sector,
        " India NSE sector news"@,
    )
}

/// Broader searches used when too few relevant headlines were found.
pub open spec fn fallback_news_queries_of(
    symbol: Seq<char>,
    long_name: Option<Seq<char>>,
    sector: Option<Seq<char>>,
    industry: Option<Seq<char>>,
) -> Seq<Seq<char>> {
    query_from(long_name, " NSE India"@) + query_from(industry, " India listed companies"@)
        + query_from(sector, " India market news"@) + seq![news_base(symbol) + " NSE India"@]
}

/// Headline searches about a sector or topic.
pub open spec fn sector_news_queries_of(topic: Seq<char>) -> Seq<Seq<char>> {
    let t = trim(topic);
    seq![
        t + " India sector news"@,
        t + " India listed companies"@,
        t + " NSE BSE market updates"@,
    ]
}

fn news_base_exec(symbol: &str) -> (r: Vec<char>)
    ensures
        r@ == news_base(symbol@),
{
    let s = strip_all_suffix_exec(chars_of(symbol).as_slice(), ".NS");
    upper_chars(s.as_slice())
}

fn push_query_from(out: &mut Vec<String>, o: Option<&str>, suffix: &str)
    ensures
        string_views(final(out)@) == string_views(old(out)@) + query_from(opt_str(o), suffix@),
{
    let ghost before = string_views(out@);
    match o {
        Some(s) => {
            let t = trim_str(s);
            if t.len() > 0 {
                let mut q = string_from_chars(t.as_slice());
                push_str(&mut q, suffix);
                out.push(q);
                assert(string_views(out@) =~= before + query_from(opt_str(o), suffix@));
                return;
            }
        },
        None => {},
    }
    assert(string_views(out@) =~= before + query_from(opt_str(o), suffix@));
}

fn push_base_query(out: &mut Vec<String>, base: &[char], suffix: &str)
    ensures
        string_views(final(out)@) == string_views(old(out)@).push(base@ + suffix@),
{
    let mut q = string_from_chars(base);
    push_str(&mut q, suffix);
    out.push(q);
    assert(string_views(out@) =~= string_views(old(out)@).push(base@ + suffix@));
}

/// The headline searches for a company, in the order they are made.
pub fn company_news_queries(
    symbol: &str,
    long_name: Option<&str>,
    sector: Option<&str>,
    industry: Option<&str>,
) -> (r: Vec<String>)
    ensures
        string_views(r@) == company_news_queries_of(
            symbol@,
            opt_str(long_name),
            opt_str(sector),
            opt_str(industry),
        ),
{
    let base = news_base_exec(symbol);
    let mut out: Vec<String> = Vec::new();
    push_base_query(&mut out, base.as_slice(), " NSE India stock earnings");
    push_base_query(&mut out, base.as_slice(), " NSE India quarterly results");
    push_query_from(&mut out, long_name, " India stock");
    push_query_from(&mut out, long_name, " earnings guidance India");
    push_query_from(&mut out, industry, " India stock sector news");
    push_query_from(&mut out, sector, " India NSE sector news");
    assert(string_views(out@) =~= company_news_queries_of(
        symbol@,
        opt_str(long_name),
        opt_str(sector),
        opt_str(industry),
    ));
    out
}

/// The broader searches made when too few relevant headlines were found.
pub fn fallback_news_queries(
    symbol: &str,
    long_name: Option<&str>,
    sector: Option<&str>,
    industry: Option<&str>,
) -> (r: Vec<String>)
    ensures
        string_views(r@) == fallback_news_queries_of(
            symbol@,
            opt_str(long_name),
            opt_str(sector),
            opt_str(industry),
        ),
{
    let mut out: Vec<String> = Vec::new();
    assert(string_views(out@) =~= Seq::<Seq<char>>::empty());
    push_query_from(&mut out, long_name, " NSE India");
    push_query_from(&mut out, industry, " India listed companies");
    push_query_from(&mut out, sector, " India market news");
    let base = news_base_exec(symbol);
    push_base_query(&mut out, base.as_slice(), " NSE India");
    assert(string_views(out@) =~= fallback_news_queries_of(
        symbol@,
        opt_str(long_name),
        opt_str(sector),
        opt_str(industry),
    ));
    out
}

/// The headline searches about a sector or topic.
pub fn sector_news_queries(topic: &str) -> (r: Vec<String>)
    ensures
        string_views(r@) == sector_news_queries_of(topic@),
{
    let t = trim_str(topic);
    let mut out: Vec<String> = Vec::new();
    push_base_query(&mut out, t.as_slice(), " India sector news");
    push_base_query(&mut out, t.as_slice(), " India listed companies");
    push_base_query(&mut out, t.as_slice(), " NSE BSE market updates");
    assert(string_views(out@) =~= sector_news_queries_of(topic@));
    out
}

// ---------------------------------------------------------------------------
// Relevance tokens
// ---------------------------------------------------------------------------

/// `char::is_alphanumeric`: the Unicode `Alphabetic` or `Numeric` property.
pub uninterp spec fn unicode_alphanumeric(c: char) -> bool;

/// Calls `char::is_alphanumeric`.
#[verifier::external_body]
fn char_is_alphanumeric(c: char) -> (r: bool)
    ensures
        r == unicode_alphanumeric(c),
{
    c.is_alphanumeric()
}

/// The words of `s` after `cur` (`str::split_whitespace`): maximal runs of
/// characters that are not white space.
pub open spec fn words_after(s: Seq<char>, cur: Seq<char>) -> Seq<Seq<char>>
    decreases s.len(),
{
    if s.len() == 0 {
        if cur.len() > 0 {
            seq![cur]
        } else {
            Seq::empty()
        }
    } else if unicode_white_space(s[0]) {
        (if cur.len() > 0 {
            seq![cur]
        } else {
            Seq::<Seq<char>>::empty()
        }) + words_after(s.drop_first(), Seq::empty())
    } else {
        words_after(s.drop_first(), cur.push(s[0]))
    }
}

/// The words of `s`.
pub open spec fn words(s: Seq<char>) -> Seq<Seq<char>> {
    words_after(s, Seq::empty())
}

/// `s` without leading characters that are not alphanumeric.
pub open spec fn strip_non_alnum_start(s: Seq<char>) -> Seq<char>
    decreases s.len(),
{
    if s.len() > 0 && !unicode_alphanumeric(s[0]) {
        strip_non_alnum_start(s.drop_first())
    } else {
        s
    }
}

/// `s` without trailing characters that are not alphanumeric.
pub open spec fn strip_non_alnum_end(s: Seq<char>) -> Seq<char>
    decreases s.len(),
{
    if s.len() > 0 && !unicode_alphanumeric(s.last()) {
        strip_non_alnum_end(s.drop_last())
    } else {
        s
    }
}

/// A word trimmed of punctuation at both ends and lower-cased.
pub open spec fn word_token(w: Seq<char>) -> Seq<char> {
    unicode_lower(strip_non_alnum_end(strip_non_alnum_start(w)))
}

/// The upper-cased tokens of the words whose lower-cased token is at least four
/// bytes long (in UTF-8).
pub open spec fn long_tokens(ws: Seq<Seq<char>>) -> Seq<Seq<char>>
    decreases ws.len(),
{
    if ws.len() == 0 {
        Seq::empty()
    } else {
        let t = word_token(ws[0]);
        (if vstd::utf8::encode_utf8(t).len() >= 4 {
            seq![unicode_upper(t)]
        } else {
            Seq::<Seq<char>>::empty()
        }) + long_tokens(ws.drop_first())
    }
}

/// The tokens of an optional text.
pub open spec fn text_tokens(o: Option<Seq<char>>) -> Seq<Seq<char>> {
    match o {
        Some(s) => long_tokens(words(s)),
        None => Seq::empty(),
    }
}

/// The tokens a headline is scored against: the base symbol, then the long words of
/// the company name, industry and sector.
pub open spec fn news_tokens_of(
    symbol: Seq<char>,
    long_name: Option<Seq<char>>,
    industry: Option<Seq<char>>,
    sector: Option<Seq<char>>,
) -> Seq<Seq<char>> {
    seq![news_base(symbol)] + text_tokens(long_name) + text_tokens(industry) + text_tokens(sector)
}

fn words_exec(s: &str) -> (r: Vec<Vec<char>>)
    ensures
        r@.map_values(|w: Vec<char>| w@) == words(s@),
{
    let v = chars_of(s);
    let mut out: Vec<Vec<char>> = Vec::new();
    let mut cur: Vec<char> = Vec::new();
    let mut i: usize = 0;
    assert(v@.skip(0) =~= v@);
    while i < v.len()
        invariant
            i <= v@.len(),
            v@ == s@,
            words(s@) == out@.map_values(|w: Vec<char>| w@) + words_after(v@.skip(i as int), cur@),
        decreases v.len() - i,
    {
        let c = v[i];
        let ghost rest = v@.skip(i as int);
        assert(rest[0] == c);
        assert(rest.drop_first() =~= v@.skip(i + 1));
        let ghost before = out@.map_values(|w: Vec<char>| w@);
        let ghost cv = cur@;
        assert(words_after(rest, cv) == if unicode_white_space(c) {
            (if cv.len() > 0 {
                seq![cv]
            } else {
                Seq::<Seq<char>>::empty()
            }) + words_after(rest.drop_first(), Seq::empty())
        } else {
            words_after(rest.drop_first(), cv.push(c))
        });
        if char_is_whitespace(c) {
            if cur.len() > 0 {
                let w = cur;
                cur = Vec::new();
                let ghost wv = w@;
                out.push(w);
                assert(out@.map_values(|w: Vec<char>| w@) =~= before.push(wv));
                assert(before + (seq![wv] + words_after(v@.skip(i + 1), Seq::empty())) =~= before.push(wv)
                    + words_after(v@.skip(i + 1), Seq::empty()));
                assert(words(s@) == before + words_after(rest, cv));
                assert(words_after(rest, cv) == seq![wv] + words_after(v@.skip(i + 1), Seq::empty()));
                assert(cur@ == Seq::<char>::empty());
            } else {
                assert(Seq::<Seq<char>>::empty() + words_after(v@.skip(i + 1), Seq::empty())
                    =~= words_after(v@.skip(i + 1), Seq::empty()));
                assert(words(s@) == before + words_after(rest, cv));
                assert(cv =~= Seq::<char>::empty());
            }
        } else {
            cur.push(c);
            assert(cur@ == cv.push(c));
        }
        assert(words(s@) == out@.map_values(|w: Vec<char>| w@) + words_after(v@.skip(i + 1), cur@));
        i += 1;
    }
    assert(v@.skip(i as int) =~= Seq::<char>::empty());
    if cur.len() > 0 {
        let ghost before = out@.map_values(|w: Vec<char>| w@);
        let ghost wv = cur@;
        out.push(cur);
        assert(out@.map_values(|w: Vec<char>| w@) =~= before + seq![wv]);
    } else {
        assert(out@.map_values(|w: Vec<char>| w@) =~= out@.map_values(|w: Vec<char>| w@)
            + Seq::<Seq<char>>::empty());
    }
    out
}

fn strip_non_alnum_exec(w: &[char]) -> (r: Vec<char>)
    ensures
        r@ == strip_non_alnum_end(strip_non_alnum_start(w@)),
{
    let mut start: usize = 0;
    assert(w@.skip(0) =~= w@);
    while start < w.len() && !char_is_alphanumeric(w[start])
        invariant
            start <= w@.len(),
            strip_non_alnum_start(w@) == strip_non_alnum_start(w@.skip(start as int)),
        decreases w.len() - start,
    {
        assert(w@.skip(start as int).drop_first() =~= w@.skip(start + 1));
        start += 1;
    }
    let mut end: usize = w.len();
    assert(w@.subrange(start as int, end as int) =~= w@.skip(start as int));
    while end > start && !char_is_alphanumeric(w[end - 1])
        invariant
            start <= end <= w@.len(),
            strip_non_alnum_end(strip_non_alnum_start(w@)) == strip_non_alnum_end(
                w@.subrange(start as int, end as int),
            ),
        decreases end - start,
    {
        assert(w@.subrange(start as int, end as int).drop_last() =~= w@.subrange(
            start as int,
            end - 1,
        ));
        end -= 1;
    }
    crate::text::slice_chars(w, start, end)
}

fn push_long_tokens(out: &mut Vec<String>, o: Option<&str>)
    ensures
        string_views(final(out)@) == string_views(old(out)@) + text_tokens(opt_str(o)),
{
    let ghost start = string_views(out@);
    match o {
        None => {
            assert(string_views(out@) =~= start + Seq::<Seq<char>>::empty());
        },
        Some(s) => {
            let ws = words_exec(s);
            let ghost wv = ws@.map_values(|w: Vec<char>| w@);
            let mut k: usize = 0;
            assert(wv.skip(0) =~= wv);
            while k < ws.len()
                invariant
                    k <= ws@.len(),
                    wv == ws@.map_values(|w: Vec<char>| w@),
                    wv == words(s@),
                    start + long_tokens(wv) == string_views(out@) + long_tokens(wv.skip(k as int)),
                decreases ws.len() - k,
            {
                let ghost rest = wv.skip(k as int);
                assert(rest[0] == ws@[k as int]@);
                assert(rest.drop_first() =~= wv.skip(k + 1));
                let stripped = strip_non_alnum_exec(ws[k].as_slice());
                let lower = lower_chars(stripped.as_slice());
                let lower_text = string_from_chars(lower.as_slice());
                let ghost before = string_views(out@);
                assert(word_token(rest[0]) == lower@);
                assert(long_tokens(rest) == (if vstd::utf8::encode_utf8(lower@).len() >= 4 {
                    seq![unicode_upper(lower@)]
                } else {
                    Seq::<Seq<char>>::empty()
                }) + long_tokens(rest.drop_first()));
                let lt: &str = lower_text.as_str();
                assert(lt.spec_bytes() == vstd::utf8::encode_utf8(lower@));
                if lt.as_bytes().len() >= 4 {
                    let up = upper_chars(lower.as_slice());
                    out.push(string_from_chars(up.as_slice()));
                    assert(string_views(out@) =~= before.push(unicode_upper(lower@)));
                    assert(before.push(unicode_upper(lower@)) + long_tokens(wv.skip(k + 1))
                        =~= before + (seq![unicode_upper(lower@)] + long_tokens(wv.skip(k + 1))));
                    assert(long_tokens(rest) == seq![unicode_upper(lower@)] + long_tokens(wv.skip(k + 1)));
                } else {
                    assert(before + long_tokens(wv.skip(k + 1)) =~= before + (
                    Seq::<Seq<char>>::empty() + long_tokens(wv.skip(k + 1))));
                    assert(long_tokens(rest) == Seq::<Seq<char>>::empty() + long_tokens(wv.skip(k + 1)));
                }
                assert(start + long_tokens(wv) == string_views(out@) + long_tokens(wv.skip(k + 1)));
                k += 1;
            }
            assert(wv.skip(k as int) =~= Seq::<Seq<char>>::empty());
            assert(string_views(out@) =~= string_views(out@) + Seq::<Seq<char>>::empty());
        },
    }
}

/// The tokens headlines about a company are scored against.
pub fn news_tokens(
    symbol: &str,
    long_name: Option<&str>,
    industry: Option<&str>,
    sector: Option<&str>,
) -> (r: Vec<String>)
    ensures
        string_views(r@) == news_tokens_of(
            symbol@,
            opt_str(long_name),
            opt_str(industry),
            opt_str(sector),
        ),
{
    let base = news_base_exec(symbol);
    let mut out: Vec<String> = Vec::new();
    out.push(string_from_chars(base.as_slice()));
    assert(string_views(out@) =~= seq![news_base(symbol@)]);
    push_long_tokens(&mut out, long_name);
    push_long_tokens(&mut out, industry);
    push_long_tokens(&mut out, sector);
    assert(string_views(out@) =~= news_tokens_of(
        symbol@,
        opt_str(long_name),
        opt_str(industry),
        opt_str(sector),
    ));
    out
}

// ---------------------------------------------------------------------------
// Ranking
// ---------------------------------------------------------------------------

/// `a` sorts before `b` as `String`s do: by the first differing character, a proper
/// prefix first (UTF-8 byte order is code-point order).
pub open spec fn text_lt(a: Seq<char>, b: Seq<char>) -> bool
    decreases a.len(),
{
    if a.len() == 0 {
        b.len() > 0
    } else if b.len() == 0 {
        false
    } else if a[0] != b[0] {
        (a[0] as u32) < (b[0] as u32)
    } else {
        text_lt(a.drop_first(), b.drop_first())
    }
}

proof fn lemma_text_lt_irreflexive(a: Seq<char>)
    ensures
        !text_lt(a, a),
    decreases a.len(),
{
    if a.len() > 0 {
        lemma_text_lt_irreflexive(a.drop_first());
    }
}

proof fn lemma_text_lt_transitive(a: Seq<char>, b: Seq<char>, c: Seq<char>)
    requires
        text_lt(a, b),
        text_lt(b, c),
    ensures
        text_lt(a, c),
    decreases a.len(),
{
    if a.len() > 0 && b.len() > 0 && c.len() > 0 && a[0] == b[0] && b[0] == c[0] {
        lemma_text_lt_transitive(a.drop_first(), b.drop_first(), c.drop_first());
    }
}

proof fn lemma_text_lt_total(a: Seq<char>, b: Seq<char>)
    requires
        a != b,
    ensures
        text_lt(a, b) || text_lt(b, a),
    decreases a.len(),
{
    if a.len() > 0 && b.len() > 0 && a[0] != b[0] {
        vstd::utf8::char_u32_cast(a[0], a[0] as u32);
        vstd::utf8::char_u32_cast(b[0], b[0] as u32);
    } else if a.len() > 0 && b.len() > 0 && a[0] == b[0] {
        if a.drop_first() == b.drop_first() {
            assert(a =~= seq![a[0]] + a.drop_first());
            assert(b =~= seq![b[0]] + b.drop_first());
        }
        lemma_text_lt_total(a.drop_first(), b.drop_first());
    } else if a.len() == 0 && b.len() == 0 {
        assert(a =~= b);
    }
}

fn text_lt_exec(a: &[char], b: &[char]) -> (r: bool)
    ensures
        r == text_lt(a@, b@),
{
    let mut i: usize = 0;
    assert(a@.skip(0) =~= a@ && b@.skip(0) =~= b@);
    while i < a.len() && i < b.len()
        invariant
            i <= a@.len(),
            i <= b@.len(),
            text_lt(a@, b@) == text_lt(a@.skip(i as int), b@.skip(i as int)),
        decreases a.len() - i,
    {
        assert(a@.skip(i as int)[0] == a@[i as int] && b@.skip(i as int)[0] == b@[i as int]);
        if a[i] != b[i] {
            return (a[i] as u32) < (b[i] as u32);
        }
        assert(a@.skip(i as int).drop_first() =~= a@.skip(i + 1));
        assert(b@.skip(i as int).drop_first() =~= b@.skip(i + 1));
        i += 1;
    }
    i == a.len() && i < b.len()
}

/// Relevance of each headline's title.
pub open spec fn news_scores(items: Seq<NewsItem>, tokens: Seq<Seq<char>>) -> Seq<int> {
    items.map_values(|n: NewsItem| relevance(n.title@, tokens))
}

/// Headline `a` ranks before headline `b`: higher relevance first, then the later
/// publication text, then input order.
pub open spec fn ranks_before(items: Seq<NewsItem>, ss: Seq<int>, a: int, b: int) -> bool {
    if ss[a] != ss[b] {
        ss[a] > ss[b]
    } else if items[a].published_at@ != items[b].published_at@ {
        text_lt(items[b].published_at@, items[a].published_at@)
    } else {
        a < b
    }
}

/// `idx` lists every headline once, best ranked first.
pub open spec fn ranking(items: Seq<NewsItem>, ss: Seq<int>, idx: Seq<usize>) -> bool {
    &&& idx.len() == items.len()
    &&& forall|j: int| 0 <= j < idx.len() ==> idx[j] < items.len()
    &&& forall|k: usize| k < items.len() ==> #[trigger] idx.contains(k)
    &&& forall|j1: int, j2: int|
        0 <= j1 < j2 < idx.len() ==> ranks_before(items, ss, idx[j1] as int, idx[j2] as int)
}

/// The relevant headlines (score above zero) in the order `idx`, at most `max` of them.
pub open spec fn keep_relevant(items: Seq<NewsItem>, ss: Seq<int>, idx: Seq<usize>, max: nat) -> Seq<
    NewsItem,
>
    decreases idx.len(),
{
    if idx.len() == 0 || max == 0 {
        Seq::empty()
    } else if ss[idx[0] as int] > 0 {
        seq![items[idx[0] as int]] + keep_relevant(items, ss, idx.drop_first(), (max - 1) as nat)
    } else {
        keep_relevant(items, ss, idx.drop_first(), max)
    }
}

proof fn lemma_ranks_before_irreflexive(items: Seq<NewsItem>, ss: Seq<int>, a: int)
    ensures
        !ranks_before(items, ss, a, a),
{
}

proof fn lemma_ranks_before_transitive(items: Seq<NewsItem>, ss: Seq<int>, a: int, b: int, c: int)
    requires
        ranks_before(items, ss, a, b),
        ranks_before(items, ss, b, c),
    ensures
        ranks_before(items, ss, a, c),
{
    let pa = items[a].published_at@;
    let pb = items[b].published_at@;
    let pc = items[c].published_at@;
    if ss[a] == ss[b] && ss[b] == ss[c] {
        if pa != pb && pb != pc {
            lemma_text_lt_transitive(pc, pb, pa);
            lemma_text_lt_irreflexive(pa);
        } else if pa != pb {
            lemma_text_lt_irreflexive(pa);
        } else if pb != pc {
            lemma_text_lt_irreflexive(pa);
        }
    }
}

proof fn lemma_ranks_before_total(items: Seq<NewsItem>, ss: Seq<int>, a: int, b: int)
    requires
        a != b,
    ensures
        ranks_before(items, ss, a, b) || ranks_before(items, ss, b, a),
{
    let pa = items[a].published_at@;
    let pb = items[b].published_at@;
    if ss[a] == ss[b] && pa != pb {
        lemma_text_lt_total(pa, pb);
    }
}

fn ranks_before_exec(items: &Vec<NewsItem>, scores: &Vec<i32>, a: usize, b: usize) -> (r: bool)
    requires
        a < items@.len(),
        b < items@.len(),
        scores@.len() == items@.len(),
    ensures
        r == ranks_before(items@, scores@.map_values(|x: i32| x as int), a as int, b as int),
{
    let ghost ss = scores@.map_values(|x: i32| x as int);
    assert(ss[a as int] == scores@[a as int] && ss[b as int] == scores@[b as int]);
    if scores[a] != scores[b] {
        return scores[a] > scores[b];
    }
    let pa = chars_of(items[a].published_at.as_str());
    let pb = chars_of(items[b].published_at.as_str());
    if !crate::text::chars_eq(pa.as_slice(), pb.as_slice()) {
        return text_lt_exec(pb.as_slice(), pa.as_slice());
    }
    a < b
}

fn ranked_insert_position(items: &Vec<NewsItem>, scores: &Vec<i32>, idx: &Vec<usize>, i: usize) -> (p: usize)
    requires
        i < items@.len(),
        scores@.len() == items@.len(),
        forall|j: int| 0 <= j < idx@.len() ==> idx@[j] < i,
    ensures
        p <= idx@.len(),
        forall|j: int|
            0 <= j < p ==> !ranks_before(
                items@,
                scores@.map_values(|x: i32| x as int),
                i as int,
                idx@[j] as int,
            ),
        p < idx@.len() ==> ranks_before(
            items@,
            scores@.map_values(|x: i32| x as int),
            i as int,
            idx@[p as int] as int,
        ),
{
    let mut p: usize = 0;
    while p < idx.len()
        invariant
            i < items@.len(),
            scores@.len() == items@.len(),
            p <= idx@.len(),
            forall|j: int| 0 <= j < idx@.len() ==> idx@[j] < i,
            forall|j: int|
                0 <= j < p ==> !ranks_before(
                    items@,
                    scores@.map_values(|x: i32| x as int),
                    i as int,
                    idx@[j] as int,
                ),
        decreases idx.len() - p,
    {
        if ranks_before_exec(items, scores, i, idx[p]) {
            return p;
        }
        p += 1;
    }
    p
}

fn ranked_order(items: &Vec<NewsItem>, scores: &Vec<i32>) -> (idx: Vec<usize>)
    requires
        scores@.len() == items@.len(),
    ensures
        ranking(items@, scores@.map_values(|x: i32| x as int), idx@),
{
    let ghost ss = scores@.map_values(|x: i32| x as int);
    let ghost all = items@;
    let mut idx: Vec<usize> = Vec::new();
    let mut i: usize = 0;
    while i < items.len()
        invariant
            ss == scores@.map_values(|x: i32| x as int),
            all == items@,
            scores@.len() == items@.len(),
            i <= items@.len(),
            idx@.len() == i,
            forall|j: int| 0 <= j < idx@.len() ==> idx@[j] < i,
            forall|k: usize| k < i ==> #[trigger] idx@.contains(k),
            forall|j1: int, j2: int|
                0 <= j1 < j2 < idx@.len() ==> ranks_before(all, ss, idx@[j1] as int, idx@[j2] as int),
        decreases items.len() - i,
    {
        let p = ranked_insert_position(items, scores, &idx, i);
        let ghost old_idx = idx@;
        idx.insert(p, i);
        proof {
            let n = idx@;
            assert forall|j1: int, j2: int| 0 <= j1 < j2 < n.len() implies ranks_before(
                all,
                ss,
                n[j1] as int,
                n[j2] as int,
            ) by {
                if j1 < p && j2 < p {
                    assert(n[j1] == old_idx[j1] && n[j2] == old_idx[j2]);
                } else if j1 < p && j2 == p {
                    assert(n[j1] == old_idx[j1] && n[j2] == i);
                    lemma_ranks_before_total(all, ss, i as int, old_idx[j1] as int);
                } else if j1 < p && j2 > p {
                    assert(n[j1] == old_idx[j1] && n[j2] == old_idx[j2 - 1]);
                } else if j1 == p {
                    assert(n[j1] == i && n[j2] == old_idx[j2 - 1]);
                    if j2 - 1 > p {
                        lemma_ranks_before_transitive(
                            all,
                            ss,
                            i as int,
                            old_idx[p as int] as int,
                            old_idx[j2 - 1] as int,
                        );
                    }
                } else {
                    assert(n[j1] == old_idx[j1 - 1] && n[j2] == old_idx[j2 - 1]);
                }
            }
            assert forall|k: usize| k < i + 1 implies #[trigger] n.contains(k) by {
                if k == i {
                    assert(n[p as int] == i);
                } else {
                    assert(old_idx.contains(k));
                    let w = choose|w: int| 0 <= w < old_idx.len() && old_idx[w] == k;
                    if w < p {
                        assert(n[w] == k);
                    } else {
                        assert(n[w + 1] == k);
                    }
                }
            }
            assert forall|j: int| 0 <= j < n.len() implies n[j] < i + 1 by {
                if j < p {
                    assert(n[j] == old_idx[j]);
                } else if j > p {
                    assert(n[j] == old_idx[j - 1]);
                }
            }
        }
        i += 1;
    }
    idx
}

/// Relevant headlines, best first: ranked by relevance to `tokens`, then by
/// publication text (later first), ties kept in input order; headlines with no
/// relevance dropped; at most `max_items` kept.
pub fn rank_company_news(items: Vec<NewsItem>, tokens: &[String], max_items: usize) -> (r: Vec<
    NewsItem,
>)
    requires
        tokens@.len() <= 1_000_000_000,
    ensures
        exists|idx: Seq<usize>|
            ranking(items@, news_scores(items@, string_views(tokens@)), idx) && r@ == keep_relevant(
                items@,
                news_scores(items@, string_views(tokens@)),
                idx,
                max_items as nat,
            ),
{
    let ghost all = items@;
    let ghost ss = news_scores(all, string_views(tokens@));
    let n = items.len();
    let mut scores: Vec<i32> = Vec::new();
    let mut i: usize = 0;
    while i < n
        invariant
            n == items@.len(),
            all == items@,
            tokens@.len() <= 1_000_000_000,
            ss == news_scores(all, string_views(tokens@)),
            i <= n,
            scores@.len() == i,
            forall|j: int| 0 <= j < i ==> scores@[j] as int == ss[j],
        decreases n - i,
    {
        let sc = news_relevance_score(items[i].title.as_str(), tokens);
        scores.push(sc);
        i += 1;
    }
    assert(scores@.map_values(|x: i32| x as int) =~= ss);
    let idx = ranked_order(&items, &scores);
    proof {
        assert forall|j1: int, j2: int| 0 <= j1 < j2 < idx@.len() implies idx@[j1] != idx@[j2] by {
            lemma_ranks_before_irreflexive(all, ss, idx@[j1] as int);
        }
    }
    let mut items = items;
    let mut slots: Vec<Option<NewsItem>> = Vec::new();
    while items.len() > 0
        invariant
            items@.len() + slots@.len() == n,
            n == all.len(),
            items@ == all.take(items@.len() as int),
            forall|t: int| 0 <= t < slots@.len() ==> slots@[t] == Some(all[n - 1 - t]),
        decreases items@.len(),
    {
        let x = items.pop().unwrap();
        slots.push(Some(x));
        assert(items@ =~= all.take(items@.len() as int));
    }
    let mut out: Vec<NewsItem> = Vec::new();
    let mut j: usize = 0;
    assert(idx@.skip(0) =~= idx@);
    while j < n && out.len() < max_items
        invariant
            n == all.len(),
            idx@.len() == n,
            slots@.len() == n,
            scores@.len() == n,
            j <= n,
            out@.len() <= max_items,
            ranking(all, ss, idx@),
            scores@.map_values(|x: i32| x as int) == ss,
            forall|j1: int, j2: int| 0 <= j1 < j2 < idx@.len() ==> idx@[j1] != idx@[j2],
            forall|t: int|
                j <= t < n ==> slots@[n - 1 - idx@[t]] == Some(all[idx@[t] as int]),
            keep_relevant(all, ss, idx@, max_items as nat) == out@ + keep_relevant(
                all,
                ss,
                idx@.skip(j as int),
                (max_items - out@.len()) as nat,
            ),
        decreases n - j,
    {
        let k = idx[j];
        assert(k < n);
        let ghost rest = idx@.skip(j as int);
        assert(rest[0] == k);
        assert(rest.drop_first() =~= idx@.skip(j + 1));
        assert(scores@[k as int] as int == ss[k as int]);
        if scores[k] > 0 {
            let pos = n - 1 - k;
            let mut taken: Option<NewsItem> = None;
            std::mem::swap(&mut taken, &mut slots[pos]);
            let item = taken.unwrap();
            let ghost before = out@;
            out.push(item);
            assert(out@ =~= before + seq![all[k as int]]);
            assert(before + (seq![all[k as int]] + keep_relevant(
                all,
                ss,
                idx@.skip(j + 1),
                (max_items - before.len() - 1) as nat,
            )) =~= out@ + keep_relevant(
                all,
                ss,
                idx@.skip(j + 1),
                (max_items - out@.len()) as nat,
            ));
            assert forall|t: int| j + 1 <= t < n implies slots@[n - 1 - idx@[t]] == Some(
                all[idx@[t] as int],
            ) by {
                assert(idx@[t] != idx@[j as int]);
            }
        }
        j += 1;
    }
    proof {
        if j == n {
            assert(idx@.skip(j as int) =~= Seq::<usize>::empty());
        }
        assert(out@ + Seq::<NewsItem>::empty() =~= out@);
    }
    out
}

// ---------------------------------------------------------------------------
// Fallback searches
// ---------------------------------------------------------------------------

/// Too few relevant headlines: fewer than half of `max_items`.
pub fn needs_news_fallback(found: usize, max_items: usize) -> (r: bool)
    ensures
        r == (found < max_items / 2),
{
    found < max_items / 2
}

/// The fallback headlines collected after one more answer: headlines whose non-empty
/// link was already collected are skipped, and collecting stops once `max` are held.
pub open spec fn merge_news(acc: Seq<NewsItem>, batch: Seq<NewsItem>, max: nat) -> Seq<NewsItem>
    decreases batch.len(),
{
    if batch.len() == 0 {
        acc
    } else {
        let x = batch[0];
        if x.link@.len() > 0 && link_seen(acc, x.link@) {
            merge_news(acc, batch.drop_first(), max)
        } else if acc.len() + 1 >= max {
            acc.push(x)
        } else {
            merge_news(acc.push(x), batch.drop_first(), max)
        }
    }
}

/// Adds one fallback answer to the headlines collected so far; tells whether enough
/// (`max_items`) are now held, so that no further search is needed.
pub fn merge_fallback_batch(acc: &mut Vec<NewsItem>, batch: Vec<NewsItem>, max_items: usize) -> (done:
    bool)
    ensures
        final(acc)@ == merge_news(old(acc)@, batch@, max_items as nat),
        done == (final(acc)@.len() >= max_items),
{
    let ghost all = batch@;
    let ghost start = acc@;
    let mut batch = batch;
    let mut rev: Vec<NewsItem> = Vec::new();
    while batch.len() > 0
        invariant
            batch@.len() + rev@.len() == all.len(),
            batch@ == all.take(batch@.len() as int),
            forall|t: int| 0 <= t < rev@.len() ==> rev@[t] == all[all.len() - 1 - t],
        decreases batch@.len(),
    {
        let x = batch.pop().unwrap();
        rev.push(x);
        assert(batch@ =~= all.take(batch@.len() as int));
    }
    assert(all.skip(0) =~= all);
    let mut reached = false;
    while rev.len() > 0 && !reached
        invariant
            rev@.len() <= all.len(),
            forall|t: int| 0 <= t < rev@.len() ==> rev@[t] == all[all.len() - 1 - t],
            reached ==> merge_news(start, all, max_items as nat) == acc@ && acc@.len()
                >= max_items,
            !reached ==> merge_news(start, all, max_items as nat) == merge_news(
                acc@,
                all.skip(all.len() - rev@.len()),
                max_items as nat,
            ),
        decreases rev@.len(),
    {
        let ghost from = all.len() - rev@.len();
        let x = rev.pop().unwrap();
        assert(all.skip(from)[0] == x);
        assert(all.skip(from).drop_first() =~= all.skip(from + 1));
        let l = chars_of(x.link.as_str());
        let ghost before = acc@;
        assert(merge_news(before, all.skip(from), max_items as nat) == if x.link@.len() > 0
            && link_seen(before, x.link@) {
            merge_news(before, all.skip(from + 1), max_items as nat)
        } else if before.len() + 1 >= max_items {
            before.push(x)
        } else {
            merge_news(before.push(x), all.skip(from + 1), max_items as nat)
        });
        if l.len() > 0 && link_seen_exec(acc, l.as_slice()) {
        } else {
            acc.push(x);
            assert(acc@ == before.push(x));
            if acc.len() >= max_items {
                reached = true;
            }
        }
    }
    if !reached {
        assert(all.skip(all.len() as int) =~= Seq::<NewsItem>::empty());
    }
    acc.len() >= max_items
}

} // verus!
