//! Decisions around provider lookups: news relevance, fallback peers and peer search.
//!
//! The network calls themselves happen outside the library; these functions decide
//! what to ask for and what to keep of the answers.

use vstd::prelude::*;

use crate::canonical::opt_str_chars;
use crate::financial_company::opt_str_text;
use crate::models::NewsItem;
use crate::text::{
    chars_eq, chars_eq_str, chars_of, contains_chars, contains_seq, contains_str,
    eq_ignore_ascii_case, eq_ignore_ascii_case_exec, ends_with_str, is_suffix, lower_chars,
    push_str, string_of, string_views, unicode_lower,
};

verus! {

// ---------------------------------------------------------------------------
// Headline relevance
// ---------------------------------------------------------------------------

/// How many tokens (lower-cased, non-empty) occur in the lower-cased title.
pub open spec fn token_hits(lower_title: Seq<char>, tokens: Seq<Seq<char>>) -> nat
    decreases tokens.len(),
{
    if tokens.len() == 0 {
        0
    } else {
        let t = unicode_lower(tokens.last());
        token_hits(lower_title, tokens.drop_last()) + if t.len() > 0 && contains_seq(
            lower_title,
            t,
        ) {
            1nat
        } else {
            0nat
        }
    }
}

/// Two points per matching token, one more for an earnings / results / guidance headline.
pub open spec fn relevance(title: Seq<char>, tokens: Seq<Seq<char>>) -> int {
    let lower = unicode_lower(title);
    2 * token_hits(lower, tokens) + if contains_seq(lower, "earnings"@) || contains_seq(
        lower,
        "results"@,
    ) || contains_seq(lower, "guidance"@) {
        1int
    } else {
        0int
    }
}

/// Relevance of a headline to the company: two points per matching token, one more for an
/// earnings, results or guidance headline.
pub fn news_relevance_score(title: &str, tokens: &[String]) -> (r: i32)
    requires
        tokens@.len() <= 1_000_000_000,
    ensures
        r == relevance(title@, string_views(tokens@)),
{
    let ghost tv = string_views(tokens@);
    let lower = lower_chars(chars_of(title).as_slice());
    let mut score: i32 = 0;
    let mut i: usize = 0;
    while i < tokens.len()
        invariant
            i <= tokens@.len(),
            tokens@.len() <= 1_000_000_000,
            tv == string_views(tokens@),
            score == 2 * token_hits(lower@, tv.take(i as int)),
            token_hits(lower@, tv.take(i as int)) <= i,
        decreases tokens.len() - i,
    {
        let t = lower_chars(chars_of(tokens[i].as_str()).as_slice());
        assert(tv.take(i + 1).drop_last() =~= tv.take(i as int));
        assert(tv.take(i + 1).last() == tokens@[i as int]@);
        if t.len() > 0 && contains_chars(lower.as_slice(), t.as_slice()) {
            score += 2;
        }
        i += 1;
    }
    assert(tv.take(tokens@.len() as int) =~= tv);
    if contains_str(lower.as_slice(), "earnings") || contains_str(lower.as_slice(), "results")
        || contains_str(lower.as_slice(), "guidance") {
        score += 1;
    }
    score
}

// ---------------------------------------------------------------------------
// Fallback peers by industry / sector
// ---------------------------------------------------------------------------

/// The curated peer list for a lower-cased industry and sector.
pub open spec fn fallback_list(ind: Seq<char>, sec: Seq<char>) -> Seq<Seq<char>> {
    if contains_seq(ind, "information technology"@) || contains_seq(sec, "technology"@) {
        seq![
            "TCS.NS"@,
            "HCLTECH.NS"@,
            "WIPRO.NS"@,
            "TECHM.NS"@,
            "LTIM.NS"@,
            "PERSISTENT.NS"@,
            "MPHASIS.NS"@,
            "COFORGE.NS"@,
        ]
    } else if contains_seq(ind, "bank"@) || contains_seq(sec, "financial"@) {
        seq![
            "HDFCBANK.NS"@,
            "ICICIBANK.NS"@,
            "KOTAKBANK.NS"@,
            "AXISBANK.NS"@,
            "SBIN.NS"@,
            "INDUSINDBK.NS"@,
            "IDFCFIRSTB.NS"@,
            "BANKBARODA.NS"@,
        ]
    } else if contains_seq(ind, "pharma"@) || contains_seq(sec, "healthcare"@) {
        seq![
            "SUNPHARMA.NS"@,
            "DRREDDY.NS"@,
            "CIPLA.NS"@,
            "DIVISLAB.NS"@,
            "TORNTPHARM.NS"@,
            "LUPIN.NS"@,
            "AUROPHARMA.NS"@,
            "ZYDUSLIFE.NS"@,
        ]
    } else if contains_seq(ind, "auto"@) || contains_seq(sec, "consumer cyclical"@) {
        seq![
            "MARUTI.NS"@,
            "TATAMOTORS.NS"@,
            "M&M.NS"@,
            "BAJAJ-AUTO.NS"@,
            "EICHERMOT.NS"@,
            "HEROMOTOCO.NS"@,
            "TVSMOTOR.NS"@,
            "ASHOKLEY.NS"@,
        ]
    } else if contains_seq(ind, "energy"@) || contains_seq(ind, "oil"@) || contains_seq(
        sec,
        "energy"@,
    ) {
        seq![
            "RELIANCE.NS"@,
            "ONGC.NS"@,
            "IOC.NS"@,
            "BPCL.NS"@,
            "HINDPETRO.NS"@,
            "GAIL.NS"@,
            "OIL.NS"@,
            "PETRONET.NS"@,
        ]
    } else if contains_seq(ind, "cement"@) || contains_seq(sec, "basic materials"@) {
        seq![
            "ULTRACEMCO.NS"@,
            "SHREECEM.NS"@,
            "AMBUJACEM.NS"@,
            "ACC.NS"@,
            "DALBHARAT.NS"@,
            "RAMCOCEM.NS"@,
            "JKCEMENT.NS"@,
            "NUVOCO.NS"@,
        ]
    } else {
        Seq::empty()
    }
}

/// The entries of `list` that are not `subject` (ASCII case-insensitively), at most `limit`.
pub open spec fn other_than_subject(list: Seq<Seq<char>>, subject: Seq<char>, limit: nat) -> Seq<
    Seq<char>,
>
    decreases list.len(),
{
    if list.len() == 0 || limit == 0 {
        Seq::empty()
    } else if eq_ignore_ascii_case(list[0], subject) {
        other_than_subject(list.drop_first(), subject, limit)
    } else {
        seq![list[0]] + other_than_subject(list.drop_first(), subject, (limit - 1) as nat)
    }
}

fn fallback_list_exec(ind: &[char], sec: &[char]) -> (r: Vec<&'static str>)
    ensures
        r@.map_values(|s: &str| s@) == fallback_list(ind@, sec@),
{
    let r: Vec<&'static str> = if contains_str(ind, "information technology") || contains_str(
        sec,
        "technology",
    ) {
        vec![
            "TCS.NS",
            "HCLTECH.NS",
            "WIPRO.NS",
            "TECHM.NS",
            "LTIM.NS",
            "PERSISTENT.NS",
            "MPHASIS.NS",
            "COFORGE.NS",
        ]
    } else if contains_str(ind, "bank") || contains_str(sec, "financial") {
        vec![
            "HDFCBANK.NS",
            "ICICIBANK.NS",
            "KOTAKBANK.NS",
            "AXISBANK.NS",
            "SBIN.NS",
            "INDUSINDBK.NS",
            "IDFCFIRSTB.NS",
            "BANKBARODA.NS",
        ]
    } else if contains_str(ind, "pharma") || contains_str(sec, "healthcare") {
        vec![
            "SUNPHARMA.NS",
            "DRREDDY.NS",
            "CIPLA.NS",
            "DIVISLAB.NS",
            "TORNTPHARM.NS",
            "LUPIN.NS",
            "AUROPHARMA.NS",
            "ZYDUSLIFE.NS",
        ]
    } else if contains_str(ind, "auto") || contains_str(sec, "consumer cyclical") {
        vec![
            "MARUTI.NS",
            "TATAMOTORS.NS",
            "M&M.NS",
            "BAJAJ-AUTO.NS",
            "EICHERMOT.NS",
            "HEROMOTOCO.NS",
            "TVSMOTOR.NS",
            "ASHOKLEY.NS",
        ]
    } else if contains_str(ind, "energy") || contains_str(ind, "oil") || contains_str(
        sec,
        "energy",
    ) {
        vec![
            "RELIANCE.NS",
            "ONGC.NS",
            "IOC.NS",
            "BPCL.NS",
            "HINDPETRO.NS",
            "GAIL.NS",
            "OIL.NS",
            "PETRONET.NS",
        ]
    } else if contains_str(ind, "cement") || contains_str(sec, "basic materials") {
        vec![
            "ULTRACEMCO.NS",
            "SHREECEM.NS",
            "AMBUJACEM.NS",
            "ACC.NS",
            "DALBHARAT.NS",
            "RAMCOCEM.NS",
            "JKCEMENT.NS",
            "NUVOCO.NS",
        ]
    } else {
        Vec::new()
    };
    assert(r@.map_values(|s: &str| s@) =~= fallback_list(ind@, sec@));
    r
}

/// Curated peers for the industry / sector, without the subject, at most `limit`.
pub fn fallback_peer_symbols(
    subject: &str,
    industry: Option<&str>,
    sector: Option<&str>,
    limit: usize,
) -> (r: Vec<String>)
    ensures
        string_views(r@) == other_than_subject(
            fallback_list(
                unicode_lower(opt_str_text(industry)),
                unicode_lower(opt_str_text(sector)),
            ),
            subject@,
            limit as nat,
        ),
{
    let ind = lower_chars(opt_str_chars(industry).as_slice());
    let sec = lower_chars(opt_str_chars(sector).as_slice());
    let list = fallback_list_exec(ind.as_slice(), sec.as_slice());
    let ghost lv = list@.map_values(|s: &str| s@);
    let subj = chars_of(subject);
    let mut out: Vec<String> = Vec::new();
    let mut i: usize = 0;
    assert(lv.skip(0) =~= lv);
    while i < list.len() && out.len() < limit
        invariant
            i <= list@.len(),
            out@.len() <= limit,
            lv == list@.map_values(|s: &str| s@),
            subj@ == subject@,
            other_than_subject(lv, subject@, limit as nat) == string_views(out@)
                + other_than_subject(lv.skip(i as int), subject@, (limit - out@.len()) as nat),
        decreases list.len() - i,
    {
        let p = chars_of(list[i]);
        let ghost rest = lv.skip(i as int);
        assert(rest[0] == p@);
        assert(rest.drop_first() =~= lv.skip(i + 1));
        if !eq_ignore_ascii_case_exec(p.as_slice(), subj.as_slice()) {
            let ghost prev = out@;
            out.push(string_of(list[i]));
            assert(string_views(out@) =~= string_views(prev) + seq![p@]);
        }
        i += 1;
    }
    proof {
        let rest = lv.skip(i as int);
        if i >= list@.len() {
            assert(rest.len() == 0);
        }
        assert(string_views(out@) + Seq::<Seq<char>>::empty() =~= string_views(out@));
    }
    out
}

// ---------------------------------------------------------------------------
// Peer search
// ---------------------------------------------------------------------------

/// The peer search text: the industry (unless empty or `Unknown`), or, with no industry at
/// all, the sector; empty when neither applies.
pub open spec fn peer_search_terms(industry: Option<Seq<char>>, sector: Option<Seq<char>>) -> Seq<
    char,
> {
    match industry {
        Some(ind) => if ind.len() > 0 && ind != "Unknown"@ {
            ind
        } else {
            Seq::empty()
        },
        None => match sector {
            Some(sec) => sec,
            None => Seq::empty(),
        },
    }
}

/// The search query for listed peers, or `None` when there is nothing to search for.
pub open spec fn peer_search_query_of(industry: Option<Seq<char>>, sector: Option<Seq<char>>) -> Option<
    Seq<char>,
> {
    let q = peer_search_terms(industry, sector);
    if q.len() == 0 {
        None
    } else {
        Some(q + " NSE India"@)
    }
}

/// The search query for listed peers (`… NSE India`), or `None` when neither an industry nor
/// a sector is usable (the caller then falls back to curated peers).
pub fn peer_search_query(industry: Option<&str>, sector: Option<&str>) -> (r: Option<String>)
    ensures
        match r {
            Some(q) => peer_search_query_of(
                crate::financial_company::opt_str(industry),
                crate::financial_company::opt_str(sector),
            ) == Some(q@),
            None => peer_search_query_of(
                crate::financial_company::opt_str(industry),
                crate::financial_company::opt_str(sector),
            ) is None,
        },
{
    let mut query = String::new();
    match industry {
        Some(ind) => {
            let iv = chars_of(ind);
            if !ind.is_empty() && !chars_eq_str(iv.as_slice(), "Unknown") {
                push_str(&mut query, ind);
            }
        },
        None => match sector {
            Some(sec) => {
                if !sec.is_empty() {
                    push_str(&mut query, sec);
                }
            },
            None => {},
        },
    }
    let qv = chars_of(query.as_str());
    if qv.len() == 0 {
        return None;
    }
    push_str(&mut query, " NSE India");
    Some(query)
}

/// One quote of a provider search answer: its symbol and quote type, when present.
pub struct SearchQuote {
    pub symbol: Option<String>,
    pub quote_type: Option<String>,
}

/// The view of a search quote.
pub open spec fn quote_view(q: SearchQuote) -> (Option<Seq<char>>, Seq<char>) {
    (
        match q.symbol {
            Some(s) => Some(s@),
            None => None,
        },
        match q.quote_type {
            Some(t) => t@,
            None => Seq::empty(),
        },
    )
}

/// The quote is an NSE equity other than the subject.
pub open spec fn usable_peer(q: (Option<Seq<char>>, Seq<char>), subject: Seq<char>) -> bool {
    match q.0 {
        Some(sym) => is_suffix(".NS"@, sym) && !eq_ignore_ascii_case(sym, subject) && q.1
            == "EQUITY"@,
        None => false,
    }
}

/// The usable peers of `qs[i..]`, in order; after each kept peer the scan stops once
/// `kept` reaches `limit`.
pub open spec fn pick_peers(qs: Seq<(Option<Seq<char>>, Seq<char>)>, subject: Seq<char>, limit: nat, kept: nat) -> Seq<
    Seq<char>,
>
    decreases qs.len(),
{
    if qs.len() == 0 {
        Seq::empty()
    } else if usable_peer(qs[0], subject) {
        if kept + 1 >= limit {
            seq![qs[0].0->0]
        } else {
            seq![qs[0].0->0] + pick_peers(qs.drop_first(), subject, limit, kept + 1)
        }
    } else {
        pick_peers(qs.drop_first(), subject, limit, kept)
    }
}

/// NSE equity peers from a provider search answer, in answer order: the subject itself is
/// skipped and the scan stops once `limit` peers were kept.
pub fn select_search_peers(quotes: &Vec<SearchQuote>, subject: &str, limit: usize) -> (r: Vec<String>)
    ensures
        string_views(r@) == pick_peers(
            quotes@.map_values(|q: SearchQuote| quote_view(q)),
            subject@,
            limit as nat,
            0,
        ),
{
    let ghost qv = quotes@.map_values(|q: SearchQuote| quote_view(q));
    let subj = chars_of(subject);
    let mut out: Vec<String> = Vec::new();
    let mut i: usize = 0;
    assert(qv.skip(0) =~= qv);
    while i < quotes.len()
        invariant
            i <= quotes@.len(),
            qv == quotes@.map_values(|q: SearchQuote| quote_view(q)),
            subj@ == subject@,
            out@.len() < limit || out@.len() == 0,
            pick_peers(qv, subject@, limit as nat, 0) == string_views(out@) + pick_peers(
                qv.skip(i as int),
                subject@,
                limit as nat,
                out@.len(),
            ),
        decreases quotes.len() - i,
    {
        let ghost rest = qv.skip(i as int);
        assert(rest[0] == quote_view(quotes@[i as int]));
        assert(rest.drop_first() =~= qv.skip(i + 1));
        let q = &quotes[i];
        let usable = match &q.symbol {
            Some(sym) => {
                let sv = chars_of(sym.as_str());
                let qt = match &q.quote_type {
                    Some(t) => chars_of(t.as_str()),
                    None => Vec::new(),
                };
                ends_with_str(sv.as_slice(), ".NS") && !eq_ignore_ascii_case_exec(
                    sv.as_slice(),
                    subj.as_slice(),
                ) && chars_eq_str(qt.as_slice(), "EQUITY")
            },
            None => false,
        };
        if usable {
            let sym = match &q.symbol {
                Some(s) => string_of(s.as_str()),
                None => String::new(),
            };
            let ghost prev = out@;
            out.push(sym);
            assert(string_views(out@) =~= string_views(prev) + seq![rest[0].0->0]);
            if out.len() >= limit {
                assert(string_views(out@) + Seq::<Seq<char>>::empty() =~= string_views(out@));
                return out;
            }
        }
        i += 1;
    }
    assert(qv.skip(i as int) =~= Seq::<(Option<Seq<char>>, Seq<char>)>::empty());
    assert(string_views(out@) + Seq::<Seq<char>>::empty() =~= string_views(out@));
    out
}

// ---------------------------------------------------------------------------
// Headline de-duplication
// ---------------------------------------------------------------------------

/// Some item of `items` has this (non-empty) link.
pub open spec fn link_seen(items: Seq<NewsItem>, link: Seq<char>) -> bool {
    exists|k: int| 0 <= k < items.len() && items[k].link@ == link
}

/// The items of `items[i..]` kept after `kept`: an item with a non-empty link already seen
/// is dropped.
pub open spec fn dedup_links(items: Seq<NewsItem>, kept: Seq<NewsItem>) -> Seq<NewsItem>
    decreases items.len(),
{
    if items.len() == 0 {
        kept
    } else {
        let x = items[0];
        if x.link@.len() > 0 && link_seen(kept, x.link@) {
            dedup_links(items.drop_first(), kept)
        } else {
            dedup_links(items.drop_first(), kept.push(x))
        }
    }
}

pub(crate) fn link_seen_exec(items: &Vec<NewsItem>, link: &[char]) -> (r: bool)
    ensures
        r == link_seen(items@, link@),
{
    let mut k: usize = 0;
    while k < items.len()
        invariant
            k <= items@.len(),
            forall|j: int| 0 <= j < k ==> items@[j].link@ != link@,
        decreases items.len() - k,
    {
        let l = chars_of(items[k].link.as_str());
        if chars_eq(l.as_slice(), link) {
            return true;
        }
        k += 1;
    }
    false
}

/// Headlines in order, dropping any whose non-empty link was already seen.
pub fn dedup_news_by_link(items: Vec<NewsItem>) -> (r: Vec<NewsItem>)
    ensures
        r@ == dedup_links(items@, Seq::empty()),
{
    let ghost all = items@;
    let mut items = items;
    let mut rev: Vec<NewsItem> = Vec::new();
    while items.len() > 0
        invariant
            items@.len() + rev@.len() == all.len(),
            items@ == all.take(items@.len() as int),
            forall|t: int| 0 <= t < rev@.len() ==> rev@[t] == all[all.len() - 1 - t],
        decreases items@.len(),
    {
        let x = items.pop().unwrap();
        rev.push(x);
        assert(items@ =~= all.take(items@.len() as int));
    }
    let mut out: Vec<NewsItem> = Vec::new();
    assert(all.skip(0) =~= all);
    while rev.len() > 0
        invariant
            rev@.len() <= all.len(),
            forall|t: int| 0 <= t < rev@.len() ==> rev@[t] == all[all.len() - 1 - t],
            dedup_links(all, Seq::empty()) == dedup_links(
                all.skip(all.len() - rev@.len()),
                out@,
            ),
        decreases rev@.len(),
    {
        let ghost start = all.len() - rev@.len();
        let x = rev.pop().unwrap();
        assert(all.skip(start)[0] == x);
        assert(all.skip(start).drop_first() =~= all.skip(start + 1));
        let l = chars_of(x.link.as_str());
        if l.len() > 0 && link_seen_exec(&out, l.as_slice()) {
        } else {
            out.push(x);
        }
    }
    assert(all.skip(all.len() as int) =~= Seq::<NewsItem>::empty());
    out
}

} // verus!
