//! Properties of the library that span its functions, stated over the same
//! specifications the functions' contracts use, and proved.

use vstd::prelude::*;

use crate::company_news::{keep_relevant, merge_news, news_scores};
use crate::data_coverage::{
    asset_quality_present, capital_present, coverage_confidence, coverage_dimensions,
    coverage_gated, critical_groups_present, critical_percent, industrial_growth_present,
    lender_growth_present, loan_present, nim_present, overall_percent, roe_roa_present, coverage_sum,
    valuation_present, CoveragePresence,
};
use crate::fetcher::{dedup_links, link_seen, other_than_subject, pick_peers, relevance, usable_peer};
use crate::fundamentals_timeseries::{
    add_point, annual_or_ttm, item_step, items_fold, merge_periods, merge_snap, period_index,
    result_step, results_fold, timeseries_periods,
};
use crate::financial_strength_audit::{
    balance_sheet_failed, earnings_quality_failed, guidance_decision, wait_events, GuidanceInputs,
};
use crate::financial_company::{
    classify_lowered, lender_type, looks_financial, nbfc_family_type, peers_other_than, ticker_base_of,
};
use crate::http_policy::{
    has_forbidden_fragment, lemma_host_is_part_of_url, url_host, url_verdict, yahoo_host,
};
use crate::models::{FinancialCompanyType, NewsItem};
use crate::screener_in::{fit_to, row_of, rows_from};
use crate::statements::{
    arranged, arranged_refs, comes_before, date_le, is_expected_quarter_end, lag_date, stable_order,
};
use crate::provider_search::{first_of, json_text_at, profile_of, result_field};
use crate::research_summary::{
    base_negatives, first_n, gated_lender_note, liquidity_note, summary_negatives,
    without_liquidity_notes,
};
use crate::symbol::{
    base_symbol_of, bse_symbol_of, exchange_label_of, resolved_symbol, strip_yahoo_suffix,
};
use crate::text::{
    ascii_lower_seq, ascii_text, ascii_upper, ascii_upper_seq, contains_seq, eq_ignore_ascii_case, occurs_at,
    has_white_space, is_suffix, lemma_trim_end_fixed, lemma_trim_end_keeps_start,
    lemma_trim_idempotent, lemma_trim_start_fixed, trim, trim_end, trim_start, unicode_upper,
    unicode_white_space,
};

verus! {

proof fn lemma_suffix_of_concat(b: Seq<char>, p: Seq<char>)
    ensures
        is_suffix(p, b + p),
{
    assert((b + p).skip((b + p).len() - p.len()) =~= p);
}

/// A base symbol listed on NSE resolves to its `.NS` ticker, whichever exchange
/// suffix (if any) the input carried.
pub proof fn law_nse_listed_resolves_to_ns(input: Seq<char>, nse: Set<Seq<char>>, base: Seq<char>)
    requires
        trim(input).len() > 0,
        !has_white_space(trim(input)),
        base_symbol_of(trim(input)) == Some(base),
        nse.contains(unicode_upper(base)),
    ensures
        resolved_symbol(input, nse) == Ok::<Seq<char>, Seq<char>>(base + ".NS"@),
{
}

/// An explicit `.NS` input resolves to `.NS` whatever the NSE list holds, exactly as
/// `normalize_nse_symbol` maps it.
pub proof fn law_explicit_ns_is_preserved(input: Seq<char>, nse: Set<Seq<char>>)
    requires
        trim(input).len() > 0,
        !has_white_space(trim(input)),
        is_suffix(".NS"@, unicode_upper(trim(input))),
        base_symbol_of(input) is Some,
    ensures
        resolved_symbol(input, nse) == Ok::<Seq<char>, Seq<char>>(base_symbol_of(input)->0 + ".NS"@),
{
    lemma_trim_idempotent(input);
}

/// A name with white space inside (a fund name, company prose) is never taken for a
/// ticker.
pub proof fn law_whitespace_is_refused(input: Seq<char>, nse: Set<Seq<char>>)
    requires
        has_white_space(trim(input)),
    ensures
        resolved_symbol(input, nse) is Err,
{
}

/// Every resolved ticker is an NSE (`.NS`) or BSE (`.BO`) ticker.
pub proof fn law_resolution_has_exchange_suffix(input: Seq<char>, nse: Set<Seq<char>>)
    requires
        resolved_symbol(input, nse) is Ok,
    ensures
        is_suffix(".NS"@, resolved_symbol(input, nse)->Ok_0) || is_suffix(
            ".BO"@,
            resolved_symbol(input, nse)->Ok_0,
        ),
{
    match base_symbol_of(trim(input)) {
        Some(b) => {
            lemma_suffix_of_concat(b, ".NS"@);
            lemma_suffix_of_concat(b, ".BO"@);
        },
        None => {},
    }
}

/// A URL naming an exchange or registrar host is refused, even when it also names
/// Yahoo, and the refusal quotes the URL; every URL let through has `yahoo.com` or
/// one of its subdomains as its host (in any letter case), so it contains `yahoo.com`.
pub proof fn law_only_yahoo_urls_pass(url: Seq<char>)
    ensures
        has_forbidden_fragment(ascii_lower_seq(url)) ==> url_verdict(url) is Err,
        url_verdict(url) matches Err(m) ==> is_suffix(url, m),
        url_verdict(url) is Ok ==> yahoo_host(url_host(ascii_lower_seq(url))),
        url_verdict(url) is Ok ==> contains_seq(ascii_lower_seq(url), "yahoo.com"@),
{
    let lower = ascii_lower_seq(url);
    match url_verdict(url) {
        Err(m) => {
            let prefix = if has_forbidden_fragment(lower) {
                "blocked exchange/registrar host in URL (use local CSV + Yahoo only): "@
            } else {
                "only Yahoo Finance URLs are permitted for remote market data: "@
            };
            assert(m == prefix + url);
            assert(m.skip(m.len() - url.len()) =~= url);
        },
        Ok(_) => {
            reveal_strlit("yahoo.com");
            reveal_strlit(".yahoo.com");
            let h = url_host(lower);
            lemma_host_is_part_of_url(lower);
            let (a, b) = choose|a: int, b: int|
                0 <= a <= b <= lower.len() && h == lower.subrange(a, b);
            if h == "yahoo.com"@ {
                assert(occurs_at(lower, "yahoo.com"@, a));
            } else {
                assert(h.skip(h.len() - 10) == ".yahoo.com"@);
                assert(lower.subrange(b - 9, b) =~= "yahoo.com"@) by {
                    assert forall|k: int| 0 <= k < 9 implies #[trigger] lower.subrange(b - 9, b)[k]
                        == "yahoo.com"@[k] by {
                        assert(h.skip(h.len() - 10)[k + 1] == ".yahoo.com"@[k + 1]);
                    }
                }
                assert(occurs_at(lower, "yahoo.com"@, b - 9));
            }
        },
    }
}

/// The lenders are exactly the banks and the NBFC family, and every lender is a
/// financial company.
pub proof fn law_lenders_are_banks_or_nbfcs(t: FinancialCompanyType)
    ensures
        lender_type(t) <==> (t == FinancialCompanyType::Bank || nbfc_family_type(t)),
        lender_type(t) ==> t != FinancialCompanyType::Industrial,
{
}

/// Curated direct peers never include the subject itself, and keep the curated order.
pub proof fn law_curated_peers_exclude_subject(list: Seq<Seq<char>>, base: Seq<char>)
    ensures
        forall|k: int|
            0 <= k < peers_other_than(list, base).len() ==> ticker_base_of(
                #[trigger] peers_other_than(list, base)[k],
            ) != base && list.contains(peers_other_than(list, base)[k]),
        peers_other_than(list, base).len() <= list.len(),
    decreases list.len(),
{
    if list.len() > 0 {
        law_curated_peers_exclude_subject(list.drop_last(), base);
        let rest = peers_other_than(list.drop_last(), base);
        assert forall|k: int| 0 <= k < peers_other_than(list, base).len() implies ticker_base_of(
            #[trigger] peers_other_than(list, base)[k],
        ) != base && list.contains(peers_other_than(list, base)[k]) by {
            if k < rest.len() {
                let x = rest[k];
                let w = choose|w: int| 0 <= w < list.drop_last().len() && list.drop_last()[w] == x;
                assert(list[w] == x);
            } else {
                assert(list[list.len() - 1] == list.last());
            }
        }
    }
}

/// Fallback peers never include the subject (in any letter case) and number at
/// most `limit`.
pub proof fn law_fallback_peers_exclude_subject(list: Seq<Seq<char>>, subject: Seq<char>, limit: nat)
    ensures
        other_than_subject(list, subject, limit).len() <= limit,
        forall|k: int|
            0 <= k < other_than_subject(list, subject, limit).len() ==> !eq_ignore_ascii_case(
                #[trigger] other_than_subject(list, subject, limit)[k],
                subject,
            ),
    decreases list.len(),
{
    if list.len() > 0 && limit > 0 {
        if eq_ignore_ascii_case(list[0], subject) {
            law_fallback_peers_exclude_subject(list.drop_first(), subject, limit);
        } else {
            law_fallback_peers_exclude_subject(list.drop_first(), subject, (limit - 1) as nat);
            let rest = other_than_subject(list.drop_first(), subject, (limit - 1) as nat);
            assert forall|k: int|
                0 <= k < other_than_subject(list, subject, limit).len() implies !eq_ignore_ascii_case(
                #[trigger] other_than_subject(list, subject, limit)[k],
                subject,
            ) by {
                if k > 0 {
                    assert(other_than_subject(list, subject, limit)[k] == rest[k - 1]);
                }
            }
        }
    }
}

/// Peers picked from a search answer are `.NS` tickers other than the subject, and
/// number at most `limit` (at least one is kept when any qualifies).
pub proof fn law_search_peers_are_nse_others(
    qs: Seq<(Option<Seq<char>>, Seq<char>)>,
    subject: Seq<char>,
    limit: nat,
    kept: nat,
)
    requires
        kept < limit || kept == 0,
    ensures
        pick_peers(qs, subject, limit, kept).len() + kept <= if limit == 0 {
            1
        } else {
            limit
        },
        forall|k: int|
            0 <= k < pick_peers(qs, subject, limit, kept).len() ==> is_suffix(
                ".NS"@,
                #[trigger] pick_peers(qs, subject, limit, kept)[k],
            ) && !eq_ignore_ascii_case(pick_peers(qs, subject, limit, kept)[k], subject),
    decreases qs.len(),
{
    if qs.len() > 0 {
        let r = pick_peers(qs, subject, limit, kept);
        if usable_peer(qs[0], subject) {
            if kept + 1 >= limit {
            } else {
                law_search_peers_are_nse_others(qs.drop_first(), subject, limit, kept + 1);
                let rest = pick_peers(qs.drop_first(), subject, limit, kept + 1);
                assert forall|k: int| 0 <= k < r.len() implies is_suffix(".NS"@, #[trigger] r[k])
                    && !eq_ignore_ascii_case(r[k], subject) by {
                    if k > 0 {
                        assert(r[k] == rest[k - 1]);
                    }
                }
            }
        } else {
            law_search_peers_are_nse_others(qs.drop_first(), subject, limit, kept);
        }
    }
}

/// No two kept headlines share a non-empty link.
pub open spec fn distinct_links(items: Seq<NewsItem>) -> bool {
    forall|i: int, j: int|
        0 <= i < j < items.len() && (#[trigger] items[i]).link@.len() > 0 ==> items[i].link@
            != (#[trigger] items[j]).link@
}

/// Dropping headlines whose non-empty link was already seen leaves no two headlines
/// with the same non-empty link, and keeps only headlines of the input.
pub proof fn law_news_links_are_distinct(items: Seq<NewsItem>, kept: Seq<NewsItem>)
    requires
        distinct_links(kept),
    ensures
        distinct_links(dedup_links(items, kept)),
        forall|k: int|
            0 <= k < dedup_links(items, kept).len() ==> kept.contains(
                #[trigger] dedup_links(items, kept)[k],
            ) || items.contains(dedup_links(items, kept)[k]),
    decreases items.len(),
{
    if items.len() > 0 {
        let x = items[0];
        let rest = items.drop_first();
        if x.link@.len() > 0 && link_seen(kept, x.link@) {
            law_news_links_are_distinct(rest, kept);
        } else {
            let nk = kept.push(x);
            assert forall|i: int, j: int|
                0 <= i < j < nk.len() && (#[trigger] nk[i]).link@.len() > 0 implies nk[i].link@
                != (#[trigger] nk[j]).link@ by {
                if j == kept.len() {
                    if nk[i].link@ == nk[j].link@ {
                        assert(kept[i].link@ == x.link@);
                        assert(link_seen(kept, x.link@));
                    }
                } else {
                    assert(nk[i] == kept[i] && nk[j] == kept[j]);
                }
            }
            law_news_links_are_distinct(rest, nk);
            let r = dedup_links(items, kept);
            assert forall|k: int| 0 <= k < r.len() implies kept.contains(#[trigger] r[k])
                || items.contains(r[k]) by {
                if nk.contains(r[k]) {
                    let w = choose|w: int| 0 <= w < nk.len() && nk[w] == r[k];
                    if w < kept.len() {
                        assert(kept[w] == r[k]);
                    } else {
                        assert(items[0] == r[k]);
                    }
                } else {
                    let w = choose|w: int| 0 <= w < rest.len() && rest[w] == r[k];
                    assert(items[w + 1] == r[k]);
                }
            }
        }
        if x.link@.len() > 0 && link_seen(kept, x.link@) {
            let r = dedup_links(items, kept);
            assert forall|k: int| 0 <= k < r.len() implies kept.contains(#[trigger] r[k])
                || items.contains(r[k]) by {
                if !kept.contains(r[k]) {
                    let w = choose|w: int| 0 <= w < rest.len() && rest[w] == r[k];
                    assert(items[w + 1] == r[k]);
                }
            }
        }
    }
}

/// Every parsed Screener.in row carries exactly one value per period date.
pub proof fn law_rows_align_with_dates(t: Seq<char>, p: int, n: nat)
    ensures
        forall|k: int|
            0 <= k < rows_from(t, p, n).len() ==> (#[trigger] rows_from(t, p, n)[k]).1.len() == n,
    decreases t.len() - p,
{
    if 0 <= p <= t.len() {
        match crate::text::find_from(t, "<tr"@, p) {
            None => {},
            Some(i) => match crate::text::find_from(t, "</tr>"@, i) {
                None => {},
                Some(re) => {
                    let next = re + "</tr>"@.len();
                    if p < next <= t.len() && 0 <= i <= re {
                        law_rows_align_with_dates(t, next, n);
                        let rest = rows_from(t, next, n);
                        match row_of(t.subrange(i, re), n) {
                            Some(row) => {
                                lemma_fit_to_len(row.1, n);
                                assert forall|k: int|
                                    0 <= k < rows_from(t, p, n).len() implies (
                                #[trigger] rows_from(t, p, n)[k]).1.len() == n by {
                                    if k > 0 {
                                        assert(rows_from(t, p, n)[k] == rest[k - 1]);
                                    } else {
                                        lemma_row_of_len(t.subrange(i, re), n);
                                    }
                                }
                            },
                            None => {},
                        }
                    }
                },
            },
        }
    }
}

proof fn lemma_fit_to_len(v: Seq<Seq<char>>, n: nat)
    ensures
        fit_to(v, n).len() == n,
{
}

proof fn lemma_row_of_len(row: Seq<char>, n: nat)
    ensures
        row_of(row, n) matches Some(r) ==> r.1.len() == n,
{
    match row_of(row, n) {
        Some(r) => {
            let ls = crate::text::find_from(row, crate::screener_in::label_cell(), 0)->0;
            let lh = ls + crate::screener_in::label_cell().len();
            let le = crate::text::find_from(row, "</td>"@, lh)->0;
            lemma_fit_to_len(
                crate::screener_in::cells_from(row, le + "</td>"@.len()).map_values(
                    |c: Seq<char>| crate::screener_in::cell_text(c),
                ),
                n,
            );
        },
        None => {},
    }
}

/// The expected reported quarter-end is never after the reporting cut-off of
/// `as_of` (25 days before it).
pub proof fn law_expected_quarter_end_not_after_cutoff(as_of: (i32, u32, u32), r: (i32, u32, u32))
    requires
        is_expected_quarter_end(as_of, r),
    ensures
        date_le(r, lag_date(as_of)),
{
}

/// Ranked headlines are all relevant (score above zero) and number at most the limit.
pub proof fn law_ranked_news_are_relevant(
    items: Seq<NewsItem>,
    tokens: Seq<Seq<char>>,
    idx: Seq<usize>,
    max: nat,
)
    requires
        forall|j: int| 0 <= j < idx.len() ==> idx[j] < items.len(),
    ensures
        keep_relevant(items, news_scores(items, tokens), idx, max).len() <= max,
        forall|k: int|
            0 <= k < keep_relevant(items, news_scores(items, tokens), idx, max).len() ==> relevance(
                (#[trigger] keep_relevant(items, news_scores(items, tokens), idx, max)[k]).title@,
                tokens,
            ) > 0,
    decreases idx.len(),
{
    let ss = news_scores(items, tokens);
    if idx.len() > 0 && max > 0 {
        if ss[idx[0] as int] > 0 {
            law_ranked_news_are_relevant(items, tokens, idx.drop_first(), (max - 1) as nat);
            let rest = keep_relevant(items, ss, idx.drop_first(), (max - 1) as nat);
            let r = keep_relevant(items, ss, idx, max);
            assert forall|k: int| 0 <= k < r.len() implies relevance(
                (#[trigger] r[k]).title@,
                tokens,
            ) > 0 by {
                if k > 0 {
                    assert(r[k] == rest[k - 1]);
                } else {
                    assert(r[0] == items[idx[0] as int]);
                }
            }
        } else {
            law_ranked_news_are_relevant(items, tokens, idx.drop_first(), max);
        }
    }
}

/// Collecting fallback headlines never repeats a non-empty link, keeps what was
/// already collected in front, and stops growing once the limit is reached.
pub proof fn law_fallback_merge_keeps_links_distinct(
    acc: Seq<NewsItem>,
    batch: Seq<NewsItem>,
    max: nat,
)
    requires
        distinct_links(acc),
    ensures
        distinct_links(merge_news(acc, batch, max)),
        merge_news(acc, batch, max).len() >= acc.len(),
        merge_news(acc, batch, max).take(acc.len() as int) == acc,
        acc.len() < max ==> merge_news(acc, batch, max).len() <= max,
    decreases batch.len(),
{
    if batch.len() > 0 {
        let x = batch[0];
        if x.link@.len() > 0 && link_seen(acc, x.link@) {
            law_fallback_merge_keeps_links_distinct(acc, batch.drop_first(), max);
        } else {
            let nk = acc.push(x);
            assert forall|i: int, j: int|
                0 <= i < j < nk.len() && (#[trigger] nk[i]).link@.len() > 0 implies nk[i].link@
                != (#[trigger] nk[j]).link@ by {
                if j == acc.len() {
                    if nk[i].link@ == nk[j].link@ {
                        assert(acc[i].link@ == x.link@);
                        assert(link_seen(acc, x.link@));
                    }
                } else {
                    assert(nk[i] == acc[i] && nk[j] == acc[j]);
                }
            }
            assert(nk.take(acc.len() as int) =~= acc);
            if acc.len() + 1 < max {
                law_fallback_merge_keeps_links_distinct(nk, batch.drop_first(), max);
                let r = merge_news(nk, batch.drop_first(), max);
                assert(r.take(acc.len() as int) =~= r.take(nk.len() as int).take(acc.len() as int));
            }
        }
    }
}

/// A stable key order lists no row twice.
proof fn lemma_stable_order_distinct(ks: Seq<i64>, idx: Seq<usize>, desc: bool, a: int, b: int)
    requires
        stable_order(ks, idx, desc),
        0 <= a < b < idx.len(),
    ensures
        idx[a] != idx[b],
{
    assert(comes_before(ks, idx[a] as int, idx[b] as int, desc));
}

/// Only one stable order exists for given keys and direction: sorting statement rows
/// by their end timestamps has exactly one result.
pub proof fn law_stable_order_is_unique(ks: Seq<i64>, x: Seq<usize>, y: Seq<usize>, desc: bool)
    requires
        stable_order(ks, x, desc),
        stable_order(ks, y, desc),
    ensures
        x == y,
{
    if x != y {
        assert(!(x =~= y));
        let j = choose|j: int| 0 <= j < x.len() && x[j] != y[j];
        let first = choose|f: int|
            0 <= f < x.len() && x[f] != y[f] && forall|g: int| 0 <= g < f ==> x[g] == y[g];
        lemma_first_difference(x, y, j);
        let a = x[first];
        let b = y[first];
        assert(y.contains(a));
        let k = choose|k: int| 0 <= k < y.len() && y[k] == a;
        if k < first {
            assert(x[k] == y[k]);
            lemma_stable_order_distinct(ks, x, desc, k, first);
        }
        assert(x.contains(b));
        let m = choose|m: int| 0 <= m < x.len() && x[m] == b;
        if m < first {
            assert(x[m] == y[m]);
            lemma_stable_order_distinct(ks, y, desc, m, first);
        }
        assert(k > first && m > first);
        assert(comes_before(ks, b as int, a as int, desc));
        assert(comes_before(ks, a as int, b as int, desc));
    }
}

proof fn lemma_first_difference(x: Seq<usize>, y: Seq<usize>, j: int)
    requires
        x.len() == y.len(),
        0 <= j < x.len(),
        x[j] != y[j],
    ensures
        exists|f: int| 0 <= f < x.len() && x[f] != y[f] && forall|g: int| 0 <= g < f ==> x[g] == y[g],
    decreases j,
{
    if exists|g: int| 0 <= g < j && x[g] != y[g] {
        let g = choose|g: int| 0 <= g < j && x[g] != y[g];
        lemma_first_difference(x, y, g);
    } else {
        assert(forall|g: int| 0 <= g < j ==> x[g] == y[g]);
    }
}

/// With distinct timestamps, the newest-first order of statement rows is exactly the
/// oldest-first order reversed.
pub proof fn law_desc_is_reversed_asc(ks: Seq<i64>, asc: Seq<usize>, desc: Seq<usize>)
    requires
        forall|i: int, j: int| 0 <= i < j < ks.len() ==> ks[i] != ks[j],
        stable_order(ks, asc, false),
        stable_order(ks, desc, true),
    ensures
        desc == asc.reverse(),
{
    let r = asc.reverse();
    let n = asc.len();
    assert forall|j1: int, j2: int| 0 <= j1 < j2 < r.len() implies comes_before(
        ks,
        r[j1] as int,
        r[j2] as int,
        true,
    ) by {
        assert(r[j1] == asc[n - 1 - j1] && r[j2] == asc[n - 1 - j2]);
        assert(comes_before(ks, asc[n - 1 - j2] as int, asc[n - 1 - j1] as int, false));
        lemma_stable_order_distinct(ks, asc, false, n - 1 - j2, n - 1 - j1);
        let a = r[j1] as int;
        let b = r[j2] as int;
        if a < b {
            assert(ks[a] != ks[b]);
        } else {
            assert(ks[b] != ks[a]);
        }
    }
    assert forall|k: usize| k < ks.len() implies #[trigger] r.contains(k) by {
        assert(asc.contains(k));
        let w = choose|w: int| 0 <= w < asc.len() && asc[w] == k;
        assert(r[n - 1 - w] == k);
    }
    assert forall|j: int| 0 <= j < r.len() implies r[j] < ks.len() by {
        assert(r[j] == asc[n - 1 - j]);
    }
    law_stable_order_is_unique(ks, desc, r, true);
}

/// A `.NS` or `.BO` ticker names its exchange whatever code the provider reports.
pub proof fn law_suffix_decides_exchange(
    symbol: Seq<char>,
    reported: Option<Seq<char>>,
    other: Option<Seq<char>>,
)
    ensures
        is_suffix(".NS"@, unicode_upper(trim(symbol))) ==> exchange_label_of(symbol, reported)
            == "NSE"@,
        is_suffix(".BO"@, unicode_upper(trim(symbol))) && !is_suffix(
            ".NS"@,
            unicode_upper(trim(symbol)),
        ) ==> exchange_label_of(symbol, reported) == "BSE"@,
        (is_suffix(".NS"@, unicode_upper(trim(symbol))) || is_suffix(
            ".BO"@,
            unicode_upper(trim(symbol)),
        )) ==> exchange_label_of(symbol, reported) == exchange_label_of(symbol, other),
{
}

/// Every exchange label is `NSE` or `BSE`.
pub proof fn law_exchange_is_nse_or_bse(symbol: Seq<char>, reported: Option<Seq<char>>)
    ensures
        exchange_label_of(symbol, reported) == "NSE"@ || exchange_label_of(symbol, reported)
            == "BSE"@,
{
}

/// The exchange stored in a company profile is always `NSE` or `BSE` when populated,
/// never the provider's own code.
pub proof fn law_profile_exchange_is_nse_or_bse(symbol: Seq<char>, text: Seq<char>)
    ensures
        profile_of(symbol, text).6 matches Some(e) ==> (e == "NSE"@ || e == "BSE"@),
{
    match first_of(
        json_text_at(text, result_field("price"@, "exchange"@)),
        json_text_at(text, result_field("price"@, "fullExchangeName"@)),
    ) {
        Some(raw) => law_exchange_is_nse_or_bse(symbol, Some(raw)),
        None => {},
    }
}

/// A lender's recommendation is withheld exactly when fewer than three of its five
/// critical groups (below 60%) have a figure; other companies are never withheld.
pub proof fn law_gate_is_critical_coverage_below_60pct(t: FinancialCompanyType, p: CoveragePresence)
    ensures
        coverage_gated(t, p) <==> (lender_type(t) && critical_groups_present(t, p) < 3),
        !lender_type(t) ==> !coverage_gated(t, p),
{
}

/// A withheld recommendation never comes with High data confidence.
pub proof fn law_gated_coverage_is_not_high_confidence(t: FinancialCompanyType, p: CoveragePresence)
    requires
        coverage_gated(t, p),
    ensures
        coverage_confidence(t, p) != "High"@,
{
    reveal_strlit("High");
    reveal_strlit("Medium");
    reveal_strlit("Low");
    assert("Medium"@.len() != "High"@.len());
    assert("Low"@[0] != "High"@[0]);
}

/// Every figure on hand in `p` is on hand in `q`.
pub open spec fn presence_within(p: CoveragePresence, q: CoveragePresence) -> bool {
    &&& p.pe_ratio ==> q.pe_ratio
    &&& p.price_to_book ==> q.price_to_book
    &&& p.return_on_equity ==> q.return_on_equity
    &&& p.return_on_assets ==> q.return_on_assets
    &&& p.earnings_growth ==> q.earnings_growth
    &&& p.fy_pat_yoy ==> q.fy_pat_yoy
    &&& p.pat_cagr_3y ==> q.pat_cagr_3y
    &&& p.fy_revenue_yoy ==> q.fy_revenue_yoy
    &&& p.interest_income_yoy ==> q.interest_income_yoy
    &&& p.nii_yoy ==> q.nii_yoy
    &&& p.net_interest_income ==> q.net_interest_income
    &&& p.canonical_advances ==> q.canonical_advances
    &&& p.canonical_loan_book ==> q.canonical_loan_book
    &&& p.canonical_loan_book_growth ==> q.canonical_loan_book_growth
    &&& p.gnpa ==> q.gnpa
    &&& p.nnpa ==> q.nnpa
    &&& p.provision_coverage ==> q.provision_coverage
    &&& p.crar ==> q.crar
    &&& p.tier1 ==> q.tier1
    &&& p.nim ==> q.nim
    &&& p.spread ==> q.spread
    &&& p.yield_on_assets ==> q.yield_on_assets
    &&& p.cost_of_funds ==> q.cost_of_funds
    &&& p.loan_book ==> q.loan_book
    &&& p.loan_book_growth ==> q.loan_book_growth
    &&& p.credit_growth ==> q.credit_growth
    &&& p.disbursement_growth ==> q.disbursement_growth
}

proof fn lemma_asset_quality_grows(p: CoveragePresence, q: CoveragePresence)
    requires
        presence_within(p, q),
    ensures
        asset_quality_present(p) > 0 ==> asset_quality_present(q) > 0,
{
    reveal(asset_quality_present);
}

proof fn lemma_capital_grows(p: CoveragePresence, q: CoveragePresence)
    requires
        presence_within(p, q),
    ensures
        capital_present(p) > 0 ==> capital_present(q) > 0,
{
    reveal(capital_present);
}

proof fn lemma_roe_roa_grows(p: CoveragePresence, q: CoveragePresence)
    requires
        presence_within(p, q),
    ensures
        roe_roa_present(p) > 0 ==> roe_roa_present(q) > 0,
{
    reveal(roe_roa_present);
}

proof fn lemma_loan_grows(t: FinancialCompanyType, p: CoveragePresence, q: CoveragePresence)
    requires
        presence_within(p, q),
    ensures
        loan_present(t, p) > 0 ==> loan_present(t, q) > 0,
{
    reveal(loan_present);
}

proof fn lemma_nim_grows(p: CoveragePresence, q: CoveragePresence)
    requires
        presence_within(p, q),
    ensures
        nim_present(p) > 0 ==> nim_present(q) > 0,
{
    reveal(nim_present);
}

/// More figures on hand never withhold a recommendation that fewer figures allowed.
pub proof fn law_more_figures_never_withhold(
    t: FinancialCompanyType,
    p: CoveragePresence,
    q: CoveragePresence,
)
    requires
        presence_within(p, q),
        !coverage_gated(t, p),
    ensures
        !coverage_gated(t, q),
{
    lemma_asset_quality_grows(p, q);
    lemma_capital_grows(p, q);
    lemma_roe_roa_grows(p, q);
    lemma_loan_grows(t, p, q);
    lemma_nim_grows(p, q);
}

/// A failed earnings-quality or balance-sheet screen always says Avoid to a new buyer,
/// and Sell or Trim to a holder.
pub proof fn law_failed_audit_means_avoid(i: GuidanceInputs)
    requires
        earnings_quality_failed(i) || balance_sheet_failed(i),
    ensures
        guidance_decision(i).1 == "Avoid"@,
        guidance_decision(i).0 == "Sell"@ || guidance_decision(i).0 == "Trim"@,
{
}

/// There is always at least one event to wait for, and never more than five.
pub proof fn law_wait_events_one_to_five(i: GuidanceInputs)
    ensures
        1 <= wait_events(i).len() <= 5,
{
}

/// No two periods end at the same time.
pub open spec fn distinct_ends(ps: Seq<(i64, Seq<(Seq<char>, Seq<char>)>, Seq<char>)>) -> bool {
    forall|a: int, b: int| 0 <= a < b < ps.len() ==> #[trigger] ps[a].0 != #[trigger] ps[b].0
}

/// No period carries a twelve-month or trailing period type.
pub open spec fn no_annual_types(ps: Seq<(i64, Seq<(Seq<char>, Seq<char>)>, Seq<char>)>) -> bool {
    forall|k: int| 0 <= k < ps.len() ==> !annual_or_ttm(#[trigger] ps[k].2)
}

proof fn lemma_period_index(ps: Seq<(i64, Seq<(Seq<char>, Seq<char>)>, Seq<char>)>, ts: i64, from: int)
    requires
        0 <= from,
    ensures
        period_index(ps, ts, from) matches Some(k) ==> from <= k < ps.len() && ps[k].0 == ts,
        period_index(ps, ts, from) is None ==> forall|j: int| from <= j < ps.len() ==> #[trigger] ps[j].0 != ts,
    decreases ps.len() - from,
{
    if from < ps.len() && ps[from].0 != ts {
        lemma_period_index(ps, ts, from + 1);
    }
}

proof fn lemma_empty_not_annual()
    ensures
        !annual_or_ttm(Seq::empty()),
{
    reveal_strlit("12M");
    reveal_strlit("TTM");
    assert(crate::text::ascii_lower_seq(Seq::<char>::empty()).len() == 0);
    assert(crate::text::ascii_lower_seq("12M"@).len() == 3);
    assert(crate::text::ascii_lower_seq("TTM"@).len() == 3);
}

proof fn lemma_add_point_keeps(
    ps: Seq<(i64, Seq<(Seq<char>, Seq<char>)>, Seq<char>)>,
    ts: i64,
    f: Seq<char>,
    raw: Seq<char>,
    ptype: Seq<char>,
    quarterly: bool,
)
    ensures
        distinct_ends(ps) ==> distinct_ends(add_point(ps, ts, f, raw, ptype, quarterly)),
        quarterly && !annual_or_ttm(ptype) && no_annual_types(ps) ==> no_annual_types(
            add_point(ps, ts, f, raw, ptype, quarterly),
        ),
{
    lemma_period_index(ps, ts, 0);
    lemma_empty_not_annual();
    let r = add_point(ps, ts, f, raw, ptype, quarterly);
    if distinct_ends(ps) {
        assert forall|a: int, b: int| 0 <= a < b < r.len() implies #[trigger] r[a].0 != #[trigger] r[b].0 by {
            if period_index(ps, ts, 0) is None && b == ps.len() {
                assert(ps[a].0 != ts);
            }
        }
    }
}

proof fn lemma_item_step_keeps(
    text: Seq<char>,
    period: Seq<char>,
    r: nat,
    key: Seq<char>,
    i: nat,
    ps: Seq<(i64, Seq<(Seq<char>, Seq<char>)>, Seq<char>)>,
)
    ensures
        distinct_ends(ps) ==> distinct_ends(item_step(text, period, r, key, i, ps)),
        period == "quarterly"@ && no_annual_types(ps) ==> no_annual_types(
            item_step(text, period, r, key, i, ps),
        ),
{
    let quarterly = period == "quarterly"@;
    match (
        crate::fundamentals_timeseries::point_secs(text, r, key, i),
        crate::fundamentals_timeseries::point_raw(text, r, key, i),
    ) {
        (Some(ts), Some(raw)) => {
            let pt = crate::fundamentals_timeseries::point_period_type(text, r, key, i);
            lemma_add_point_keeps(
                ps,
                ts,
                crate::fundamentals_timeseries::field_name(key, period),
                raw,
                pt,
                quarterly,
            );
        },
        _ => {},
    }
}

proof fn lemma_items_fold_keeps(
    text: Seq<char>,
    period: Seq<char>,
    r: nat,
    key: Seq<char>,
    n: nat,
    ps: Seq<(i64, Seq<(Seq<char>, Seq<char>)>, Seq<char>)>,
)
    ensures
        distinct_ends(ps) ==> distinct_ends(items_fold(text, period, r, key, n, ps)),
        period == "quarterly"@ && no_annual_types(ps) ==> no_annual_types(
            items_fold(text, period, r, key, n, ps),
        ),
    decreases n,
{
    if n > 0 {
        lemma_items_fold_keeps(text, period, r, key, (n - 1) as nat, ps);
        lemma_item_step_keeps(
            text,
            period,
            r,
            key,
            (n - 1) as nat,
            items_fold(text, period, r, key, (n - 1) as nat, ps),
        );
    }
}

proof fn lemma_results_fold_keeps(text: Seq<char>, period: Seq<char>, n: nat)
    ensures
        distinct_ends(results_fold(text, period, n)),
        period == "quarterly"@ ==> no_annual_types(results_fold(text, period, n)),
    decreases n,
{
    if n > 0 {
        let prev = results_fold(text, period, (n - 1) as nat);
        lemma_results_fold_keeps(text, period, (n - 1) as nat);
        let r = (n - 1) as nat;
        match (
            crate::provider_search::json_array_len_at(
                text,
                crate::fundamentals_timeseries::result_pointer(r) + "/timestamp"@,
            ),
            crate::provider_search::json_keys_at(text, crate::fundamentals_timeseries::result_pointer(r)),
        ) {
            (Some(m), Some(keys)) => match crate::fundamentals_timeseries::first_data_key(keys, 0) {
                Some(key) => {
                    lemma_items_fold_keeps(text, period, r, key, m, prev);
                },
                None => {},
            },
            _ => {},
        }
    }
}

/// The periods of a parsed statement answer end at distinct times, and a quarterly
/// answer never records a twelve-month or trailing period type.
pub proof fn law_parsed_periods_are_distinct_quarters(text: Seq<char>, period: Seq<char>)
    ensures
        distinct_ends(timeseries_periods(text, period)),
        period == "quarterly"@ ==> no_annual_types(timeseries_periods(text, period)),
{
    match crate::provider_search::json_array_len_at(text, "/timeseries/result"@) {
        Some(n) => lemma_results_fold_keeps(text, period, n),
        None => {},
    }
}

proof fn lemma_merge_snap_keeps(
    ps: Seq<(i64, Seq<(Seq<char>, Seq<char>)>, Seq<char>)>,
    s: (i64, Seq<(Seq<char>, Seq<char>)>, Seq<char>),
)
    requires
        distinct_ends(ps),
    ensures
        distinct_ends(merge_snap(ps, s)),
{
    lemma_period_index(ps, s.0, 0);
    let r = merge_snap(ps, s);
    assert forall|a: int, b: int| 0 <= a < b < r.len() implies #[trigger] r[a].0 != #[trigger] r[b].0 by {
        if period_index(ps, s.0, 0) is None && b == ps.len() {
            assert(ps[a].0 != s.0);
        }
    }
}

/// Merging answers keeps each period end once.
pub proof fn law_merge_keeps_distinct_ends(
    target: Seq<(i64, Seq<(Seq<char>, Seq<char>)>, Seq<char>)>,
    add: Seq<(i64, Seq<(Seq<char>, Seq<char>)>, Seq<char>)>,
)
    requires
        distinct_ends(target),
    ensures
        distinct_ends(merge_periods(target, add)),
    decreases add.len(),
{
    if add.len() > 0 {
        law_merge_keeps_distinct_ends(target, add.drop_last());
        lemma_merge_snap_keeps(merge_periods(target, add.drop_last()), add.last());
    }
}

/// Every character satisfies `p`.
pub open spec fn all_chars(s: Seq<char>, p: spec_fn(char) -> bool) -> bool {
    forall|i: int| 0 <= i < s.len() ==> p(#[trigger] s[i])
}

/// ASCII with no lower-case letter.
pub open spec fn upper_ascii_char(c: char) -> bool {
    (c as u32) < 128 && !('a' <= c && c <= 'z')
}

proof fn lemma_trim_keeps(s: Seq<char>, p: spec_fn(char) -> bool)
    requires
        all_chars(s, p),
    ensures
        all_chars(trim_start(s), p),
        all_chars(trim(s), p),
{
    lemma_trim_start_keeps(s, p);
    lemma_trim_end_keeps(trim_start(s), p);
}

proof fn lemma_trim_start_keeps(s: Seq<char>, p: spec_fn(char) -> bool)
    requires
        all_chars(s, p),
    ensures
        all_chars(trim_start(s), p),
    decreases s.len(),
{
    if s.len() > 0 && unicode_white_space(s[0]) {
        assert forall|i: int| 0 <= i < s.drop_first().len() implies p(#[trigger] s.drop_first()[i]) by {
            assert(s.drop_first()[i] == s[i + 1]);
        }
        lemma_trim_start_keeps(s.drop_first(), p);
    }
}

proof fn lemma_trim_end_keeps(s: Seq<char>, p: spec_fn(char) -> bool)
    requires
        all_chars(s, p),
    ensures
        all_chars(trim_end(s), p),
    decreases s.len(),
{
    if s.len() > 0 && unicode_white_space(s.last()) {
        assert forall|i: int| 0 <= i < s.drop_last().len() implies p(#[trigger] s.drop_last()[i]) by {
            assert(s.drop_last()[i] == s[i]);
        }
        lemma_trim_end_keeps(s.drop_last(), p);
    }
}

proof fn lemma_upper_of_ascii(s: Seq<char>)
    requires
        ascii_text(s),
    ensures
        unicode_upper(s) == ascii_upper_seq(s),
        all_chars(ascii_upper_seq(s), |c: char| upper_ascii_char(c)),
{
    assert forall|i: int| 0 <= i < ascii_upper_seq(s).len() implies (|c: char| upper_ascii_char(c))(
        #[trigger] ascii_upper_seq(s)[i],
    ) by {
        assert(ascii_upper_seq(s)[i] == ascii_upper(s[i]));
        assert((s[i] as u32) < 128);
    }
}

proof fn lemma_upper_fixed(s: Seq<char>)
    requires
        all_chars(s, |c: char| upper_ascii_char(c)),
    ensures
        ascii_text(s),
        unicode_upper(s) == s,
{
    assert forall|i: int| 0 <= i < s.len() implies (#[trigger] s[i] as u32) < 128 by {
        assert((|c: char| upper_ascii_char(c))(s[i]));
    }
    assert forall|i: int| 0 <= i < s.len() implies #[trigger] ascii_upper_seq(s)[i] == s[i] by {
        assert((|c: char| upper_ascii_char(c))(s[i]));
    }
    assert(ascii_upper_seq(s) =~= s);
}

/// For ASCII input, a symbol resolves as documented: the trimmed, upper-cased input
/// without one `.NS` / `.BO` suffix, trimmed again, is the base; empty or spaced input,
/// or an empty base, is refused; otherwise the base takes `.NS` when the input said
/// `.NS` or the base is NSE-listed, else `.BO`.
pub proof fn law_ascii_resolution_as_documented(input: Seq<char>, nse: Set<Seq<char>>)
    requires
        ascii_text(input),
    ensures
        ({
            let t = trim(input);
            let u = ascii_upper_seq(t);
            let b = trim(strip_yahoo_suffix(u));
            if t.len() == 0 || has_white_space(t) || b.len() == 0 {
                resolved_symbol(input, nse) is Err
            } else {
                resolved_symbol(input, nse) == Ok::<Seq<char>, Seq<char>>(
                    b + if is_suffix(".NS"@, u) || nse.contains(b) {
                        ".NS"@
                    } else {
                        ".BO"@
                    },
                )
            }
        }),
{
    let t = trim(input);
    let ascii = |c: char| (c as u32) < 128;
    assert(all_chars(input, ascii));
    lemma_trim_keeps(input, ascii);
    assert(ascii_text(t)) by {
        assert forall|i: int| 0 <= i < t.len() implies (#[trigger] t[i] as u32) < 128 by {
            assert(ascii(t[i]));
        }
    }
    lemma_trim_idempotent(input);
    lemma_upper_of_ascii(t);
    let u = ascii_upper_seq(t);
    let stripped = strip_yahoo_suffix(u);
    let up = |c: char| upper_ascii_char(c);
    assert(all_chars(stripped, up)) by {
        assert forall|i: int| 0 <= i < stripped.len() implies up(#[trigger] stripped[i]) by {
            assert(stripped[i] == u[i]);
        }
    }
    lemma_trim_keeps(stripped, up);
    lemma_upper_fixed(trim(stripped));
}

/// Mapping an ASCII BSE security id to its Yahoo ticker twice gives the ticker
/// once: the result is already trimmed, upper-case and `.BO`-suffixed.
pub proof fn law_ascii_bse_symbol_is_idempotent(id: Seq<char>)
    requires
        ascii_text(id),
    ensures
        bse_symbol_of(bse_symbol_of(id)) == bse_symbol_of(id),
{
    reveal_strlit(".BO");
    let s = trim(id);
    let ascii = |c: char| (c as u32) < 128;
    assert(all_chars(id, ascii));
    lemma_trim_keeps(id, ascii);
    assert(ascii_text(s)) by {
        assert forall|i: int| 0 <= i < s.len() implies (#[trigger] s[i] as u32) < 128 by {
            assert(ascii(s[i]));
        }
    }
    if s.len() == 0 {
        assert(trim(Seq::<char>::empty()) =~= Seq::<char>::empty());
        return;
    }
    lemma_upper_of_ascii(s);
    let u = ascii_upper_seq(s);
    let r = bse_symbol_of(id);
    let up = |c: char| upper_ascii_char(c);
    // The ends of `s` are not white space, nor are their upper-case forms.
    lemma_trim_start_fixed(id);
    lemma_trim_end_keeps_start(trim_start(id));
    lemma_trim_end_fixed(trim_start(id));
    assert(!unicode_white_space(s[0]));
    assert(!unicode_white_space(s.last()));
    assert(u[0] == ascii_upper(s[0]));
    assert(u[u.len() - 1] == ascii_upper(s[s.len() - 1]));
    assert(!unicode_white_space(u[0]));
    assert(!unicode_white_space(u[u.len() - 1]));
    if is_suffix(".BO"@, s) {
        assert(r == u);
        assert(u.skip(u.len() - 3) =~= ".BO"@) by {
            assert forall|k: int| 0 <= k < 3 implies #[trigger] u.skip(u.len() - 3)[k] == ".BO"@[k] by {
                assert(s.skip(s.len() - 3)[k] == ".BO"@[k]);
                assert(u[u.len() - 3 + k] == ascii_upper(s[s.len() - 3 + k]));
            }
        }
    } else {
        assert(r == u + ".BO"@);
        assert(r.skip(r.len() - 3) =~= ".BO"@);
        assert(all_chars(r, up)) by {
            assert forall|i: int| 0 <= i < r.len() implies up(#[trigger] r[i]) by {
                if i < u.len() {
                    assert(r[i] == u[i]);
                } else {
                    assert(r[i] == ".BO"@[i - u.len()]);
                }
            }
        }
    }
    assert(r.len() > 0 && !unicode_white_space(r[0]) && !unicode_white_space(r.last()));
    assert(trim_start(r) == r);
    assert(trim_end(r) == r);
    assert(trim(r) == r);
    assert(is_suffix(".BO"@, r));
    lemma_upper_fixed(r);
}

proof fn lemma_no_liquidity_notes_left(s: Seq<Seq<char>>)
    ensures
        forall|k: int|
            0 <= k < without_liquidity_notes(s).len() ==> !liquidity_note(
                #[trigger] without_liquidity_notes(s)[k],
            ),
        without_liquidity_notes(s).len() <= s.len(),
    decreases s.len(),
{
    if s.len() > 0 {
        lemma_no_liquidity_notes_left(s.drop_last());
    }
}

/// A lender whose recommendation is withheld gets at most three negatives, none of
/// them a cash-conversion or balance-sheet-liquidity note (those come from debt and
/// cash-flow screens that do not fit lenders): each is the missing-filings note or
/// another of the summary's negatives.
pub proof fn law_withheld_lender_negatives_skip_liquidity(
    red_flags: Seq<Seq<char>>,
    balance_sheet: Seq<char>,
    cash_flow: Seq<char>,
    valuation_label: Seq<char>,
)
    ensures
        ({
            let n = summary_negatives(red_flags, balance_sheet, cash_flow, valuation_label, true);
            &&& n.len() <= 3
            &&& forall|k: int|
                0 <= k < n.len() ==> #[trigger] n[k] == gated_lender_note() || !liquidity_note(n[k])
        }),
{
    let base = base_negatives(red_flags, balance_sheet, cash_flow, valuation_label);
    let kept = without_liquidity_notes(base);
    lemma_no_liquidity_notes_left(base);
    let led = if forall|k: int| 0 <= k < kept.len() ==> !contains_seq(#[trigger] kept[k], "asset-quality"@) {
        seq![gated_lender_note()] + kept
    } else {
        kept
    };
    assert forall|k: int| 0 <= k < led.len() implies #[trigger] led[k] == gated_lender_note() || !liquidity_note(led[k]) by {
        if led.len() == kept.len() + 1 && led[0] == gated_lender_note() {
            if k > 0 {
                assert(led[k] == kept[k - 1]);
            }
        }
    }
    let n = first_n(led, 3);
    assert forall|k: int| 0 <= k < n.len() implies #[trigger] n[k] == gated_lender_note() || !liquidity_note(n[k]) by {
        assert(n[k] == led[k]);
    }
}

/// The dimensions' coverage in percent, each scaled by `l` (a multiple of every
/// total) and summed: Σ 100 × present × (l / total).
pub open spec fn scaled_percent_sum(d: Seq<(Seq<char>, nat, nat)>, l: nat) -> nat
    decreases d.len(),
{
    if d.len() == 0 {
        0
    } else {
        scaled_percent_sum(d.drop_last(), l) + 100 * d.last().1 * (l / d.last().2)
    }
}

proof fn lemma_counts_within_totals(t: FinancialCompanyType, p: CoveragePresence)
    ensures
        valuation_present(p) <= 3,
        industrial_growth_present(p) <= 4,
        lender_growth_present(p) <= 5,
        asset_quality_present(p) <= 3,
        capital_present(p) <= 2,
        nim_present(p) <= 5,
        loan_present(t, p) <= 5,
        roe_roa_present(p) <= 2,
{
    reveal(valuation_present);
    reveal(industrial_growth_present);
    reveal(lender_growth_present);
    reveal(asset_quality_present);
    reveal(capital_present);
    reveal(nim_present);
    reveal(loan_present);
    reveal(roe_roa_present);
}

/// The coverage a research view reports is consistent: every dimension has a
/// non-zero total and no more figures on hand than that total; the overall
/// percentage is the mean of the dimensions' percentages (`100 × present / total`
/// each, written over a common multiple `l` of the totals); a lender has seven
/// dimensions and five critical groups, a non-lender has Valuation and Growth and a
/// critical coverage of 100%; and a recommendation is withheld exactly when the
/// critical coverage is below 60%.
#[verifier::spinoff_prover]
pub proof fn law_coverage_percentages(t: FinancialCompanyType, p: CoveragePresence)
    ensures
        ({
            let d = coverage_dimensions(t, p);
            let l: nat = if lender_type(t) {
                30
            } else {
                12
            };
            &&& forall|i: int|
                0 <= i < d.len() ==> 0 < (#[trigger] d[i]).2 && d[i].1 <= d[i].2 && l % d[i].2 == 0
            &&& overall_percent(t, p).numer * d.len() * l == overall_percent(t, p).denom
                * scaled_percent_sum(d, l)
            &&& !lender_type(t) ==> d.len() == 2 && d[0].0 == "Valuation"@ && d[1].0 == "Growth"@
                && critical_percent(t, p).numer == 100 && critical_percent(t, p).denom == 1
            &&& lender_type(t) ==> d.len() == 7 && critical_percent(t, p).denom == 5
                && critical_percent(t, p).numer == 100 * critical_groups_present(t, p)
                && critical_groups_present(t, p) <= 5
            &&& coverage_gated(t, p) <==> critical_percent(t, p).numer < 60 * critical_percent(
                t,
                p,
            ).denom
        }),
{
    lemma_counts_within_totals(t, p);
    let d = coverage_dimensions(t, p);
    // Unfold the sum one dimension at a time, from the first.
    if lender_type(t) {
        let s1 = d.drop_last();
        let s2 = s1.drop_last();
        let s3 = s2.drop_last();
        let s4 = s3.drop_last();
        let s5 = s4.drop_last();
        let s6 = s5.drop_last();
        assert(s6.drop_last() =~= Seq::<(Seq<char>, nat, nat)>::empty());
        assert(scaled_percent_sum(s6.drop_last(), 30) == 0);
        assert(s6.last() == d[0] && d[0].2 == 3);
        assert((30 as nat) / (3 as nat) == 10);
        assert(scaled_percent_sum(s6, 30) == 100 * valuation_present(p) * 10);
        assert(s5.last() == d[1] && s5.drop_last() == s6);
        assert((30 as nat) / (5 as nat) == 6);
        assert(scaled_percent_sum(s5, 30) == scaled_percent_sum(s6, 30) + 100 * lender_growth_present(p) * 6);
        assert(s4.last() == d[2] && s4.drop_last() == s5);
        assert((30 as nat) / (3 as nat) == 10);
        assert(scaled_percent_sum(s4, 30) == scaled_percent_sum(s5, 30) + 100 * asset_quality_present(p) * 10);
        assert(s3.last() == d[3] && s3.drop_last() == s4);
        assert((30 as nat) / (2 as nat) == 15);
        assert(scaled_percent_sum(s3, 30) == scaled_percent_sum(s4, 30) + 100 * capital_present(p) * 15);
        assert(s2.last() == d[4] && s2.drop_last() == s3);
        assert((30 as nat) / (5 as nat) == 6);
        assert(scaled_percent_sum(s2, 30) == scaled_percent_sum(s3, 30) + 100 * nim_present(p) * 6);
        assert(s1.last() == d[5] && s1.drop_last() == s2);
        assert((30 as nat) / (5 as nat) == 6);
        assert(scaled_percent_sum(s1, 30) == scaled_percent_sum(s2, 30) + 100 * loan_present(t, p) * 6);
        assert(d.last() == d[6] && d.drop_last() == s1);
        assert((30 as nat) / (2 as nat) == 15);
        assert(scaled_percent_sum(d, 30) == scaled_percent_sum(s1, 30) + 100 * roe_roa_present(p) * 15);
    } else {
        let s1 = d.drop_last();
        assert(s1.drop_last() =~= Seq::<(Seq<char>, nat, nat)>::empty());
        assert(scaled_percent_sum(s1.drop_last(), 12) == 0);
        assert(s1.last() == d[0] && d[0].2 == 3);
        assert((12 as nat) / (3 as nat) == 4);
        assert(scaled_percent_sum(s1, 12) == 100 * valuation_present(p) * 4);
        assert(d.last() == d[1]);
        assert((12 as nat) / (4 as nat) == 3);
        assert(scaled_percent_sum(d, 12) == scaled_percent_sum(s1, 12) + 100 * industrial_growth_present(p) * 3);
    }
    let l: nat = if lender_type(t) {
        30
    } else {
        12
    };
    assert(overall_percent(t, p).numer == 100 * coverage_sum(t, p));
    assert forall|i: int| 0 <= i < d.len() implies 0 < (#[trigger] d[i]).2 && d[i].1 <= d[i].2 && l
        % d[i].2 == 0 by {
        assert((30 as nat) % (3 as nat) == 0 && (30 as nat) % (5 as nat) == 0 && (30 as nat) % (
        2 as nat) == 0);
        assert((12 as nat) % (3 as nat) == 0 && (12 as nat) % (4 as nat) == 0);
        if lender_type(t) {
            assert(i == 0 || i == 1 || i == 2 || i == 3 || i == 4 || i == 5 || i == 6);
        } else {
            assert(i == 0 || i == 1);
        }
    }
}

/// Sorting owned rows newest-first gives the very rows, in the same order, that the
/// newest-first sort by reference points to, when both sorted by the same keys.
pub proof fn law_owned_sort_matches_sort_by_reference<T>(
    rows: Seq<T>,
    ks: Seq<i64>,
    x: Seq<usize>,
    y: Seq<usize>,
    owned: Seq<T>,
    refs: Seq<&T>,
)
    requires
        stable_order(ks, x, true),
        stable_order(ks, y, true),
        arranged(rows, x, owned),
        arranged_refs(rows, y, refs),
    ensures
        owned.len() == refs.len(),
        forall|j: int| 0 <= j < owned.len() ==> owned[j] == *refs[j],
{
    law_stable_order_is_unique(ks, x, y, true);
}

/// A company is industrial exactly when its lower-cased sector does not mention
/// "financial" and its industry names none of the financial businesses (bank, NBFC,
/// credit, insurance, capital market, asset management, mortgage, housing, payment,
/// exchange); so its ticker alone never makes a company financial.
pub proof fn law_industrial_unless_profile_reads_financial(
    base: Seq<char>,
    other_base: Seq<char>,
    sector: Seq<char>,
    industry: Seq<char>,
    summary: Seq<char>,
    name: Seq<char>,
)
    ensures
        (classify_lowered(base, sector, industry, summary, name) == FinancialCompanyType::Industrial)
            <==> !looks_financial(sector, industry),
        (classify_lowered(base, sector, industry, summary, name) == FinancialCompanyType::Industrial)
            <==> (classify_lowered(other_base, sector, industry, summary, name)
            == FinancialCompanyType::Industrial),
{
}

/// Any input, not only ASCII, resolves as documented: the trimmed input is
/// upper-cased, one `.NS` or `.BO` suffix comes off and the rest is trimmed to the
/// base; empty or spaced input is refused with the input, an empty base with the
/// trimmed input; otherwise the base takes `.NS` when the input said `.NS` or the
/// upper-cased base is NSE-listed, else `.BO`.
pub proof fn law_resolution_as_documented(input: Seq<char>, nse: Set<Seq<char>>)
    ensures
        ({
            let t = trim(input);
            let u = unicode_upper(t);
            let b = trim(strip_yahoo_suffix(u));
            if t.len() == 0 || has_white_space(t) {
                resolved_symbol(input, nse) == Err::<Seq<char>, Seq<char>>(input)
            } else if b.len() == 0 {
                resolved_symbol(input, nse) == Err::<Seq<char>, Seq<char>>(t)
            } else {
                resolved_symbol(input, nse) == Ok::<Seq<char>, Seq<char>>(
                    b + if is_suffix(".NS"@, u) || nse.contains(unicode_upper(b)) {
                        ".NS"@
                    } else {
                        ".BO"@
                    },
                )
            }
        }),
{
    lemma_trim_idempotent(input);
}

} // verus!
