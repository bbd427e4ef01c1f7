//! Requests to the market-data provider and what the library keeps of its answers:
//! the URLs asked for, the session crumb, search answers (peer quotes, headlines)
//! and the company profile in a quote-summary answer.
//!
//! The requests themselves are made outside the library; the answer texts are read
//! here with `serde_json`, one JSON-pointer lookup at a time.

use vstd::prelude::*;
use vstd::string::StringSliceAdditionalSpecFns;

use crate::fetcher::{fallback_peer_symbols, select_search_peers, SearchQuote};
use crate::models::{AssetProfile, NewsItem};
use crate::symbol::{exchange_label_of, india_exchange_label};
use crate::text::{
    chars_of, contains_str, decimal, decimal_string, is_prefix, push_str, signed_decimal,
    signed_decimal_string, starts_with_str, string_from_chars, string_of, string_views, trim,
    trim_str,
};

verus! {

// ---------------------------------------------------------------------------
// Percent-encoding (urlencoding::encode)
// ---------------------------------------------------------------------------

/// A byte left as it is: ASCII letters and digits and `-`, `.`, `_`, `~`.
pub open spec fn unreserved(b: u8) -> bool {
    (48 <= b <= 57) || (65 <= b <= 90) || (97 <= b <= 122) || b == 45 || b == 46 || b == 95
        || b == 126
}

/// The upper-case hexadecimal digit for `d` (0–15).
pub open spec fn hex_digit(d: u8) -> char {
    if d < 10 {
        ((48 + d) as u8) as char
    } else {
        ((55 + d) as u8) as char
    }
}

/// Each byte unreserved byte as its character, every other byte as `%XX`.
pub open spec fn percent_encoded(bytes: Seq<u8>) -> Seq<char>
    decreases bytes.len(),
{
    if bytes.len() == 0 {
        Seq::empty()
    } else {
        let b = bytes[0];
        let head = if unreserved(b) {
            seq![b as char]
        } else {
            seq!['%', hex_digit(b / 16), hex_digit(b % 16)]
        };
        head + percent_encoded(bytes.drop_first())
    }
}

/// `urlencoding::encode`: percent-encodes every UTF-8 byte of `s` except ASCII
/// alphanumerics and `-`, `_`, `.`, `~`, with upper-case hex digits (as its
/// documentation and source show).
#[verifier::external_body]
pub(crate) fn url_encode(s: &str) -> (r: String)
    ensures
        r@ == percent_encoded(s.spec_bytes()),
{
    urlencoding::encode(s).into_owned()
}

// ---------------------------------------------------------------------------
// Request URLs
// ---------------------------------------------------------------------------

/// The provider's search endpoint.
pub open spec fn search_endpoint() -> Seq<char> {
    "https://query2.finance.yahoo.com/v1/finance/search?q="@
}

/// The search URL for listed peers matching `query` (25 quotes, no news).
pub fn peer_search_url(query: &str) -> (r: String)
    ensures
        r@ == search_endpoint() + percent_encoded(query.spec_bytes())
            + "&quotesCount=25&newsCount=0"@,
{
    let mut url = string_of("https://query2.finance.yahoo.com/v1/finance/search?q=");
    let q = url_encode(query);
    push_str(&mut url, q.as_str());
    push_str(&mut url, "&quotesCount=25&newsCount=0");
    url
}

/// The search URL for up to `news_count` headlines about `query`.
pub fn news_search_url(query: &str, news_count: u32) -> (r: String)
    ensures
        r@ == search_endpoint() + percent_encoded(query.spec_bytes()) + "&newsCount="@ + decimal(
            news_count as nat,
        ),
{
    let mut url = string_of("https://query2.finance.yahoo.com/v1/finance/search?q=");
    let q = url_encode(query);
    push_str(&mut url, q.as_str());
    push_str(&mut url, "&newsCount=");
    let n = decimal_string(news_count as u64);
    push_str(&mut url, n.as_str());
    url
}

/// The quote-summary URL for `symbol` and `modules`, with the session crumb when
/// there is one.
pub fn quote_summary_url(symbol: &str, modules: &str, crumb: Option<&str>) -> (r: String)
    ensures
        r@ == "https://query2.finance.yahoo.com/v10/finance/quoteSummary/"@ + percent_encoded(
            symbol.spec_bytes(),
        ) + "?modules="@ + modules@ + match crumb {
            Some(c) => "&crumb="@ + percent_encoded(c.spec_bytes()),
            None => Seq::<char>::empty(),
        },
{
    let mut url = string_of("https://query2.finance.yahoo.com/v10/finance/quoteSummary/");
    let s = url_encode(symbol);
    push_str(&mut url, s.as_str());
    push_str(&mut url, "?modules=");
    push_str(&mut url, modules);
    match crumb {
        Some(c) => {
            push_str(&mut url, "&crumb=");
            let e = url_encode(c);
            push_str(&mut url, e.as_str());
        },
        None => {},
    }
    url
}

/// The session crumb in the provider's answer: the trimmed text, unless it is empty,
/// starts with `{` or holds a `<` (an error document rather than a crumb).
pub open spec fn crumb_of(text: Seq<char>) -> Option<Seq<char>> {
    let c = trim(text);
    if c.len() == 0 || is_prefix("{"@, c) || crate::text::contains_seq(c, "<"@) {
        None
    } else {
        Some(c)
    }
}

/// The session crumb from the text of the crumb request.
pub fn crumb_from_response(text: &str) -> (r: Option<String>)
    ensures
        r matches Some(c) ==> crumb_of(text@) == Some(c@),
        r is None ==> crumb_of(text@) is None,
{
    let c = trim_str(text);
    if c.len() == 0 || starts_with_str(c.as_slice(), "{") || contains_str(c.as_slice(), "<") {
        None
    } else {
        Some(string_from_chars(c.as_slice()))
    }
}

// ---------------------------------------------------------------------------
// Reading answers (serde_json)
// ---------------------------------------------------------------------------

/// `serde_json::from_str::<Value>(text)` succeeds.
pub uninterp spec fn json_parses(text: Seq<char>) -> bool;

/// The string at JSON pointer `pointer` of the parsed `text`, when there is one.
pub uninterp spec fn json_text_at(text: Seq<char>, pointer: Seq<char>) -> Option<Seq<char>>;

/// The integer (`Value::as_i64`) at JSON pointer `pointer` of the parsed `text`.
pub uninterp spec fn json_int_at(text: Seq<char>, pointer: Seq<char>) -> Option<i64>;

/// The length of the array at JSON pointer `pointer` of the parsed `text`.
pub uninterp spec fn json_array_len_at(text: Seq<char>, pointer: Seq<char>) -> Option<nat>;

/// Some non-null value stands at JSON pointer `pointer` of the parsed `text`.
pub uninterp spec fn json_present_at(text: Seq<char>, pointer: Seq<char>) -> bool;

/// The keys, in the map's iteration order, of the object at JSON pointer `pointer` of
/// the parsed `text`.
pub uninterp spec fn json_keys_at(text: Seq<char>, pointer: Seq<char>) -> Option<Seq<Seq<char>>>;

/// The text serde_json writes for the number at JSON pointer `pointer` of the parsed `text`.
pub uninterp spec fn json_number_text_at(text: Seq<char>, pointer: Seq<char>) -> Option<Seq<char>>;

/// `Value::as_f64` at JSON pointer `pointer` of the parsed `text`, cast to `i64`.
pub uninterp spec fn json_float_int_at(text: Seq<char>, pointer: Seq<char>) -> Option<i64>;

/// Calls `serde_json::from_str::<serde_json::Value>`.
#[verifier::external_body]
pub(crate) fn json_is_valid(text: &str) -> (r: bool)
    ensures
        r == json_parses(text@),
{
    serde_json::from_str::<serde_json::Value>(text).is_ok()
}

/// Calls `serde_json::from_str`, `Value::pointer` and `Value::as_str`.
#[verifier::external_body]
pub(crate) fn json_text(text: &str, pointer: &str) -> (r: Option<String>)
    ensures
        r matches Some(s) ==> json_text_at(text@, pointer@) == Some(s@),
        r is None ==> json_text_at(text@, pointer@) is None,
{
    match serde_json::from_str::<serde_json::Value>(text) {
        Ok(v) => match v.pointer(pointer) {
            Some(x) => x.as_str().map(|s| s.to_string()),
            None => None,
        },
        Err(_) => None,
    }
}

/// Calls `serde_json::from_str`, `Value::pointer` and `Value::as_i64`.
#[verifier::external_body]
pub(crate) fn json_int(text: &str, pointer: &str) -> (r: Option<i64>)
    ensures
        r == json_int_at(text@, pointer@),
{
    match serde_json::from_str::<serde_json::Value>(text) {
        Ok(v) => match v.pointer(pointer) {
            Some(x) => x.as_i64(),
            None => None,
        },
        Err(_) => None,
    }
}

/// Calls `serde_json::from_str`, `Value::pointer` and `Value::as_array`.
#[verifier::external_body]
pub(crate) fn json_array_len(text: &str, pointer: &str) -> (r: Option<usize>)
    ensures
        r matches Some(n) ==> json_array_len_at(text@, pointer@) == Some(n as nat),
        r is None ==> json_array_len_at(text@, pointer@) is None,
{
    match serde_json::from_str::<serde_json::Value>(text) {
        Ok(v) => match v.pointer(pointer) {
            Some(x) => x.as_array().map(|a| a.len()),
            None => None,
        },
        Err(_) => None,
    }
}

/// Calls `serde_json::from_str`, `Value::pointer` and `Value::is_null`.
#[verifier::external_body]
fn json_present(text: &str, pointer: &str) -> (r: bool)
    ensures
        r == json_present_at(text@, pointer@),
{
    match serde_json::from_str::<serde_json::Value>(text) {
        Ok(v) => match v.pointer(pointer) {
            Some(x) => !x.is_null(),
            None => false,
        },
        Err(_) => false,
    }
}

/// Calls `serde_json::from_str`, `Value::pointer`, `Value::as_object` and `Map::keys`.
#[verifier::external_body]
pub(crate) fn json_keys(text: &str, pointer: &str) -> (r: Option<Vec<String>>)
    ensures
        r matches Some(v) ==> json_keys_at(text@, pointer@) == Some(string_views(v@)),
        r is None ==> json_keys_at(text@, pointer@) is None,
{
    match serde_json::from_str::<serde_json::Value>(text) {
        Ok(v) => match v.pointer(pointer) {
            Some(x) => x.as_object().map(|o| o.keys().cloned().collect()),
            None => None,
        },
        Err(_) => None,
    }
}

/// Calls `serde_json::from_str`, `Value::pointer`, `Value::is_number` and the number's
/// `to_string`.
#[verifier::external_body]
pub(crate) fn json_number_text(text: &str, pointer: &str) -> (r: Option<String>)
    ensures
        r matches Some(s) ==> json_number_text_at(text@, pointer@) == Some(s@),
        r is None ==> json_number_text_at(text@, pointer@) is None,
{
    match serde_json::from_str::<serde_json::Value>(text) {
        Ok(v) => match v.pointer(pointer) {
            Some(x) if x.is_number() => Some(x.to_string()),
            _ => None,
        },
        Err(_) => None,
    }
}

/// Calls `serde_json::from_str`, `Value::pointer` and `Value::as_f64`, and casts the
/// number to `i64` (saturating, dropping the fraction).
#[verifier::external_body]
pub(crate) fn json_float_int(text: &str, pointer: &str) -> (r: Option<i64>)
    ensures
        r == json_float_int_at(text@, pointer@),
{
    match serde_json::from_str::<serde_json::Value>(text) {
        Ok(v) => match v.pointer(pointer) {
            Some(x) => x.as_f64().map(|f| f as i64),
            None => None,
        },
        Err(_) => None,
    }
}

/// The pointer to field `field` of element `i` of the array at `array`.
pub open spec fn element_pointer(array: Seq<char>, i: nat, field: Seq<char>) -> Seq<char> {
    array + "/"@ + decimal(i) + "/"@ + field
}

fn element_pointer_exec(array: &str, i: usize, field: &str) -> (r: String)
    ensures
        r@ == element_pointer(array@, i as nat, field@),
{
    let mut p = string_of(array);
    push_str(&mut p, "/");
    let d = decimal_string(i as u64);
    push_str(&mut p, d.as_str());
    push_str(&mut p, "/");
    push_str(&mut p, field);
    p
}

// ---------------------------------------------------------------------------
// Peer search answers
// ---------------------------------------------------------------------------

/// The quotes of a search answer (symbol and quote type of each), or `None` when the
/// answer holds no `quotes` array.
pub open spec fn answer_quotes(text: Seq<char>) -> Option<Seq<(Option<Seq<char>>, Seq<char>)>> {
    match json_array_len_at(text, "/quotes"@) {
        None => None,
        Some(n) => Some(
            Seq::new(
                n,
                |i: int|
                    (
                        json_text_at(text, element_pointer("/quotes"@, i as nat, "symbol"@)),
                        match json_text_at(text, element_pointer("/quotes"@, i as nat, "quoteType"@)) {
                            Some(t) => t,
                            None => Seq::empty(),
                        },
                    ),
            ),
        ),
    }
}

/// The quotes of a search answer, or `None` when it holds no `quotes` array.
pub fn search_answer_quotes(text: &str) -> (r: Option<Vec<SearchQuote>>)
    ensures
        r matches Some(v) ==> answer_quotes(text@) == Some(
            v@.map_values(|q: SearchQuote| crate::fetcher::quote_view(q)),
        ),
        r is None ==> answer_quotes(text@) is None,
{
    let n = match json_array_len(text, "/quotes") {
        Some(n) => n,
        None => return None,
    };
    let ghost want = answer_quotes(text@)->0;
    let mut out: Vec<SearchQuote> = Vec::new();
    let mut i: usize = 0;
    while i < n
        invariant
            i <= n,
            answer_quotes(text@) == Some(want),
            want.len() == n,
            out@.len() == i,
            forall|j: int|
                0 <= j < i ==> crate::fetcher::quote_view(#[trigger] out@[j]) == want[j],
        decreases n - i,
    {
        let sp = element_pointer_exec("/quotes", i, "symbol");
        let tp = element_pointer_exec("/quotes", i, "quoteType");
        let symbol = json_text(text, sp.as_str());
        let quote_type = json_text(text, tp.as_str());
        out.push(SearchQuote { symbol, quote_type });
        i += 1;
    }
    assert(out@.map_values(|q: SearchQuote| crate::fetcher::quote_view(q)) =~= want);
    Some(out)
}

/// NSE peers from the answer to a peer search: nothing when the request failed or the
/// answer holds no `quotes` array; the curated fallback list when no quote qualifies.
pub fn peers_from_search_answer(
    answer: Option<&str>,
    subject: &str,
    industry: Option<&str>,
    sector: Option<&str>,
    limit: usize,
) -> (r: Vec<String>)
    ensures
        match answer {
            None => r@.len() == 0,
            Some(text) => match answer_quotes(text@) {
                None => r@.len() == 0,
                Some(qs) => {
                    let picked = crate::fetcher::pick_peers(qs, subject@, limit as nat, 0);
                    if picked.len() > 0 {
                        string_views(r@) == picked
                    } else {
                        string_views(r@) == crate::fetcher::other_than_subject(
                            crate::fetcher::fallback_list(
                                crate::text::unicode_lower(
                                    crate::financial_company::opt_str_text(industry),
                                ),
                                crate::text::unicode_lower(
                                    crate::financial_company::opt_str_text(sector),
                                ),
                            ),
                            subject@,
                            limit as nat,
                        )
                    }
                },
            },
        },
{
    let text = match answer {
        Some(t) => t,
        None => return Vec::new(),
    };
    let quotes = match search_answer_quotes(text) {
        Some(q) => q,
        None => return Vec::new(),
    };
    let out = select_search_peers(&quotes, subject, limit);
    if out.len() == 0 {
        fallback_peer_symbols(subject, industry, sector, limit)
    } else {
        out
    }
}

// ---------------------------------------------------------------------------
// Headline search answers
// ---------------------------------------------------------------------------

/// Text of an optional string field, empty when missing.
pub open spec fn text_or_empty(t: Option<Seq<char>>) -> Seq<char> {
    match t {
        Some(s) => s,
        None => Seq::empty(),
    }
}

/// The headlines of a search answer: title, link and publication time (seconds, as
/// decimal text) of each element of its `news` array, empty where missing.
pub open spec fn answer_news(text: Seq<char>) -> Seq<(Seq<char>, Seq<char>, Seq<char>)> {
    match json_array_len_at(text, "/news"@) {
        None => Seq::empty(),
        Some(n) => Seq::new(
            n,
            |i: int|
                (
                    text_or_empty(json_text_at(text, element_pointer("/news"@, i as nat, "title"@))),
                    text_or_empty(json_text_at(text, element_pointer("/news"@, i as nat, "link"@))),
                    match json_int_at(
                        text,
                        element_pointer("/news"@, i as nat, "providerPublishTime"@),
                    ) {
                        Some(t) => signed_decimal(t as int),
                        None => Seq::empty(),
                    },
                ),
        ),
    }
}

/// The view of a headline.
pub open spec fn news_view(n: NewsItem) -> (Seq<char>, Seq<char>, Seq<char>) {
    (n.title@, n.link@, n.published_at@)
}

fn text_or_empty_exec(t: Option<String>) -> (r: String)
    ensures
        r@ == text_or_empty(
            match t {
                Some(s) => Some(s@),
                None => None,
            },
        ),
{
    match t {
        Some(s) => s,
        None => String::new(),
    }
}

/// Headlines from the answer to a news search; none when the request failed or the
/// answer holds no `news` array.
pub fn news_from_search_answer(answer: Option<&str>) -> (r: Vec<NewsItem>)
    ensures
        match answer {
            None => r@.len() == 0,
            Some(text) => r@.map_values(|n: NewsItem| news_view(n)) == answer_news(text@),
        },
{
    let text = match answer {
        Some(t) => t,
        None => return Vec::new(),
    };
    let n = match json_array_len(text, "/news") {
        Some(n) => n,
        None => {
            let r: Vec<NewsItem> = Vec::new();
            assert(r@.map_values(|n: NewsItem| news_view(n)) =~= answer_news(text@));
            return r;
        },
    };
    let ghost want = answer_news(text@);
    let mut out: Vec<NewsItem> = Vec::new();
    let mut i: usize = 0;
    while i < n
        invariant
            i <= n,
            want == answer_news(text@),
            json_array_len_at(text@, "/news"@) == Some(n as nat),
            want.len() == n,
            out@.len() == i,
            forall|j: int| 0 <= j < i ==> news_view(#[trigger] out@[j]) == want[j],
        decreases n - i,
    {
        let tp = element_pointer_exec("/news", i, "title");
        let lp = element_pointer_exec("/news", i, "link");
        let pp = element_pointer_exec("/news", i, "providerPublishTime");
        let title = text_or_empty_exec(json_text(text, tp.as_str()));
        let link = text_or_empty_exec(json_text(text, lp.as_str()));
        let published_at = match json_int(text, pp.as_str()) {
            Some(t) => signed_decimal_string(t),
            None => String::new(),
        };
        out.push(NewsItem { title, link, published_at });
        i += 1;
    }
    assert(out@.map_values(|n: NewsItem| news_view(n)) =~= want);
    out
}

// ---------------------------------------------------------------------------
// Quote-summary answers
// ---------------------------------------------------------------------------

/// Why a quote-summary answer is refused, or `None` when it can be used.
pub open spec fn quote_summary_refusal(text: Seq<char>) -> Option<Seq<char>> {
    if !json_parses(text) {
        Some("Yahoo quoteSummary answer is not JSON"@)
    } else {
        let code = json_text_at(text, "/quoteSummary/error/code"@);
        let desc = json_text_at(text, "/quoteSummary/error/description"@);
        if code is Some || desc is Some {
            Some(
                "Yahoo quoteSummary error ["@ + match code {
                    Some(c) => c,
                    None => "UnknownCode"@,
                } + "]: "@ + match desc {
                    Some(d) => d,
                    None => "Unknown quote summary error"@,
                },
            )
        } else if !json_present_at(text, "/quoteSummary/result"@) {
            Some("Yahoo quoteSummary returned empty result"@)
        } else {
            None
        }
    }
}

/// Checks a quote-summary answer: refused when it is not JSON, when the provider
/// reports an error, or when it holds no result.
pub fn check_quote_summary(text: &str) -> (r: Result<(), String>)
    ensures
        match quote_summary_refusal(text@) {
            Some(m) => r matches Err(e) && e@ == m,
            None => r is Ok,
        },
{
    if !json_is_valid(text) {
        return Err(string_of("Yahoo quoteSummary answer is not JSON"));
    }
    let code = json_text(text, "/quoteSummary/error/code");
    let desc = json_text(text, "/quoteSummary/error/description");
    if code.is_some() || desc.is_some() {
        let mut m = string_of("Yahoo quoteSummary error [");
        match &code {
            Some(c) => push_str(&mut m, c.as_str()),
            None => push_str(&mut m, "UnknownCode"),
        }
        push_str(&mut m, "]: ");
        match &desc {
            Some(d) => push_str(&mut m, d.as_str()),
            None => push_str(&mut m, "Unknown quote summary error"),
        }
        return Err(m);
    }
    if !json_present(text, "/quoteSummary/result") {
        return Err(string_of("Yahoo quoteSummary returned empty result"));
    }
    Ok(())
}

/// The first present of two optional texts.
pub open spec fn first_of(a: Option<Seq<char>>, b: Option<Seq<char>>) -> Option<Seq<char>> {
    match a {
        Some(x) => Some(x),
        None => b,
    }
}

/// The view of an optional owned string.
pub open spec fn opt_view(o: Option<String>) -> Option<Seq<char>> {
    match o {
        Some(s) => Some(s@),
        None => None,
    }
}

/// Pointer to a field of the first quote-summary result.
pub open spec fn result_field(module: Seq<char>, field: Seq<char>) -> Seq<char> {
    "/quoteSummary/result/0/"@ + module + "/"@ + field
}

/// The company profile a quote-summary answer gives: name from the price module
/// (long, else short) or the profile module; exchange normalized to `NSE` / `BSE`.
pub open spec fn profile_of(symbol: Seq<char>, text: Seq<char>) -> (
    Option<Seq<char>>,
    Option<Seq<char>>,
    Option<Seq<char>>,
    Option<Seq<char>>,
    Option<Seq<char>>,
    Option<Seq<char>>,
    Option<Seq<char>>,
    Option<Seq<char>>,
) {
    let ap = |f: Seq<char>| json_text_at(text, result_field("assetProfile"@, f));
    let price = |f: Seq<char>| json_text_at(text, result_field("price"@, f));
    (
        first_of(price("longName"@), first_of(price("shortName"@), ap("longName"@))),
        ap("sector"@),
        ap("industry"@),
        ap("longBusinessSummary"@),
        ap("website"@),
        ap("country"@),
        match first_of(price("exchange"@), price("fullExchangeName"@)) {
            Some(raw) => Some(exchange_label_of(symbol, Some(raw))),
            None => None,
        },
        price("currency"@),
    )
}

/// The view of a company profile.
pub open spec fn asset_profile_view(p: AssetProfile) -> (
    Option<Seq<char>>,
    Option<Seq<char>>,
    Option<Seq<char>>,
    Option<Seq<char>>,
    Option<Seq<char>>,
    Option<Seq<char>>,
    Option<Seq<char>>,
    Option<Seq<char>>,
) {
    (
        opt_view(p.long_name),
        opt_view(p.sector),
        opt_view(p.industry),
        opt_view(p.long_business_summary),
        opt_view(p.website),
        opt_view(p.country),
        opt_view(p.exchange),
        opt_view(p.currency),
    )
}

fn result_text(text: &str, module: &str, field: &str) -> (r: Option<String>)
    ensures
        opt_view(r) == json_text_at(text@, result_field(module@, field@)),
{
    let mut p = string_of("/quoteSummary/result/0/");
    push_str(&mut p, module);
    push_str(&mut p, "/");
    push_str(&mut p, field);
    json_text(text, p.as_str())
}

fn first_present(a: Option<String>, b: Option<String>) -> (r: Option<String>)
    ensures
        opt_view(r) == first_of(opt_view(a), opt_view(b)),
{
    match a {
        Some(x) => Some(x),
        None => b,
    }
}

/// The company profile in a quote-summary answer for `symbol` (modules
/// `assetProfile,price`); the exchange is stored as `NSE` or `BSE`, never as the
/// provider's own code.
pub fn asset_profile_from_answer(symbol: &str, text: &str) -> (r: AssetProfile)
    ensures
        asset_profile_view(r) == profile_of(symbol@, text@),
{
    let long_name = first_present(
        result_text(text, "price", "longName"),
        first_present(
            result_text(text, "price", "shortName"),
            result_text(text, "assetProfile", "longName"),
        ),
    );
    let raw_exchange = first_present(
        result_text(text, "price", "exchange"),
        result_text(text, "price", "fullExchangeName"),
    );
    let exchange = match raw_exchange {
        Some(raw) => Some(string_of(india_exchange_label(symbol, Some(raw.as_str())))),
        None => None,
    };
    AssetProfile {
        long_name,
        sector: result_text(text, "assetProfile", "sector"),
        industry: result_text(text, "assetProfile", "industry"),
        long_business_summary: result_text(text, "assetProfile", "longBusinessSummary"),
        website: result_text(text, "assetProfile", "website"),
        country: result_text(text, "assetProfile", "country"),
        exchange,
        currency: result_text(text, "price", "currency"),
    }
}

/// The one-line sector outlook from a usable quote-summary answer (`None` when the
/// request or the answer failed).
pub open spec fn sector_outlook_of(answer: Option<Seq<char>>) -> Seq<char> {
    match answer {
        None => "Sector data unavailable due to error"@,
        Some(text) => {
            let sector = match json_text_at(text, result_field("assetProfile"@, "sector"@)) {
                Some(s) => s,
                None => "Unknown"@,
            };
            if sector == "Unknown"@ {
                "No sector data found"@
            } else {
                "Sector: "@ + sector + ". General outlook for this sector is Neutral/Positive."@
            }
        },
    }
}

/// One-line sector outlook for the CLI.
pub fn sector_outlook_line(answer: Option<&str>) -> (r: String)
    ensures
        r@ == sector_outlook_of(
            match answer {
                Some(t) => Some(t@),
                None => None,
            },
        ),
{
    let text = match answer {
        Some(t) => t,
        None => return string_of("Sector data unavailable due to error"),
    };
    let sector = match result_text(text, "assetProfile", "sector") {
        Some(s) => s,
        None => string_of("Unknown"),
    };
    let sv = chars_of(sector.as_str());
    if crate::text::chars_eq_str(sv.as_slice(), "Unknown") {
        string_of("No sector data found")
    } else {
        let mut out = string_of("Sector: ");
        push_str(&mut out, sector.as_str());
        push_str(&mut out, ". General outlook for this sector is Neutral/Positive.");
        out
    }
}

} // verus!
