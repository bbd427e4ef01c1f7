//! Normalize user input to Yahoo India tickers (`*.NS` / `*.BO`).
//!
//! Dual-listed stocks resolve to NSE (`.NS`) when the base symbol is in the NSE universe.

use vstd::prelude::*;
use vstd::hash_set::StringHashSet;

use crate::error::{invalid_symbol_text, StockerError};
use crate::text::{
    chars_eq_str, chars_of, contains_seq, ends_with_str, has_white_space, has_white_space_exec,
    is_suffix, push_str, slice_chars, string_from_chars, trim, trim_chars, trim_str,
    unicode_upper, upper_chars, contains_str, lemma_trim_idempotent, eq_ignore_ascii_case,
    eq_ignore_ascii_case_exec, is_prefix, starts_with_str, string_views,
};

verus! {

/// NSE trading symbols (no suffix) used to prefer `.NS` over `.BO`.
pub struct IndiaSymbolContext {
    pub nse_bases: StringHashSet,
}

impl View for IndiaSymbolContext {
    type V = Set<Seq<char>>;

    open spec fn view(&self) -> Set<Seq<char>> {
        self.nse_bases@
    }
}

impl Default for IndiaSymbolContext {
    fn default() -> (r: Self)
        ensures
            r@ == Set::<Seq<char>>::empty(),
    {
        IndiaSymbolContext { nse_bases: StringHashSet::new() }
    }
}

/// The set of the characters of each string in `v`.
pub open spec fn string_set(v: Seq<String>) -> Set<Seq<char>> {
    v.map_values(|s: String| s@).to_set()
}

impl IndiaSymbolContext {
    /// A context listing exactly the given NSE base symbols.
    pub fn from_nse_bases(bases: Vec<String>) -> (r: Self)
        ensures
            r@ == string_set(bases@),
    {
        let mut set = StringHashSet::new();
        let mut i: usize = 0;
        while i < bases.len()
            invariant
                i <= bases.len(),
                set@ == string_set(bases@.take(i as int)),
            decreases bases.len() - i,
        {
            let s = string_from_chars(chars_of(bases[i].as_str()).as_slice());
            set.insert(s);
            i += 1;
            proof {
                let pre = bases@.take(i - 1);
                let cur = bases@.take(i as int);
                assert(cur =~= pre.push(bases@[i - 1]));
                assert(cur.map_values(|s: String| s@) =~= pre.map_values(|s: String| s@).push(
                    bases@[i - 1]@,
                ));
                pre.map_values(|s: String| s@).lemma_push_to_set_commute(bases@[i - 1]@);
            }
        }
        assert(bases@.take(bases@.len() as int) =~= bases@);
        IndiaSymbolContext { nse_bases: set }
    }

    /// Whether the upper-cased `base` is a listed NSE symbol.
    pub fn is_nse_listed(&self, base: &str) -> (r: bool)
        ensures
            r == self@.contains(unicode_upper(base@)),
    {
        let u = upper_chars(chars_of(base).as_slice());
        let s = string_from_chars(u.as_slice());
        self.nse_bases.contains(s.as_str())
    }
}

/// `u` without a trailing `.NS`, or else without a trailing `.BO`.
pub open spec fn strip_yahoo_suffix(u: Seq<char>) -> Seq<char> {
    if is_suffix(".NS"@, u) {
        u.take(u.len() - ".NS"@.len())
    } else if is_suffix(".BO"@, u) {
        u.take(u.len() - ".BO"@.len())
    } else {
        u
    }
}

/// The upper-case base symbol of `input`, or `None` when nothing is left of it.
pub open spec fn base_symbol_of(input: Seq<char>) -> Option<Seq<char>> {
    let s = trim(input);
    if s.len() == 0 {
        None
    } else {
        let base = trim(strip_yahoo_suffix(unicode_upper(s)));
        if base.len() == 0 {
            None
        } else {
            Some(base)
        }
    }
}

/// `s` without a trailing `p`, when `s` ends with `p`.
fn strip_suffix_str(s: &[char], p: &str) -> (r: Option<Vec<char>>)
    ensures
        r matches Some(v) ==> is_suffix(p@, s@) && v@ == s@.take(s@.len() - p@.len()),
        r is None ==> !is_suffix(p@, s@),
{
    if ends_with_str(s, p) {
        let n = chars_of(p).len();
        Some(slice_chars(s, 0, s.len() - n))
    } else {
        None
    }
}

/// The characters of `strip_yahoo_suffix(u)`.
pub(crate) fn strip_yahoo_suffix_chars(u: &[char]) -> (r: Vec<char>)
    ensures
        r@ == strip_yahoo_suffix(u@),
{
    match strip_suffix_str(u, ".NS") {
        Some(v) => v,
        None => match strip_suffix_str(u, ".BO") {
            Some(v) => v,
            None => slice_chars(u, 0, u.len()),
        },
    }
}

/// The characters of `base_symbol_of(input)`.
fn base_symbol_chars(input: &[char]) -> (r: Option<Vec<char>>)
    ensures
        r matches Some(v) ==> base_symbol_of(input@) == Some(v@),
        r is None ==> base_symbol_of(input@) is None,
{
    let s = trim_chars(input);
    if s.len() == 0 {
        return None;
    }
    let upper = upper_chars(s.as_slice());
    let stripped = strip_yahoo_suffix_chars(upper.as_slice());
    let base = trim_chars(stripped.as_slice());
    if base.len() == 0 {
        None
    } else {
        Some(base)
    }
}

/// Strip `.NS` / `.BO` suffix and return the upper-case base symbol.
pub fn india_base_symbol(input: &str) -> (r: Result<String, StockerError>)
    ensures
        r matches Ok(b) ==> base_symbol_of(input@) == Some(b@),
        r matches Err(e) ==> base_symbol_of(input@) is None && invalid_symbol_text(e) == Some(
            input@,
        ),
{
    match base_symbol_chars(chars_of(input).as_slice()) {
        Some(b) => Ok(string_from_chars(b.as_slice())),
        None => Err(StockerError::InvalidSymbol(string_from_chars(chars_of(input).as_slice()))),
    }
}

/// The Yahoo ticker for `input`, or the text that the refusal reports.
///
/// Explicit `.NS` input maps to `.NS`; otherwise a base listed on NSE maps to
/// `.NS` and any other base to `.BO`. Inputs with white space inside are refused.
pub open spec fn resolved_symbol(input: Seq<char>, nse: Set<Seq<char>>) -> Result<
    Seq<char>,
    Seq<char>,
> {
    let s = trim(input);
    if s.len() == 0 || has_white_space(s) {
        Err(input)
    } else {
        match base_symbol_of(s) {
            None => Err(s),
            Some(base) => if is_suffix(".NS"@, unicode_upper(s)) || nse.contains(
                unicode_upper(base),
            ) {
                Ok(base + ".NS"@)
            } else {
                Ok(base + ".BO"@)
            },
        }
    }
}

/// Resolve a user symbol to a Yahoo ticker, preferring NSE when listed on both exchanges.
///
/// - Explicit `.NS` input always maps to `.NS`.
/// - Otherwise, if the base is in `ctx.nse_bases` → `.NS`.
/// - Else → `.BO`.
///
/// Rejects names with white space (fund names, company prose): those are not tickers.
pub fn resolve_india_symbol(input: &str, ctx: &IndiaSymbolContext) -> (r: Result<
    String,
    StockerError,
>)
    ensures
        r matches Ok(t) ==> resolved_symbol(input@, ctx@) == Ok::<Seq<char>, Seq<char>>(t@),
        r matches Err(e) ==> invalid_symbol_text(e) matches Some(m) && resolved_symbol(
            input@,
            ctx@,
        ) == Err::<Seq<char>, Seq<char>>(m),
{
    let s = trim_str(input);
    if s.len() == 0 || has_white_space_exec(s.as_slice()) {
        return Err(StockerError::InvalidSymbol(string_from_chars(chars_of(input).as_slice())));
    }
    let upper = upper_chars(s.as_slice());
    proof {
        lemma_trim_idempotent(input@);
    }
    let base = match base_symbol_chars(s.as_slice()) {
        Some(b) => b,
        None => {
            return Err(StockerError::InvalidSymbol(string_from_chars(s.as_slice())));
        },
    };
    let mut out = string_from_chars(base.as_slice());
    if ends_with_str(upper.as_slice(), ".NS") {
        push_str(&mut out, ".NS");
        return Ok(out);
    }
    let bs = string_from_chars(base.as_slice());
    if ctx.is_nse_listed(bs.as_str()) {
        push_str(&mut out, ".NS");
    } else {
        push_str(&mut out, ".BO");
    }
    Ok(out)
}

/// Returns the upper-case Yahoo symbol ending in `.NS`.
/// Accepts `RELIANCE`, `reliance.ns`, `RELIANCE.NS`.
pub fn normalize_nse_symbol(input: &str) -> (r: Result<String, StockerError>)
    ensures
        r matches Ok(t) ==> base_symbol_of(input@) matches Some(b) && t@ == b + ".NS"@,
        r matches Err(e) ==> base_symbol_of(input@) is None && invalid_symbol_text(e) == Some(
            input@,
        ),
{
    let mut base = india_base_symbol(input)?;
    push_str(&mut base, ".NS");
    Ok(base)
}

/// The Yahoo BSE ticker for a BSE security id.
pub open spec fn bse_symbol_of(id: Seq<char>) -> Seq<char> {
    let s = trim(id);
    if s.len() == 0 {
        Seq::empty()
    } else if is_suffix(".BO"@, s) {
        unicode_upper(s)
    } else {
        unicode_upper(s) + ".BO"@
    }
}

/// Map a BSE security id to a Yahoo ticker (`*.BO`).
pub fn to_yahoo_bse_symbol(bse_security_id: &str) -> (r: String)
    ensures
        r@ == bse_symbol_of(bse_security_id@),
{
    let s = trim_str(bse_security_id);
    if s.len() == 0 {
        return String::new();
    }
    let upper = upper_chars(s.as_slice());
    let mut out = string_from_chars(upper.as_slice());
    if ends_with_str(s.as_slice(), ".BO") {
        return out;
    }
    push_str(&mut out, ".BO");
    out
}

/// Column indices for NSE `EQUITY_L.csv`-style headers.
#[derive(Debug, Clone, Copy, PartialEq, Eq, Structural)]
pub struct NseCsvIndices {
    pub symbol_col: Option<usize>,
    pub series_col: Option<usize>,
    pub simple_col: bool,
}

/// A header naming the symbol column.
pub open spec fn is_symbol_header(h: Seq<char>) -> bool {
    h == "SYMBOL"@ || h == "SYMBOLS"@ || h == "TICKER"@ || h == "SYMBOL_NS"@
}

/// A header naming the series column.
pub open spec fn is_series_header(h: Seq<char>) -> bool {
    h == "SERIES"@
}

/// `i` is the first position of `hs` whose header satisfies `p`.
pub open spec fn first_position(hs: Seq<Seq<char>>, p: spec_fn(Seq<char>) -> bool, r: Option<
    usize,
>) -> bool {
    match r {
        Some(i) => i < hs.len() && p(hs[i as int]) && forall|j: int| 0 <= j < i ==> !p(hs[j]),
        None => forall|j: int| 0 <= j < hs.len() ==> !p(hs[j]),
    }
}

/// The characters of each header.
pub open spec fn header_views(headers: Seq<String>) -> Seq<Seq<char>> {
    headers.map_values(|h: String| h@)
}

fn is_symbol_header_exec(h: &str) -> (r: bool)
    ensures
        r == is_symbol_header(h@),
{
    let v = chars_of(h);
    chars_eq_str(v.as_slice(), "SYMBOL") || chars_eq_str(v.as_slice(), "SYMBOLS")
        || chars_eq_str(v.as_slice(), "TICKER") || chars_eq_str(v.as_slice(), "SYMBOL_NS")
}

fn is_series_header_exec(h: &str) -> (r: bool)
    ensures
        r == is_series_header(h@),
{
    let v = chars_of(h);
    chars_eq_str(v.as_slice(), "SERIES")
}

fn first_symbol_col(headers: &[String]) -> (r: Option<usize>)
    ensures
        first_position(header_views(headers@), |h: Seq<char>| is_symbol_header(h), r),
{
    let ghost hv = header_views(headers@);
    let mut i: usize = 0;
    while i < headers.len()
        invariant
            i <= headers.len(),
            hv == header_views(headers@),
            forall|j: int| 0 <= j < i ==> !is_symbol_header(#[trigger] hv[j]),
        decreases headers.len() - i,
    {
        if is_symbol_header_exec(headers[i].as_str()) {
            return Some(i);
        }
        i += 1;
    }
    None
}

fn first_series_col(headers: &[String]) -> (r: Option<usize>)
    ensures
        first_position(header_views(headers@), |h: Seq<char>| is_series_header(h), r),
{
    let ghost hv = header_views(headers@);
    let mut i: usize = 0;
    while i < headers.len()
        invariant
            i <= headers.len(),
            hv == header_views(headers@),
            forall|j: int| 0 <= j < i ==> !is_series_header(#[trigger] hv[j]),
        decreases headers.len() - i,
    {
        if is_series_header_exec(headers[i].as_str()) {
            return Some(i);
        }
        i += 1;
    }
    None
}

/// Detect symbol and series column positions in an upper-cased CSV header row.
pub fn nse_csv_indices(headers: &[String]) -> (r: NseCsvIndices)
    ensures
        first_position(
            header_views(headers@),
            |h: Seq<char>| is_symbol_header(h),
            r.symbol_col,
        ),
        first_position(
            header_views(headers@),
            |h: Seq<char>| is_series_header(h),
            r.series_col,
        ),
        r.simple_col == (r.symbol_col is None && headers@.len() <= 1),
{
    let symbol_col = first_symbol_col(headers);
    let series_col = first_series_col(headers);
    let simple_col = symbol_col.is_none() && headers.len() <= 1;
    NseCsvIndices { symbol_col, series_col, simple_col }
}

/// `s` with every trailing copy of `p` removed (`str::trim_end_matches`).
pub open spec fn strip_all_suffix(s: Seq<char>, p: Seq<char>) -> Seq<char>
    decreases s.len(),
{
    if p.len() > 0 && is_suffix(p, s) {
        strip_all_suffix(s.take(s.len() - p.len()), p)
    } else {
        s
    }
}

pub(crate) fn strip_all_suffix_exec(s: &[char], p: &str) -> (r: Vec<char>)
    ensures
        r@ == strip_all_suffix(s@, p@),
{
    let pn = chars_of(p).len();
    let mut cur = slice_chars(s, 0, s.len());
    assert(cur@ =~= s@);
    if pn == 0 {
        return cur;
    }
    while ends_with_str(cur.as_slice(), p)
        invariant
            pn == p@.len(),
            pn > 0,
            strip_all_suffix(s@, p@) == strip_all_suffix(cur@, p@),
        decreases cur@.len(),
    {
        cur = slice_chars(cur.as_slice(), 0, cur.len() - pn);
    }
    cur
}

/// Strip `.NS` / `.BO` for display.
pub fn india_display_ticker(yahoo_symbol: &str) -> (r: String)
    ensures
        r@ == strip_all_suffix(strip_all_suffix(yahoo_symbol@, ".NS"@), ".BO"@),
{
    let v = chars_of(yahoo_symbol);
    let a = strip_all_suffix_exec(v.as_slice(), ".NS");
    let b = strip_all_suffix_exec(a.as_slice(), ".BO");
    string_from_chars(b.as_slice())
}

/// The exchange name for a ticker and the provider's exchange code.
pub open spec fn exchange_label_of(symbol: Seq<char>, yahoo_exchange: Option<Seq<char>>) -> Seq<
    char,
> {
    let upper = unicode_upper(trim(symbol));
    if is_suffix(".NS"@, upper) {
        "NSE"@
    } else if is_suffix(".BO"@, upper) {
        "BSE"@
    } else {
        match yahoo_exchange {
            Some(raw) => {
                let u = unicode_upper(trim(raw));
                if u == "NSI"@ || u == "NSE"@ || contains_seq(u, "NATIONAL"@) {
                    "NSE"@
                } else if u == "YHD"@ || u == "BOM"@ || u == "BSE"@ || contains_seq(
                    u,
                    "BOMBAY"@,
                ) {
                    "BSE"@
                } else {
                    "NSE"@
                }
            },
            None => "NSE"@,
        }
    }
}

/// Map a Yahoo ticker or Yahoo Finance exchange code to `NSE` or `BSE`.
///
/// Yahoo's quote API returns internal codes such as **NSI** (NSE India) and **YHD**
/// (BSE) rather than exchange names. The ticker suffix (`.NS` / `.BO`) wins when present.
pub fn india_exchange_label(symbol: &str, yahoo_exchange: Option<&str>) -> (r: &'static str)
    ensures
        r@ == exchange_label_of(
            symbol@,
            match yahoo_exchange {
                Some(e) => Some(e@),
                None => None,
            },
        ),
{
    let upper = upper_chars(trim_str(symbol).as_slice());
    if ends_with_str(upper.as_slice(), ".NS") {
        return "NSE";
    }
    if ends_with_str(upper.as_slice(), ".BO") {
        return "BSE";
    }
    match yahoo_exchange {
        Some(raw) => {
            let u = upper_chars(trim_str(raw).as_slice());
            if chars_eq_str(u.as_slice(), "NSI") || chars_eq_str(u.as_slice(), "NSE")
                || contains_str(u.as_slice(), "NATIONAL") {
                return "NSE";
            }
            if chars_eq_str(u.as_slice(), "YHD") || chars_eq_str(u.as_slice(), "BOM")
                || chars_eq_str(u.as_slice(), "BSE") || contains_str(u.as_slice(), "BOMBAY") {
                return "BSE";
            }
            "NSE"
        },
        None => "NSE",
    }
}

/// The header row that `csv` reads from `bytes` with its fields trimmed and rows of
/// any length allowed; `None` where `csv` reports an error for it.
pub uninterp spec fn csv_header_fields(bytes: Seq<u8>) -> Option<Seq<Seq<char>>>;

/// The rows after the header that `csv` reads from `bytes` with the same settings,
/// each `None` where `csv` reports an error for that row.
pub uninterp spec fn csv_data_records(bytes: Seq<u8>) -> Seq<Option<Seq<Seq<char>>>>;

/// The characters of each field of each row read.
pub open spec fn record_views(v: Seq<Option<Vec<String>>>) -> Seq<Option<Seq<Seq<char>>>> {
    v.map_values(
        |o: Option<Vec<String>>|
            match o {
                Some(fields) => Some(string_views(fields@)),
                None => None,
            },
    )
}

/// `csv::Reader::headers` on a reader built with `Trim::All` and `flexible(true)`
/// over `bytes`: the header fields, as `csv_header_fields` names them.
#[verifier::external_body]
fn read_csv_header(bytes: &[u8]) -> (r: Option<Vec<String>>)
    ensures
        r matches Some(v) ==> csv_header_fields(bytes@) == Some(string_views(v@)),
        r is None ==> csv_header_fields(bytes@) is None,
{
    let mut rdr = csv::ReaderBuilder::new().trim(csv::Trim::All).flexible(true).from_reader(bytes);
    rdr.headers().ok().map(|h| h.iter().map(|c| c.to_string()).collect())
}

/// `csv::Reader::records` on a reader built with `Trim::All` and `flexible(true)`
/// over `bytes`: every row after the header, as `csv_data_records` names them.
#[verifier::external_body]
fn read_csv_records(bytes: &[u8]) -> (r: Vec<Option<Vec<String>>>)
    ensures
        record_views(r@) == csv_data_records(bytes@),
{
    let mut rdr = csv::ReaderBuilder::new().trim(csv::Trim::All).flexible(true).from_reader(bytes);
    rdr.records().map(|rec| rec.ok().map(|row| row.iter().map(|c| c.to_string()).collect())).collect()
}

/// The header row trimmed and upper-cased, or no headers at all.
pub open spec fn upper_headers(h: Option<Seq<Seq<char>>>) -> Seq<Seq<char>> {
    match h {
        Some(cells) => cells.map_values(|c: Seq<char>| unicode_upper(trim(c))),
        None => Seq::empty(),
    }
}

/// `cols` are the column positions that `nse_csv_indices` finds in `hs`.
pub open spec fn indices_fit(hs: Seq<Seq<char>>, cols: NseCsvIndices) -> bool {
    &&& first_position(hs, |h: Seq<char>| is_symbol_header(h), cols.symbol_col)
    &&& first_position(hs, |h: Seq<char>| is_series_header(h), cols.series_col)
    &&& cols.simple_col == (cols.symbol_col is None && hs.len() <= 1)
}

/// Field `i` of a row, when the row has one.
pub open spec fn field(row: Seq<Seq<char>>, i: int) -> Option<Seq<char>> {
    if 0 <= i < row.len() {
        Some(row[i])
    } else {
        None
    }
}

/// The trimmed, non-empty symbol field of a row.
pub open spec fn symbol_field(cols: NseCsvIndices, row: Seq<Seq<char>>) -> Option<Seq<char>> {
    let f = if cols.simple_col {
        field(row, 0)
    } else {
        match cols.symbol_col {
            Some(i) => match field(row, i as int) {
                Some(c) => Some(c),
                None => field(row, 0),
            },
            None => field(row, 0),
        }
    };
    match f {
        Some(c) => if trim(c).len() > 0 {
            Some(trim(c))
        } else {
            None
        },
        None => None,
    }
}

/// A row whose series is given and is not `EQ`.
pub open spec fn other_series(cols: NseCsvIndices, row: Seq<Seq<char>>) -> bool {
    match cols.series_col {
        Some(si) => {
            let series = match field(row, si as int) {
                Some(c) => trim(c),
                None => Seq::empty(),
            };
            series.len() > 0 && !eq_ignore_ascii_case(series, "EQ"@)
        },
        None => false,
    }
}

/// The NSE base symbol a data row lists: none for a repeated header, a comment, a
/// non-`EQ` series or a symbol with nothing left of it.
pub open spec fn row_base(cols: NseCsvIndices, row: Seq<Seq<char>>) -> Option<Seq<char>> {
    match symbol_field(cols, row) {
        None => None,
        Some(s) => if eq_ignore_ascii_case(s, "SYMBOL"@) || is_prefix("#"@, s) || other_series(
            cols,
            row,
        ) {
            None
        } else {
            base_symbol_of(s)
        },
    }
}

/// Row `r`, read without error, lists base symbol `b`.
pub open spec fn lists_base(cols: NseCsvIndices, r: Option<Seq<Seq<char>>>, b: Seq<char>) -> bool {
    match r {
        Some(row) => row_base(cols, row) == Some(b),
        None => false,
    }
}

/// Every base symbol listed by a row read without error.
pub open spec fn listed_bases(cols: NseCsvIndices, recs: Seq<Option<Seq<Seq<char>>>>) -> Set<
    Seq<char>,
> {
    Set::new(
        |b: Seq<char>|
            exists|k: int|
                0 <= k < recs.len() && lists_base(cols, #[trigger] recs[k], b),
    )
}

/// Only one set of column positions fits a header row.
pub proof fn lemma_indices_unique(hs: Seq<Seq<char>>, a: NseCsvIndices, b: NseCsvIndices)
    requires
        indices_fit(hs, a),
        indices_fit(hs, b),
    ensures
        a == b,
{
    lemma_first_position_unique(hs, |h: Seq<char>| is_symbol_header(h), a.symbol_col, b.symbol_col);
    lemma_first_position_unique(hs, |h: Seq<char>| is_series_header(h), a.series_col, b.series_col);
}

proof fn lemma_first_position_unique(
    hs: Seq<Seq<char>>,
    p: spec_fn(Seq<char>) -> bool,
    x: Option<usize>,
    y: Option<usize>,
)
    requires
        first_position(hs, p, x),
        first_position(hs, p, y),
    ensures
        x == y,
{
    match (x, y) {
        (Some(i), Some(j)) => {
            if i < j {
                assert(!p(hs[i as int]));
            } else if j < i {
                assert(!p(hs[j as int]));
            }
        },
        (Some(i), None) => {
            assert(!p(hs[i as int]));
        },
        (None, Some(j)) => {
            assert(!p(hs[j as int]));
        },
        (None, None) => {},
    }
}

fn field_chars(row: &Vec<String>, i: usize) -> (r: Option<Vec<char>>)
    ensures
        r matches Some(v) ==> field(string_views(row@), i as int) == Some(v@),
        r is None ==> field(string_views(row@), i as int) is None,
{
    if i < row.len() {
        Some(chars_of(row[i].as_str()))
    } else {
        None
    }
}

fn symbol_field_exec(cols: &NseCsvIndices, row: &Vec<String>) -> (r: Option<Vec<char>>)
    ensures
        r matches Some(v) ==> symbol_field(*cols, string_views(row@)) == Some(v@),
        r is None ==> symbol_field(*cols, string_views(row@)) is None,
{
    let f = if cols.simple_col {
        field_chars(row, 0)
    } else {
        match cols.symbol_col {
            Some(i) => match field_chars(row, i) {
                Some(c) => Some(c),
                None => field_chars(row, 0),
            },
            None => field_chars(row, 0),
        }
    };
    match f {
        Some(c) => {
            let t = trim_chars(c.as_slice());
            if t.len() > 0 {
                Some(t)
            } else {
                None
            }
        },
        None => None,
    }
}

fn other_series_exec(cols: &NseCsvIndices, row: &Vec<String>) -> (r: bool)
    ensures
        r == other_series(*cols, string_views(row@)),
{
    match cols.series_col {
        Some(si) => {
            let series = match field_chars(row, si) {
                Some(c) => trim_chars(c.as_slice()),
                None => Vec::new(),
            };
            let eq = chars_of("EQ");
            series.len() > 0 && !eq_ignore_ascii_case_exec(series.as_slice(), eq.as_slice())
        },
        None => false,
    }
}

fn row_base_exec(cols: &NseCsvIndices, row: &Vec<String>) -> (r: Option<Vec<char>>)
    ensures
        r matches Some(v) ==> row_base(*cols, string_views(row@)) == Some(v@),
        r is None ==> row_base(*cols, string_views(row@)) is None,
{
    match symbol_field_exec(cols, row) {
        None => None,
        Some(s) => {
            let sym = chars_of("SYMBOL");
            if eq_ignore_ascii_case_exec(s.as_slice(), sym.as_slice()) || starts_with_str(
                s.as_slice(),
                "#",
            ) || other_series_exec(cols, row) {
                None
            } else {
                base_symbol_chars(s.as_slice())
            }
        },
    }
}

/// Parse NSE `EQUITY_L.csv` bytes and return the trading symbols (no suffix).
///
/// The symbol column is the first headed `SYMBOL`, `SYMBOLS`, `TICKER` or
/// `SYMBOL_NS` (else the first column); rows of a series other than `EQ`, repeated
/// headers, `#` comments and rows `csv` cannot read are skipped.
pub fn parse_nse_bases_from_csv(bytes: &[u8]) -> (r: StringHashSet)
    ensures
        exists|cols: NseCsvIndices|
            indices_fit(upper_headers(csv_header_fields(bytes@)), cols) && r@ == listed_bases(
                cols,
                csv_data_records(bytes@),
            ),
{
    let raw_headers = read_csv_header(bytes);
    let ghost hv = upper_headers(csv_header_fields(bytes@));
    let mut headers: Vec<String> = Vec::new();
    match &raw_headers {
        Some(h) => {
            let mut i: usize = 0;
            while i < h.len()
                invariant
                    i <= h@.len(),
                    csv_header_fields(bytes@) == Some(string_views(h@)),
                    hv == upper_headers(csv_header_fields(bytes@)),
                    headers@.len() == i,
                    forall|j: int| 0 <= j < i ==> #[trigger] headers@[j]@ == hv[j],
                decreases h.len() - i,
            {
                let u = upper_chars(trim_str(h[i].as_str()).as_slice());
                headers.push(string_from_chars(u.as_slice()));
                i += 1;
            }
        },
        None => {},
    }
    assert(header_views(headers@) =~= hv);
    let cols = nse_csv_indices(headers.as_slice());
    let recs = read_csv_records(bytes);
    let ghost rv = csv_data_records(bytes@);
    let mut out = StringHashSet::new();
    let mut k: usize = 0;
    while k < recs.len()
        invariant
            k <= recs@.len(),
            rv == record_views(recs@),
            out@ == listed_bases(cols, rv.take(k as int)),
        decreases recs.len() - k,
    {
        let ghost before = rv.take(k as int);
        let ghost after = rv.take(k + 1);
        match &recs[k] {
            Some(row) => {
                assert(rv[k as int] == Some(string_views(row@)));
                match row_base_exec(&cols, row) {
                    Some(b) => {
                        let ghost bv = b@;
                        out.insert(string_from_chars(b.as_slice()));
                        assert forall|x: Seq<char>| #[trigger]
                            listed_bases(cols, after).contains(x) == out@.contains(x) by {
                            if listed_bases(cols, after).contains(x) && x != bv {
                                let w = choose|w: int|
                                    0 <= w < after.len() && lists_base(cols, #[trigger] after[w], x);
                                assert(before[w] == after[w]);
                            }
                            if out@.contains(x) && x != bv {
                                let w = choose|w: int|
                                    0 <= w < before.len() && lists_base(cols, #[trigger] before[w], x);
                                assert(after[w] == before[w]);
                            }
                            if x == bv {
                                assert(after[k as int] == rv[k as int]);
                            }
                        }
                        assert(out@ =~= listed_bases(cols, after));
                    },
                    None => {
                        assert forall|x: Seq<char>| #[trigger]
                            listed_bases(cols, after).contains(x) == out@.contains(x) by {
                            if listed_bases(cols, after).contains(x) {
                                let w = choose|w: int|
                                    0 <= w < after.len() && lists_base(cols, #[trigger] after[w], x);
                                if w < k {
                                    assert(before[w] == after[w]);
                                } else {
                                    assert(after[w] == rv[k as int]);
                                }
                            }
                            if out@.contains(x) {
                                let w = choose|w: int|
                                    0 <= w < before.len() && lists_base(cols, #[trigger] before[w], x);
                                assert(after[w] == before[w]);
                            }
                        }
                        assert(out@ =~= listed_bases(cols, after));
                    },
                }
            },
            None => {
                assert forall|x: Seq<char>| #[trigger]
                    listed_bases(cols, after).contains(x) == out@.contains(x) by {
                    if listed_bases(cols, after).contains(x) {
                        let w = choose|w: int|
                            0 <= w < after.len() && lists_base(cols, #[trigger] after[w], x);
                        if w < k {
                            assert(before[w] == after[w]);
                        } else {
                            assert(after[w] == rv[k as int]);
                        }
                    }
                    if out@.contains(x) {
                        let w = choose|w: int|
                            0 <= w < before.len() && lists_base(cols, #[trigger] before[w], x);
                        assert(after[w] == before[w]);
                    }
                }
                assert(out@ =~= listed_bases(cols, after));
            },
        }
        k += 1;
    }
    assert(rv.take(recs@.len() as int) =~= rv);
    out
}

/// The symbol context built from the bytes of `data/EQUITY_L.csv` when that file is
/// present, or the empty context when it is not.
pub fn default_india_symbol_context(equity_csv: Option<&[u8]>) -> (r: IndiaSymbolContext)
    ensures
        equity_csv is None ==> r@ == Set::<Seq<char>>::empty(),
        equity_csv matches Some(bytes) ==> exists|cols: NseCsvIndices|
            indices_fit(upper_headers(csv_header_fields(bytes@)), cols) && r@ == listed_bases(
                cols,
                csv_data_records(bytes@),
            ),
{
    match equity_csv {
        Some(bytes) => IndiaSymbolContext { nse_bases: parse_nse_bases_from_csv(bytes) },
        None => IndiaSymbolContext::default(),
    }
}

} // verus!
