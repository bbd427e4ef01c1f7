//! Request parameters, field names and answers of the provider's statement time series.

use vstd::prelude::*;

use crate::provider_search::{
    json_is_valid, json_parses, percent_encoded, url_encode, json_array_len, json_array_len_at, json_float_int, json_float_int_at, json_int, json_int_at,
    json_keys, json_keys_at, json_number_text, json_number_text_at, json_text, json_text_at,
};
use crate::statements::{
    day_count_between, format_iso_date, iso_date, midnight_utc_secs, parse_date_with, parsed_date,
    utc_date_at, utc_date_of_secs,
};
use crate::text::{
    ascii_lower, ascii_lower_chars, ascii_lower_seq, chars_eq_str, chars_of, decimal,
    decimal_string, eq_ignore_ascii_case, eq_ignore_ascii_case_exec, is_prefix, push_chars,
    push_str, signed_decimal, signed_decimal_string, slice_chars, starts_with_str,
    string_from_chars, string_of, string_push, string_views, trim, trim_str,
};
use vstd::string::StringSliceAdditionalSpecFns;

verus! {

/// `period` followed by `,` + `period` + key for each key.
pub open spec fn type_param(period: Seq<char>, keys: Seq<Seq<char>>) -> Seq<char>
    decreases keys.len(),
{
    if keys.len() == 0 {
        period
    } else {
        type_param(period, keys.drop_last()) + ","@ + period + keys.last()
    }
}

/// The `type=` parameter listing every requested series for one period prefix.
pub fn build_type_param(period: &str, keys: &[&str]) -> (r: String)
    ensures
        r@ == type_param(period@, keys@.map_values(|k: &str| k@)),
{
    let ghost kv = keys@.map_values(|k: &str| k@);
    let mut out = string_of(period);
    let mut i: usize = 0;
    while i < keys.len()
        invariant
            i <= keys@.len(),
            kv == keys@.map_values(|k: &str| k@),
            out@ == type_param(period@, kv.take(i as int)),
        decreases keys.len() - i,
    {
        push_str(&mut out, ",");
        push_str(&mut out, period);
        push_str(&mut out, keys[i]);
        i += 1;
        assert(kv.take(i as int).drop_last() =~= kv.take(i - 1));
    }
    assert(kv.take(keys@.len() as int) =~= kv);
    out
}

/// Integer division rounding toward zero.
pub open spec fn div_toward_zero(a: int, b: int) -> int {
    if a >= 0 {
        a / b
    } else {
        -((-a) / b)
    }
}

/// Timestamps beyond ten billion are milliseconds and are scaled to seconds.
pub open spec fn epoch_secs(ts: int) -> int {
    if ts > 10_000_000_000 || ts < -10_000_000_000 {
        div_toward_zero(ts, 1000)
    } else {
        ts
    }
}

/// Seconds since the epoch, given seconds or (when beyond ten billion) milliseconds.
pub fn normalize_epoch_secs(ts: i64) -> (r: i64)
    requires
        ts != i64::MIN,
    ensures
        r == epoch_secs(ts as int),
{
    let a = if ts < 0 {
        -ts
    } else {
        ts
    };
    if a > 10_000_000_000 {
        if ts >= 0 {
            ts / 1000
        } else {
            -((-ts) / 1000)
        }
    } else {
        ts
    }
}

/// `key` with `period` (or else `trailing`) removed from its front, when present.
pub open spec fn short_field(key: Seq<char>, period: Seq<char>) -> Seq<char> {
    if is_prefix(period, key) {
        key.skip(period.len() as int)
    } else if is_prefix("trailing"@, key) {
        key.skip("trailing"@.len() as int)
    } else {
        key
    }
}

/// No character is an ASCII lower-case letter.
pub open spec fn no_ascii_lowercase(s: Seq<char>) -> bool {
    forall|i: int| 0 <= i < s.len() ==> !('a' <= #[trigger] s[i] && s[i] <= 'z')
}

/// The camelCase field name of a series key: prefix removed, first letter lowered;
/// an all-caps name is lowered entirely.
pub open spec fn field_name(key: Seq<char>, period: Seq<char>) -> Seq<char> {
    let short = short_field(key, period);
    if short.len() == 0 {
        key
    } else {
        let rest = short.drop_first();
        if rest.len() == 0 || no_ascii_lowercase(rest) {
            ascii_lower_seq(short)
        } else {
            seq![ascii_lower(short[0])] + rest
        }
    }
}

fn no_ascii_lowercase_exec(s: &[char]) -> (r: bool)
    ensures
        r == no_ascii_lowercase(s@),
{
    let mut i: usize = 0;
    while i < s.len()
        invariant
            i <= s.len(),
            forall|j: int| 0 <= j < i ==> !('a' <= #[trigger] s@[j] && s@[j] <= 'z'),
        decreases s.len() - i,
    {
        if 'a' <= s[i] && s[i] <= 'z' {
            return false;
        }
        i += 1;
    }
    true
}

/// The camelCase field name of a series key (`annualTotalRevenue` → `totalRevenue`).
pub fn decamel_field(key: &str, period: &str) -> (r: String)
    ensures
        r@ == field_name(key@, period@),
{
    let k = chars_of(key);
    let pv = chars_of(period);
    let short = if starts_with_str(k.as_slice(), period) {
        slice_chars(k.as_slice(), pv.len(), k.len())
    } else if starts_with_str(k.as_slice(), "trailing") {
        let n = chars_of("trailing").len();
        slice_chars(k.as_slice(), n, k.len())
    } else {
        slice_chars(k.as_slice(), 0, k.len())
    };
    proof {
        assert(k@.skip(0) =~= k@);
        assert(k@.subrange(0, k@.len() as int) =~= k@);
    }
    if short.len() == 0 {
        return string_of(key);
    }
    let rest = slice_chars(short.as_slice(), 1, short.len());
    assert(rest@ =~= short@.drop_first());
    if rest.len() == 0 || no_ascii_lowercase_exec(rest.as_slice()) {
        let low = ascii_lower_chars(short.as_slice());
        string_from_chars(low.as_slice())
    } else {
        let mut out = String::new();
        crate::text::string_push(&mut out, crate::text::ascii_lower_char(short[0]));
        push_chars(&mut out, rest.as_slice());
        assert(out@ =~= seq![ascii_lower(short@[0])] + rest@);
        out
    }
}

// ---------------------------------------------------------------------------
// Answers
// ---------------------------------------------------------------------------

/// Midnight UTC, in seconds since the epoch, of a `YYYY-MM-DD` date (surrounding
/// whitespace ignored).
pub open spec fn as_of_secs(text: Seq<char>) -> Option<i64> {
    match parsed_date(trim(text), "%Y-%m-%d"@) {
        Some(d) => Some((86400 * day_count_between(d, (1970, 1, 1))) as i64),
        None => None,
    }
}

/// Midnight UTC, in seconds since the epoch, of a `YYYY-MM-DD` date.
pub fn parse_as_of_date_ts(s: &str) -> (r: Option<i64>)
    ensures
        r == as_of_secs(s@),
{
    let t = string_from_chars(trim_str(s).as_slice());
    match parse_date_with(t.as_str(), "%Y-%m-%d") {
        Some(d) => Some(midnight_utc_secs(d)),
        None => None,
    }
}

/// The period end of an array timestamp in seconds (milliseconds are scaled down);
/// `i64::MIN`, whose magnitude does not fit an `i64`, is kept as it is.
pub open spec fn array_secs(t: i64) -> i64 {
    if t == i64::MIN {
        t
    } else {
        epoch_secs(t as int) as i64
    }
}

fn array_secs_exec(t: i64) -> (r: i64)
    ensures
        r == array_secs(t),
{
    if t == i64::MIN {
        t
    } else {
        normalize_epoch_secs(t)
    }
}

/// The `YYYY-MM-DD` UTC date of a period end (seconds, or milliseconds scaled down), or
/// the number itself when it is out of the calendar's range.
pub open spec fn period_end_text(ts: i64) -> Seq<char> {
    match utc_date_at(array_secs(ts)) {
        Some(d) => iso_date(d),
        None => signed_decimal(ts as int),
    }
}

/// The `YYYY-MM-DD` UTC date of a period end.
pub fn fmt_date(ts: i64) -> (r: String)
    ensures
        r@ == period_end_text(ts),
{
    match utc_date_of_secs(array_secs_exec(ts)) {
        Some(d) => format_iso_date(d),
        None => signed_decimal_string(ts),
    }
}

/// A character as it stands in a JSON pointer token (`~` → `~0`, `/` → `~1`).
pub open spec fn escape_char(c: char) -> Seq<char> {
    if c == '~' {
        "~0"@
    } else if c == '/' {
        "~1"@
    } else {
        seq![c]
    }
}

/// An object key as a JSON pointer token.
pub open spec fn pointer_token(k: Seq<char>) -> Seq<char>
    decreases k.len(),
{
    if k.len() == 0 {
        Seq::empty()
    } else {
        pointer_token(k.drop_last()) + escape_char(k.last())
    }
}

fn pointer_token_exec(k: &str) -> (r: String)
    ensures
        r@ == pointer_token(k@),
{
    let kv = chars_of(k);
    let mut out = String::new();
    let mut i: usize = 0;
    while i < kv.len()
        invariant
            i <= kv.len(),
            out@ == pointer_token(kv@.take(i as int)),
        decreases kv.len() - i,
    {
        let c = kv[i];
        if c == '~' {
            push_str(&mut out, "~0");
        } else if c == '/' {
            push_str(&mut out, "~1");
        } else {
            string_push(&mut out, c);
        }
        assert(kv@.take(i + 1).drop_last() =~= kv@.take(i as int));
        i = i + 1;
    }
    assert(kv@.take(kv@.len() as int) =~= kv@);
    out
}

/// Element `i` of the array at `array`.
pub open spec fn index_pointer(array: Seq<char>, i: nat) -> Seq<char> {
    array + "/"@ + decimal(i)
}

fn index_pointer_exec(array: &str, i: usize) -> (r: String)
    ensures
        r@ == index_pointer(array@, i as nat),
{
    let mut p = string_of(array);
    push_str(&mut p, "/");
    let d = decimal_string(i as u64);
    push_str(&mut p, d.as_str());
    p
}

/// Result `r` of the answer.
pub open spec fn result_pointer(r: nat) -> Seq<char> {
    index_pointer("/timeseries/result"@, r)
}

/// The series under `key` of result `r`.
pub open spec fn series_pointer(r: nat, key: Seq<char>) -> Seq<char> {
    result_pointer(r) + "/"@ + pointer_token(key)
}

fn series_pointer_exec(r: usize, key: &str) -> (p: String)
    ensures
        p@ == series_pointer(r as nat, key@),
{
    let mut p = index_pointer_exec("/timeseries/result", r);
    push_str(&mut p, "/");
    let t = pointer_token_exec(key);
    push_str(&mut p, t.as_str());
    p
}

/// One fiscal period of an answer: its end (seconds since the epoch), its metric fields
/// each with the number as the answer wrote it, and its period type (`3M`, `12M`, ...).
#[derive(Debug)]
pub struct PeriodSnap {
    pub end_secs: i64,
    pub vals: Vec<(String, String)>,
    pub period_type: String,
}

/// A period as (end, (field, number text) pairs, period type).
pub open spec fn snap_view(s: PeriodSnap) -> (i64, Seq<(Seq<char>, Seq<char>)>, Seq<char>) {
    (s.end_secs, s.vals@.map_values(|p: (String, String)| (p.0@, p.1@)), s.period_type@)
}

/// The periods as (end, pairs, period type) triples.
pub open spec fn snaps_view(v: Seq<PeriodSnap>) -> Seq<(i64, Seq<(Seq<char>, Seq<char>)>, Seq<char>)> {
    v.map_values(|s: PeriodSnap| snap_view(s))
}

/// The first of `keys` at or after `from` that is neither `meta` nor `timestamp`.
pub open spec fn first_data_key(keys: Seq<Seq<char>>, from: int) -> Option<Seq<char>>
    decreases keys.len() - from,
{
    if from < 0 || from >= keys.len() {
        None
    } else if keys[from] != "meta"@ && keys[from] != "timestamp"@ {
        Some(keys[from])
    } else {
        first_data_key(keys, from + 1)
    }
}

/// Where item `i` of the series under `key` of result `r` ends: its `asOfDate`, else
/// the result's timestamp `i` (an integer, else a number cut to an integer).
pub open spec fn point_secs(text: Seq<char>, r: nat, key: Seq<char>, i: nat) -> Option<i64> {
    let item = index_pointer(series_pointer(r, key), i);
    let ts = index_pointer(result_pointer(r) + "/timestamp"@, i);
    let as_of = match json_text_at(text, item + "/asOfDate"@) {
        Some(d) => as_of_secs(d),
        None => None,
    };
    if as_of is Some {
        as_of
    } else {
        match json_int_at(text, ts) {
            Some(t) => Some(array_secs(t)),
            None => match json_float_int_at(text, ts) {
                Some(t) => Some(array_secs(t)),
                None => None,
            },
        }
    }
}

/// The `periodType` text of an item, or empty.
pub open spec fn point_period_type(text: Seq<char>, r: nat, key: Seq<char>, i: nat) -> Seq<char> {
    match json_text_at(text, index_pointer(series_pointer(r, key), i) + "/periodType"@) {
        Some(t) => t,
        None => Seq::empty(),
    }
}

/// The number text of an item's `reportedValue.raw`.
pub open spec fn point_raw(text: Seq<char>, r: nat, key: Seq<char>, i: nat) -> Option<Seq<char>> {
    json_number_text_at(text, index_pointer(series_pointer(r, key), i) + "/reportedValue/raw"@)
}

/// A twelve-month or trailing period type (ASCII case ignored).
pub open spec fn annual_or_ttm(t: Seq<char>) -> bool {
    eq_ignore_ascii_case(t, "12M"@) || eq_ignore_ascii_case(t, "TTM"@)
}

/// The first pair at or after `from` whose field is `f`.
pub open spec fn field_index(vals: Seq<(Seq<char>, Seq<char>)>, f: Seq<char>, from: int) -> Option<
    int,
>
    decreases vals.len() - from,
{
    if from < 0 || from >= vals.len() {
        None
    } else if vals[from].0 == f {
        Some(from)
    } else {
        field_index(vals, f, from + 1)
    }
}

/// `vals` with field `f` set to `raw`: replaced where it stands, else appended.
pub open spec fn set_field(vals: Seq<(Seq<char>, Seq<char>)>, f: Seq<char>, raw: Seq<char>) -> Seq<
    (Seq<char>, Seq<char>),
> {
    match field_index(vals, f, 0) {
        Some(j) => vals.update(j, (f, raw)),
        None => vals.push((f, raw)),
    }
}

/// The first period at or after `from` that ends at `ts`.
pub open spec fn period_index(
    ps: Seq<(i64, Seq<(Seq<char>, Seq<char>)>, Seq<char>)>,
    ts: i64,
    from: int,
) -> Option<int>
    decreases ps.len() - from,
{
    if from < 0 || from >= ps.len() {
        None
    } else if ps[from].0 == ts {
        Some(from)
    } else {
        period_index(ps, ts, from + 1)
    }
}

/// Quarterly answers take each item's non-empty period type; other answers mark a new
/// period `12M`.
pub open spec fn next_period_type(old: Seq<char>, ptype: Seq<char>, quarterly: bool) -> Seq<char> {
    if quarterly {
        if ptype.len() > 0 {
            ptype
        } else {
            old
        }
    } else if old.len() == 0 {
        "12M"@
    } else {
        old
    }
}

/// The periods after one kept point: its period (found by end, else added last) gets
/// the field and, per `next_period_type`, the period type.
pub open spec fn add_point(
    ps: Seq<(i64, Seq<(Seq<char>, Seq<char>)>, Seq<char>)>,
    ts: i64,
    f: Seq<char>,
    raw: Seq<char>,
    ptype: Seq<char>,
    quarterly: bool,
) -> Seq<(i64, Seq<(Seq<char>, Seq<char>)>, Seq<char>)> {
    match period_index(ps, ts, 0) {
        Some(k) => ps.update(
            k,
            (ts, set_field(ps[k].1, f, raw), next_period_type(ps[k].2, ptype, quarterly)),
        ),
        None => ps.push(
            (ts, set_field(Seq::empty(), f, raw), next_period_type(Seq::empty(), ptype, quarterly)),
        ),
    }
}

/// Item `i` of the series under `key` of result `r` applied to the periods: kept when it
/// has an end and a number, and (for quarterly answers) is not a twelve-month or
/// trailing point.
pub open spec fn item_step(
    text: Seq<char>,
    period: Seq<char>,
    r: nat,
    key: Seq<char>,
    i: nat,
    ps: Seq<(i64, Seq<(Seq<char>, Seq<char>)>, Seq<char>)>,
) -> Seq<(i64, Seq<(Seq<char>, Seq<char>)>, Seq<char>)> {
    let quarterly = period == "quarterly"@;
    match (point_secs(text, r, key, i), point_raw(text, r, key, i)) {
        (Some(ts), Some(raw)) => if quarterly && annual_or_ttm(point_period_type(text, r, key, i)) {
            ps
        } else {
            add_point(ps, ts, field_name(key, period), raw, point_period_type(text, r, key, i), quarterly)
        },
        _ => ps,
    }
}

/// Items `0..n` of one series applied in order.
pub open spec fn items_fold(
    text: Seq<char>,
    period: Seq<char>,
    r: nat,
    key: Seq<char>,
    n: nat,
    ps: Seq<(i64, Seq<(Seq<char>, Seq<char>)>, Seq<char>)>,
) -> Seq<(i64, Seq<(Seq<char>, Seq<char>)>, Seq<char>)>
    decreases n,
{
    if n == 0 {
        ps
    } else {
        item_step(text, period, r, key, (n - 1) as nat, items_fold(text, period, r, key, (n - 1) as nat, ps))
    }
}

/// Result `r` applied to the periods: one item per timestamp of its first data series,
/// when it has timestamps, a data key and a series array.
pub open spec fn result_step(
    text: Seq<char>,
    period: Seq<char>,
    r: nat,
    ps: Seq<(i64, Seq<(Seq<char>, Seq<char>)>, Seq<char>)>,
) -> Seq<(i64, Seq<(Seq<char>, Seq<char>)>, Seq<char>)> {
    match (json_array_len_at(text, result_pointer(r) + "/timestamp"@), json_keys_at(text, result_pointer(r))) {
        (Some(n), Some(keys)) => match first_data_key(keys, 0) {
            Some(key) => if json_array_len_at(text, series_pointer(r, key)) is Some {
                items_fold(text, period, r, key, n, ps)
            } else {
                ps
            },
            None => ps,
        },
        _ => ps,
    }
}

/// Results `0..n` applied in order.
pub open spec fn results_fold(text: Seq<char>, period: Seq<char>, n: nat) -> Seq<
    (i64, Seq<(Seq<char>, Seq<char>)>, Seq<char>),
>
    decreases n,
{
    if n == 0 {
        Seq::empty()
    } else {
        result_step(text, period, (n - 1) as nat, results_fold(text, period, (n - 1) as nat))
    }
}

/// The periods of a time-series answer, in the order they first appear.
pub open spec fn timeseries_periods(text: Seq<char>, period: Seq<char>) -> Seq<
    (i64, Seq<(Seq<char>, Seq<char>)>, Seq<char>),
> {
    match json_array_len_at(text, "/timeseries/result"@) {
        Some(n) => results_fold(text, period, n),
        None => Seq::empty(),
    }
}

/// The (field, number text) pairs of a period.
pub open spec fn vals_view(v: Seq<(String, String)>) -> Seq<(Seq<char>, Seq<char>)> {
    v.map_values(|p: (String, String)| (p.0@, p.1@))
}

fn set_field_exec(vals: &mut Vec<(String, String)>, f: &String, raw: String)
    ensures
        vals_view(final(vals)@) == set_field(vals_view(old(vals)@), f@, raw@),
{
    let ghost view = vals_view(vals@);
    let mut j: usize = 0;
    while j < vals.len()
        invariant
            j <= vals.len(),
            view == vals_view(vals@),
            view == vals_view(old(vals)@),
            field_index(view, f@, 0) == field_index(view, f@, j as int),
        decreases vals.len() - j,
    {
        let same = chars_eq_str(chars_of(vals[j].0.as_str()).as_slice(), f.as_str());
        assert(view[j as int].0 == vals@[j as int].0@);
        if same {
            let ghost before = vals@;
            let _old = vals.remove(j);
            vals.insert(j, (f.clone(), raw));
            assert(vals@ =~= before.update(j as int, vals@[j as int]));
            assert(vals_view(vals@) =~= view.update(j as int, (f@, raw@)));
            return;
        }
        j = j + 1;
    }
    vals.push((f.clone(), raw));
    assert(vals_view(vals@) =~= view.push((f@, raw@)));
}

fn next_period_type_exec(old: &String, ptype: &String, quarterly: bool) -> (r: String)
    ensures
        r@ == next_period_type(old@, ptype@, quarterly),
{
    if quarterly {
        if chars_of(ptype.as_str()).len() > 0 {
            ptype.clone()
        } else {
            old.clone()
        }
    } else if chars_of(old.as_str()).len() == 0 {
        string_of("12M")
    } else {
        old.clone()
    }
}

fn add_point_exec(
    ps: &mut Vec<PeriodSnap>,
    ts: i64,
    f: &String,
    raw: String,
    ptype: &String,
    quarterly: bool,
)
    ensures
        snaps_view(final(ps)@) == add_point(snaps_view(old(ps)@), ts, f@, raw@, ptype@, quarterly),
{
    let ghost view = snaps_view(ps@);
    let mut k: usize = 0;
    while k < ps.len()
        invariant
            k <= ps.len(),
            view == snaps_view(ps@),
            view == snaps_view(old(ps)@),
            period_index(view, ts, 0) == period_index(view, ts, k as int),
        decreases ps.len() - k,
    {
        assert(view[k as int].0 == ps@[k as int].end_secs);
        if ps[k].end_secs == ts {
            let ghost before = ps@;
            let mut snap = ps.remove(k);
            assert(snap_view(snap) == view[k as int]);
            set_field_exec(&mut snap.vals, f, raw);
            snap.period_type = next_period_type_exec(&snap.period_type, ptype, quarterly);
            ps.insert(k, snap);
            assert(ps@ =~= before.update(k as int, ps@[k as int]));
            assert(snaps_view(ps@) =~= view.update(
                k as int,
                (ts, set_field(view[k as int].1, f@, raw@), next_period_type(view[k as int].2, ptype@, quarterly)),
            ));
            return;
        }
        k = k + 1;
    }
    let mut vals: Vec<(String, String)> = Vec::new();
    assert(vals_view(vals@) =~= Seq::<(Seq<char>, Seq<char>)>::empty());
    set_field_exec(&mut vals, f, raw);
    let empty = String::new();
    let period_type = next_period_type_exec(&empty, ptype, quarterly);
    ps.push(PeriodSnap { end_secs: ts, vals, period_type });
    assert(snaps_view(ps@) =~= view.push(
        (ts, set_field(Seq::empty(), f@, raw@), next_period_type(Seq::empty(), ptype@, quarterly)),
    ));
}

fn point_secs_exec(json: &str, r: usize, key: &str, i: usize) -> (out: Option<i64>)
    ensures
        out == point_secs(json@, r as nat, key@, i as nat),
{
    let series = series_pointer_exec(r, key);
    let mut as_of_pointer = index_pointer_exec(series.as_str(), i);
    push_str(&mut as_of_pointer, "/asOfDate");
    let as_of = match json_text(json, as_of_pointer.as_str()) {
        Some(d) => parse_as_of_date_ts(d.as_str()),
        None => None,
    };
    if as_of.is_some() {
        return as_of;
    }
    let mut stamps = index_pointer_exec("/timeseries/result", r);
    push_str(&mut stamps, "/timestamp");
    let stamp_pointer = index_pointer_exec(stamps.as_str(), i);
    match json_int(json, stamp_pointer.as_str()) {
        Some(t) => Some(array_secs_exec(t)),
        None => match json_float_int(json, stamp_pointer.as_str()) {
            Some(t) => Some(array_secs_exec(t)),
            None => None,
        },
    }
}

fn item_field_pointer(r: usize, key: &str, i: usize, field: &str) -> (p: String)
    ensures
        p@ == index_pointer(series_pointer(r as nat, key@), i as nat) + field@,
{
    let series = series_pointer_exec(r, key);
    let mut p = index_pointer_exec(series.as_str(), i);
    push_str(&mut p, field);
    p
}

fn apply_item(
    json: &str,
    period: &str,
    quarterly: bool,
    r: usize,
    key: &str,
    field: &String,
    i: usize,
    ps: &mut Vec<PeriodSnap>,
)
    requires
        quarterly == (period@ == "quarterly"@),
        field@ == field_name(key@, period@),
    ensures
        snaps_view(final(ps)@) == item_step(
            json@,
            period@,
            r as nat,
            key@,
            i as nat,
            snaps_view(old(ps)@),
        ),
{
    let ts = match point_secs_exec(json, r, key, i) {
        Some(t) => t,
        None => return ,
    };
    let value_pointer = item_field_pointer(r, key, i, "/reportedValue/raw");
    let raw = match json_number_text(json, value_pointer.as_str()) {
        Some(x) => x,
        None => return ,
    };
    let type_pointer = item_field_pointer(r, key, i, "/periodType");
    let ptype = match json_text(json, type_pointer.as_str()) {
        Some(t) => t,
        None => String::new(),
    };
    let pv = chars_of(ptype.as_str());
    if quarterly && (eq_ignore_ascii_case_exec(pv.as_slice(), chars_of("12M").as_slice())
        || eq_ignore_ascii_case_exec(pv.as_slice(), chars_of("TTM").as_slice())) {
        return ;
    }
    add_point_exec(ps, ts, field, raw, &ptype, quarterly);
}

fn first_data_key_exec(keys: &Vec<String>) -> (r: Option<String>)
    ensures
        r matches Some(k) ==> first_data_key(string_views(keys@), 0) == Some(k@),
        r is None ==> first_data_key(string_views(keys@), 0) is None,
{
    let ghost view = string_views(keys@);
    let mut j: usize = 0;
    while j < keys.len()
        invariant
            j <= keys.len(),
            view == string_views(keys@),
            first_data_key(view, 0) == first_data_key(view, j as int),
        decreases keys.len() - j,
    {
        let k = chars_of(keys[j].as_str());
        assert(view[j as int] == keys@[j as int]@);
        if !chars_eq_str(k.as_slice(), "meta") && !chars_eq_str(k.as_slice(), "timestamp") {
            return Some(keys[j].clone());
        }
        j = j + 1;
    }
    None
}

fn apply_result(json: &str, period: &str, quarterly: bool, r: usize, ps: &mut Vec<PeriodSnap>)
    requires
        quarterly == (period@ == "quarterly"@),
    ensures
        snaps_view(final(ps)@) == result_step(json@, period@, r as nat, snaps_view(old(ps)@)),
{
    let ghost start = snaps_view(ps@);
    let result = index_pointer_exec("/timeseries/result", r);
    let mut stamps = result.clone();
    push_str(&mut stamps, "/timestamp");
    let n = match json_array_len(json, stamps.as_str()) {
        Some(n) => n,
        None => return ,
    };
    let keys = match json_keys(json, result.as_str()) {
        Some(k) => k,
        None => return ,
    };
    let key = match first_data_key_exec(&keys) {
        Some(k) => k,
        None => return ,
    };
    let series = series_pointer_exec(r, key.as_str());
    if json_array_len(json, series.as_str()).is_none() {
        return ;
    }
    let field = decamel_field(key.as_str(), period);
    let mut i: usize = 0;
    while i < n
        invariant
            i <= n,
            quarterly == (period@ == "quarterly"@),
            field@ == field_name(key@, period@),
            snaps_view(ps@) == items_fold(json@, period@, r as nat, key@, i as nat, start),
        decreases n - i,
    {
        apply_item(json, period, quarterly, r, key.as_str(), &field, i, ps);
        i = i + 1;
    }
}

/// The periods of a statement time-series answer for `period` (`annual`,
/// `quarterly`, `trailing`), in the order they first appear. Each item of a result's
/// first data series is dated by its `asOfDate`, else by the result's timestamp at the
/// same index (milliseconds scaled to seconds), and carries its `reportedValue.raw`
/// number under the series' camelCase field name; undated items, items without a
/// number and, in quarterly answers, twelve-month or trailing items are skipped.
pub fn parse_timeseries_response(json: &str, period: &str) -> (r: Vec<PeriodSnap>)
    ensures
        snaps_view(r@) == timeseries_periods(json@, period@),
{
    let mut ps: Vec<PeriodSnap> = Vec::new();
    assert(snaps_view(ps@) =~= Seq::<(i64, Seq<(Seq<char>, Seq<char>)>, Seq<char>)>::empty());
    let n = match json_array_len(json, "/timeseries/result") {
        Some(n) => n,
        None => return ps,
    };
    let quarterly = chars_eq_str(chars_of(period).as_slice(), "quarterly");
    let mut r: usize = 0;
    while r < n
        invariant
            r <= n,
            quarterly == (period@ == "quarterly"@),
            json_array_len_at(json@, "/timeseries/result"@) == Some(n as nat),
            snaps_view(ps@) == results_fold(json@, period@, r as nat),
        decreases n - r,
    {
        apply_result(json, period, quarterly, r, &mut ps);
        r = r + 1;
    }
    ps
}

/// `vals` with each pair of `add` set in turn.
pub open spec fn extend_vals(vals: Seq<(Seq<char>, Seq<char>)>, add: Seq<(Seq<char>, Seq<char>)>) -> Seq<
    (Seq<char>, Seq<char>),
>
    decreases add.len(),
{
    if add.len() == 0 {
        vals
    } else {
        let v = extend_vals(vals, add.drop_last());
        set_field(v, add.last().0, add.last().1)
    }
}

/// A merged period keeps its period type unless it has none or the added one is `3M`
/// (an empty added type never replaces it).
pub open spec fn merged_period_type(old: Seq<char>, added: Seq<char>) -> Seq<char> {
    if (old.len() == 0 || eq_ignore_ascii_case(added, "3M"@)) && added.len() > 0 {
        added
    } else {
        old
    }
}

/// `ps` with one more period merged in: its fields join (and override) those of the
/// period with the same end, or it is added last.
pub open spec fn merge_snap(
    ps: Seq<(i64, Seq<(Seq<char>, Seq<char>)>, Seq<char>)>,
    s: (i64, Seq<(Seq<char>, Seq<char>)>, Seq<char>),
) -> Seq<(i64, Seq<(Seq<char>, Seq<char>)>, Seq<char>)> {
    match period_index(ps, s.0, 0) {
        Some(k) => ps.update(k, (s.0, extend_vals(ps[k].1, s.1), merged_period_type(ps[k].2, s.2))),
        None => ps.push((s.0, extend_vals(Seq::empty(), s.1), merged_period_type(Seq::empty(), s.2))),
    }
}

/// `target` with each period of `add` merged in turn.
pub open spec fn merge_periods(
    target: Seq<(i64, Seq<(Seq<char>, Seq<char>)>, Seq<char>)>,
    add: Seq<(i64, Seq<(Seq<char>, Seq<char>)>, Seq<char>)>,
) -> Seq<(i64, Seq<(Seq<char>, Seq<char>)>, Seq<char>)>
    decreases add.len(),
{
    if add.len() == 0 {
        target
    } else {
        merge_snap(merge_periods(target, add.drop_last()), add.last())
    }
}

fn extend_vals_exec(vals: &mut Vec<(String, String)>, add: Vec<(String, String)>)
    ensures
        vals_view(final(vals)@) == extend_vals(vals_view(old(vals)@), vals_view(add@)),
{
    let ghost start = vals_view(vals@);
    let ghost av = vals_view(add@);
    let mut i: usize = 0;
    while i < add.len()
        invariant
            i <= add.len(),
            av == vals_view(add@),
            vals_view(vals@) == extend_vals(start, av.take(i as int)),
        decreases add.len() - i,
    {
        let f = add[i].0.clone();
        let raw = add[i].1.clone();
        set_field_exec(vals, &f, raw);
        assert(av.take(i + 1).drop_last() =~= av.take(i as int));
        i = i + 1;
    }
    assert(av.take(add@.len() as int) =~= av);
}

fn merged_period_type_exec(old: &String, added: String) -> (r: String)
    ensures
        r@ == merged_period_type(old@, added@),
{
    let a = chars_of(added.as_str());
    if (chars_of(old.as_str()).len() == 0 || eq_ignore_ascii_case_exec(
        a.as_slice(),
        chars_of("3M").as_slice(),
    )) && a.len() > 0 {
        added
    } else {
        old.clone()
    }
}

fn merge_snap_exec(ps: &mut Vec<PeriodSnap>, s: PeriodSnap)
    ensures
        snaps_view(final(ps)@) == merge_snap(snaps_view(old(ps)@), snap_view(s)),
{
    let ghost view = snaps_view(ps@);
    let ghost sv = snap_view(s);
    let mut k: usize = 0;
    while k < ps.len()
        invariant
            k <= ps.len(),
            view == snaps_view(ps@),
            view == snaps_view(old(ps)@),
            sv == snap_view(s),
            period_index(view, s.end_secs, 0) == period_index(view, s.end_secs, k as int),
        decreases ps.len() - k,
    {
        assert(view[k as int].0 == ps@[k as int].end_secs);
        if ps[k].end_secs == s.end_secs {
            let ghost before = ps@;
            let mut snap = ps.remove(k);
            assert(snap_view(snap) == view[k as int]);
            extend_vals_exec(&mut snap.vals, s.vals);
            snap.period_type = merged_period_type_exec(&snap.period_type, s.period_type);
            ps.insert(k, snap);
            assert(ps@ =~= before.update(k as int, ps@[k as int]));
            assert(snaps_view(ps@) =~= merge_snap(view, sv));
            return;
        }
        k = k + 1;
    }
    let mut vals: Vec<(String, String)> = Vec::new();
    assert(vals_view(vals@) =~= Seq::<(Seq<char>, Seq<char>)>::empty());
    extend_vals_exec(&mut vals, s.vals);
    let empty = String::new();
    let period_type = merged_period_type_exec(&empty, s.period_type);
    ps.push(PeriodSnap { end_secs: s.end_secs, vals, period_type });
    assert(snaps_view(ps@) =~= merge_snap(view, sv));
}

/// Merges the periods of another answer into `target`: a period with the same end gains
/// (and overrides) its fields, and takes its period type when it has none or the new
/// one is `3M`; other periods are added.
pub fn merge_period_maps(target: &mut Vec<PeriodSnap>, add: Vec<PeriodSnap>)
    ensures
        snaps_view(final(target)@) == merge_periods(snaps_view(old(target)@), snaps_view(add@)),
{
    let ghost start = snaps_view(target@);
    let ghost av = snaps_view(add@);
    let mut add = add;
    let total = add.len();
    let mut i: usize = 0;
    assert(av.skip(0) =~= av);
    assert(av.take(0) =~= Seq::<(i64, Seq<(Seq<char>, Seq<char>)>, Seq<char>)>::empty());
    while add.len() > 0
        invariant
            i <= av.len(),
            av.len() == total,
            snaps_view(add@) == av.skip(i as int),
            snaps_view(target@) == merge_periods(start, av.take(i as int)),
        decreases add.len(),
    {
        let ghost before = add@;
        assert(snaps_view(before).len() == before.len());
        assert(i < av.len());
        let s = add.remove(0);
        assert(snap_view(s) == snaps_view(before)[0]);
        assert(snap_view(s) == av[i as int]);
        assert forall|j: int| 0 <= j < add@.len() implies snaps_view(add@)[j] == av.skip(i + 1)[j] by {
            assert(add@[j] == before[j + 1]);
            assert(snaps_view(before)[j + 1] == av.skip(i as int)[j + 1]);
        }
        assert(snaps_view(add@) =~= av.skip(i + 1));
        merge_snap_exec(target, s);
        assert(av.take(i + 1).drop_last() =~= av.take(i as int));
        i = i + 1;
    }
    assert(av.take(av.len() as int) =~= av);
}

// ---------------------------------------------------------------------------
// Requests
// ---------------------------------------------------------------------------

/// The income-statement series requested with each answer.
pub fn financials_keys() -> (r: Vec<&'static str>)
    ensures
        r@.map_values(|k: &str| k@) == seq![
            "TotalRevenue"@,
            "CostOfRevenue"@,
            "GrossProfit"@,
            "EBITDA"@,
            "EBIT"@,
            "OperatingIncome"@,
            "PretaxIncome"@,
            "InterestExpense"@,
            "TaxProvision"@,
            "NetIncome"@,
            "NetIncomeCommonStockholders"@,
            "DilutedEPS"@,
            "ReconciledDepreciation"@,
            "DepreciationAndAmortization"@,
        ],
{
    let r = vec![
        "TotalRevenue",
        "CostOfRevenue",
        "GrossProfit",
        "EBITDA",
        "EBIT",
        "OperatingIncome",
        "PretaxIncome",
        "InterestExpense",
        "TaxProvision",
        "NetIncome",
        "NetIncomeCommonStockholders",
        "DilutedEPS",
        "ReconciledDepreciation",
        "DepreciationAndAmortization",
    ];
    assert(r@.map_values(|k: &str| k@) =~= seq![
        "TotalRevenue"@,
        "CostOfRevenue"@,
        "GrossProfit"@,
        "EBITDA"@,
        "EBIT"@,
        "OperatingIncome"@,
        "PretaxIncome"@,
        "InterestExpense"@,
        "TaxProvision"@,
        "NetIncome"@,
        "NetIncomeCommonStockholders"@,
        "DilutedEPS"@,
        "ReconciledDepreciation"@,
        "DepreciationAndAmortization"@,
    ]);
    r
}

/// The balance-sheet series requested with each answer.
pub fn balance_keys() -> (r: Vec<&'static str>)
    ensures
        r@.map_values(|k: &str| k@) == seq![
            "TotalAssets"@,
            "CurrentAssets"@,
            "CurrentLiabilities"@,
            "TotalDebt"@,
            "StockholdersEquity"@,
            "CommonStockEquity"@,
            "TotalEquityGrossMinorityInterest"@,
            "TotalLiabilitiesNetMinorityInterest"@,
            "Inventory"@,
            "AccountsReceivable"@,
            "GrossAccountsReceivable"@,
            "CashAndCashEquivalents"@,
            "OtherShortTermInvestments"@,
            "CashCashEquivalentsAndShortTermInvestments"@,
            "RetainedEarnings"@,
            "Goodwill"@,
            "GoodwillAndOtherIntangibleAssets"@,
            "OtherIntangibleAssets"@,
            "NetLoan"@,
            "GrossLoan"@,
            "TotalDeposits"@,
        ],
{
    let r = vec![
        "TotalAssets",
        "CurrentAssets",
        "CurrentLiabilities",
        "TotalDebt",
        "StockholdersEquity",
        "CommonStockEquity",
        "TotalEquityGrossMinorityInterest",
        "TotalLiabilitiesNetMinorityInterest",
        "Inventory",
        "AccountsReceivable",
        "GrossAccountsReceivable",
        "CashAndCashEquivalents",
        "OtherShortTermInvestments",
        "CashCashEquivalentsAndShortTermInvestments",
        "RetainedEarnings",
        "Goodwill",
        "GoodwillAndOtherIntangibleAssets",
        "OtherIntangibleAssets",
        "NetLoan",
        "GrossLoan",
        "TotalDeposits",
    ];
    assert(r@.map_values(|k: &str| k@) =~= seq![
        "TotalAssets"@,
        "CurrentAssets"@,
        "CurrentLiabilities"@,
        "TotalDebt"@,
        "StockholdersEquity"@,
        "CommonStockEquity"@,
        "TotalEquityGrossMinorityInterest"@,
        "TotalLiabilitiesNetMinorityInterest"@,
        "Inventory"@,
        "AccountsReceivable"@,
        "GrossAccountsReceivable"@,
        "CashAndCashEquivalents"@,
        "OtherShortTermInvestments"@,
        "CashCashEquivalentsAndShortTermInvestments"@,
        "RetainedEarnings"@,
        "Goodwill"@,
        "GoodwillAndOtherIntangibleAssets"@,
        "OtherIntangibleAssets"@,
        "NetLoan"@,
        "GrossLoan"@,
        "TotalDeposits"@,
    ]);
    r
}

/// The extra income series (other income, net interest income, interest income).
pub fn income_extra_keys() -> (r: Vec<&'static str>)
    ensures
        r@.map_values(|k: &str| k@) == seq!["OtherIncomeExpense"@, "NetInterestIncome"@, "InterestIncome"@],
{
    let r = vec!["OtherIncomeExpense", "NetInterestIncome", "InterestIncome"];
    assert(r@.map_values(|k: &str| k@) =~= seq!["OtherIncomeExpense"@, "NetInterestIncome"@, "InterestIncome"@]);
    r
}

/// The cash-flow series requested with each answer.
pub fn cashflow_keys() -> (r: Vec<&'static str>)
    ensures
        r@.map_values(|k: &str| k@) == seq![
            "OperatingCashFlow"@,
            "CashFlowFromContinuingOperatingActivities"@,
            "CapitalExpenditure"@,
            "FreeCashFlow"@,
        ],
{
    let r = vec![
        "OperatingCashFlow",
        "CashFlowFromContinuingOperatingActivities",
        "CapitalExpenditure",
        "FreeCashFlow",
    ];
    assert(r@.map_values(|k: &str| k@) =~= seq![
        "OperatingCashFlow"@,
        "CashFlowFromContinuingOperatingActivities"@,
        "CapitalExpenditure"@,
        "FreeCashFlow"@,
    ]);
    r
}

/// The start of the requested window: `years_back` years of 365 days before `now`.
pub fn period_start_secs(now: i64, years_back: i64) -> (r: i64)
    requires
        i64::MIN <= now - years_back * 365 * 24 * 3600 <= i64::MAX,
        i64::MIN <= years_back * 365 * 24 * 3600 <= i64::MAX,
    ensures
        r == now - years_back * 365 * 24 * 3600,
{
    now - years_back * 365 * 24 * 3600
}

/// The statement time-series URL for `symbol`, series `type_param` and the window
/// `period1..period2` (seconds since the epoch).
pub fn timeseries_url(symbol: &str, type_param: &str, period1: i64, period2: i64) -> (r: String)
    ensures
        r@ == "https://query1.finance.yahoo.com/ws/fundamentals-timeseries/v1/finance/timeseries/"@
            + percent_encoded(symbol.spec_bytes()) + "?symbol="@ + percent_encoded(
            symbol.spec_bytes(),
        ) + "&period1="@ + signed_decimal(period1 as int) + "&period2="@ + signed_decimal(
            period2 as int,
        ) + "&type="@ + percent_encoded(type_param.spec_bytes()),
{
    let mut url = string_of(
        "https://query1.finance.yahoo.com/ws/fundamentals-timeseries/v1/finance/timeseries/",
    );
    let s = url_encode(symbol);
    push_str(&mut url, s.as_str());
    push_str(&mut url, "?symbol=");
    push_str(&mut url, s.as_str());
    push_str(&mut url, "&period1=");
    let p1 = signed_decimal_string(period1);
    push_str(&mut url, p1.as_str());
    push_str(&mut url, "&period2=");
    let p2 = signed_decimal_string(period2);
    push_str(&mut url, p2.as_str());
    push_str(&mut url, "&type=");
    let t = url_encode(type_param);
    push_str(&mut url, t.as_str());
    url
}

/// Why a statement time-series answer is refused: not JSON, or an error the provider
/// describes.
pub open spec fn timeseries_refusal(text: Seq<char>) -> Option<Seq<char>> {
    if !json_parses(text) {
        Some("Yahoo fundamentalsTimeSeries answer is not JSON"@)
    } else {
        match json_text_at(text, "/timeseries/error/description"@) {
            Some(d) => Some("Yahoo fundamentalsTimeSeries error: "@ + d),
            None => None,
        }
    }
}

/// Checks a statement time-series answer before it is parsed.
pub fn check_timeseries_answer(text: &str) -> (r: Result<(), String>)
    ensures
        match timeseries_refusal(text@) {
            Some(m) => r matches Err(e) && e@ == m,
            None => r is Ok,
        },
{
    if !json_is_valid(text) {
        return Err(string_of("Yahoo fundamentalsTimeSeries answer is not JSON"));
    }
    match json_text(text, "/timeseries/error/description") {
        Some(d) => {
            let mut m = string_of("Yahoo fundamentalsTimeSeries error: ");
            push_str(&mut m, d.as_str());
            Err(m)
        },
        None => Ok(()),
    }
}

/// The periods are in ascending order of their ends.
pub open spec fn ends_ascending(ps: Seq<(i64, Seq<(Seq<char>, Seq<char>)>, Seq<char>)>) -> bool {
    forall|a: int, b: int| 0 <= a < b < ps.len() ==> #[trigger] ps[a].0 <= #[trigger] ps[b].0
}

/// The periods ordered by their ends, oldest first: the same periods, ascending.
pub fn sort_periods_by_end(periods: Vec<PeriodSnap>) -> (r: Vec<PeriodSnap>)
    ensures
        ends_ascending(snaps_view(r@)),
        snaps_view(r@).to_multiset() == snaps_view(periods@).to_multiset(),
{
    broadcast use vstd::seq_lib::group_to_multiset_ensures, vstd::multiset::group_multiset_axioms;

    let ghost all = snaps_view(periods@);
    let mut rest = periods;
    let mut out: Vec<PeriodSnap> = Vec::new();
    assert(snaps_view(out@) =~= Seq::<(i64, Seq<(Seq<char>, Seq<char>)>, Seq<char>)>::empty());
    assert(snaps_view(out@).to_multiset() =~= vstd::multiset::Multiset::<(i64, Seq<(Seq<char>, Seq<char>)>, Seq<char>)>::empty());
    while rest.len() > 0
        invariant
            ends_ascending(snaps_view(out@)),
            snaps_view(out@).to_multiset().add(snaps_view(rest@).to_multiset()) == all.to_multiset(),
        decreases rest.len(),
    {
        let ghost before_rest = rest@;
        let ghost before_out = snaps_view(out@);
        let ghost rest_ms = snaps_view(rest@).to_multiset();
        let x = rest.remove(0);
        assert(snaps_view(rest@) =~= snaps_view(before_rest).remove(0));
        assert(snaps_view(before_rest)[0] == snap_view(x));
        let mut j: usize = 0;
        while j < out.len() && out[j].end_secs <= x.end_secs
            invariant
                j <= out.len(),
                forall|k: int| 0 <= k < j ==> #[trigger] out@[k].end_secs <= x.end_secs,
            decreases out.len() - j,
        {
            j = j + 1;
        }
        let ghost xv = snap_view(x);
        out.insert(j, x);
        assert(snaps_view(out@) =~= before_out.insert(j as int, xv));
        proof {
            vstd::seq_lib::to_multiset_insert(before_out, j as int, xv);
            vstd::seq_lib::to_multiset_remove(snaps_view(before_rest), 0);
        }
        assert(snaps_view(out@).to_multiset() =~= before_out.to_multiset().insert(xv));
        assert(snaps_view(rest@).to_multiset() =~= rest_ms.remove(xv));
        assert(rest_ms.count(xv) > 0) by {
            assert(snaps_view(before_rest).contains(xv)) by {
                assert(snaps_view(before_rest)[0] == xv);
            }
            vstd::seq_lib::to_multiset_contains(snaps_view(before_rest), xv);
        }
        assert(snaps_view(out@).to_multiset().add(snaps_view(rest@).to_multiset()) =~= before_out.to_multiset().add(rest_ms));
        assert forall|a: int, b: int| 0 <= a < b < snaps_view(out@).len() implies #[trigger] snaps_view(out@)[a].0
            <= #[trigger] snaps_view(out@)[b].0 by {
            if a < j && b > j {
                assert(before_out[a].0 <= before_out[b - 1].0);
            }
            if a == j && b > j && j < before_out.len() {
                assert(before_out[j as int].0 <= before_out[b - 1].0);
            }
            if a < j && b == j {
            }
            if a > j {
                assert(before_out[a - 1].0 <= before_out[b - 1].0);
            }
            if b < j {
                assert(before_out[a].0 <= before_out[b].0);
            }
        }
    }
    assert(snaps_view(rest@) =~= Seq::<(i64, Seq<(Seq<char>, Seq<char>)>, Seq<char>)>::empty());
    assert(snaps_view(rest@).to_multiset() =~= vstd::multiset::Multiset::<(i64, Seq<(Seq<char>, Seq<char>)>, Seq<char>)>::empty());
    out
}

} // verus!
