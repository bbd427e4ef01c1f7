//! Ordering statement rows by period end, and reading period-end dates.

use chrono::Datelike;
use vstd::prelude::*;

use crate::text::{
    chars_of, decimal, push_str, signed_decimal, signed_decimal_string, string_from_chars, string_of, trim,
    trim_chars,
};

verus! {

// ---------------------------------------------------------------------------
// Stable ordering by timestamp key
// ---------------------------------------------------------------------------

/// A missing timestamp sorts as zero.
pub open spec fn key_or_zero(k: Option<i64>) -> i64 {
    match k {
        Some(v) => v,
        None => 0,
    }
}

/// The sort keys of a list of optional timestamps.
pub open spec fn zero_keys(ks: Seq<Option<i64>>) -> Seq<i64> {
    ks.map_values(|k: Option<i64>| key_or_zero(k))
}

/// Row `a` comes before row `b`: smaller (or, descending, larger) key first, ties in input order.
pub open spec fn comes_before(ks: Seq<i64>, a: int, b: int, desc: bool) -> bool {
    if ks[a] == ks[b] {
        a < b
    } else if desc {
        ks[a] > ks[b]
    } else {
        ks[a] < ks[b]
    }
}

/// `idx` lists every row index once, in the stable order of keys `ks`.
pub open spec fn stable_order(ks: Seq<i64>, idx: Seq<usize>, desc: bool) -> bool {
    &&& idx.len() == ks.len()
    &&& forall|j: int| 0 <= j < idx.len() ==> idx[j] < ks.len()
    &&& forall|k: usize| k < ks.len() ==> #[trigger] idx.contains(k)
    &&& forall|j1: int, j2: int|
        0 <= j1 < j2 < idx.len() ==> comes_before(ks, idx[j1] as int, idx[j2] as int, desc)
}

/// Where row `i` goes in `idx`: after every row it does not come before.
fn insert_position(keys: &Vec<i64>, idx: &Vec<usize>, i: usize, desc: bool) -> (p: usize)
    requires
        i < keys@.len(),
        forall|j: int| 0 <= j < idx@.len() ==> idx@[j] < i,
    ensures
        p <= idx@.len(),
        forall|j: int| 0 <= j < p ==> !comes_before(keys@, i as int, idx@[j] as int, desc),
        p < idx@.len() ==> comes_before(keys@, i as int, idx@[p as int] as int, desc),
{
    let ki = keys[i];
    let mut p: usize = 0;
    while p < idx.len()
        invariant
            i < keys@.len(),
            ki == keys@[i as int],
            p <= idx@.len(),
            forall|j: int| 0 <= j < idx@.len() ==> idx@[j] < i,
            forall|j: int| 0 <= j < p ==> !comes_before(keys@, i as int, idx@[j] as int, desc),
        decreases idx.len() - p,
    {
        let x = idx[p];
        let earlier = if desc {
            ki > keys[x]
        } else {
            ki < keys[x]
        };
        if earlier {
            return p;
        }
        p += 1;
    }
    p
}

/// The row indices of `keys` in stable ascending (or descending) key order.
fn stable_order_exec(keys: &Vec<i64>, desc: bool) -> (idx: Vec<usize>)
    ensures
        stable_order(keys@, idx@, desc),
{
    let ghost ks = keys@;
    let mut idx: Vec<usize> = Vec::new();
    let mut i: usize = 0;
    while i < keys.len()
        invariant
            ks == keys@,
            i <= keys.len(),
            idx@.len() == i,
            forall|j: int| 0 <= j < idx@.len() ==> idx@[j] < i,
            forall|k: usize| k < i ==> #[trigger] idx@.contains(k),
            forall|j1: int, j2: int|
                0 <= j1 < j2 < idx@.len() ==> comes_before(
                    ks,
                    idx@[j1] as int,
                    idx@[j2] as int,
                    desc,
                ),
        decreases keys.len() - i,
    {
        let p = insert_position(keys, &idx, i, desc);
        let ghost old_idx = idx@;
        proof {
            if p < old_idx.len() {
                assert(comes_before(ks, i as int, old_idx[p as int] as int, desc));
            }
        }
        idx.insert(p, i);
        proof {
            let n = idx@;
            assert forall|j1: int, j2: int| 0 <= j1 < j2 < n.len() implies comes_before(
                ks,
                n[j1] as int,
                n[j2] as int,
                desc,
            ) by {
                if j1 < p && j2 < p {
                    assert(n[j1] == old_idx[j1] && n[j2] == old_idx[j2]);
                } else if j1 < p && j2 == p {
                    assert(!comes_before(ks, i as int, old_idx[j1] as int, desc));
                } else if j1 < p && j2 > p {
                    assert(n[j2] == old_idx[j2 - 1]);
                } else if j1 == p {
                    assert(n[j2] == old_idx[j2 - 1]);
                    assert(comes_before(ks, i as int, old_idx[p as int] as int, desc));
                    if j2 - 1 > p {
                        assert(comes_before(
                            ks,
                            old_idx[p as int] as int,
                            old_idx[j2 - 1] as int,
                            desc,
                        ));
                    }
                } else {
                    assert(n[j1] == old_idx[j1 - 1] && n[j2] == old_idx[j2 - 1]);
                }
            }
            assert forall|k: usize| k < i + 1 implies #[trigger] n.contains(k) by {
                if k == i {
                    assert(n[p as int] == i);
                } else {
                    assert(old_idx.contains(k));
                    let w = choose|w: int| 0 <= w < old_idx.len() && old_idx[w] == k;
                    if w < p {
                        assert(n[w] == k);
                    } else {
                        assert(n[w + 1] == k);
                    }
                }
            }
        }
        i += 1;
    }
    idx
}

/// `r` lists the rows of `rows` in the order `idx`.
pub open spec fn arranged<T>(rows: Seq<T>, idx: Seq<usize>, r: Seq<T>) -> bool {
    r.len() == idx.len() && forall|j: int| 0 <= j < r.len() ==> r[j] == rows[idx[j] as int]
}

/// `r` refers to the rows of `rows` in the order `idx`.
pub open spec fn arranged_refs<T>(rows: Seq<T>, idx: Seq<usize>, r: Seq<&T>) -> bool {
    r.len() == idx.len() && forall|j: int| 0 <= j < r.len() ==> *r[j] == rows[idx[j] as int]
}

/// Timestamp keys of `rows` that `end_ts` may return, one per row.
pub open spec fn keys_of<T, F: Fn(&T) -> Option<i64>>(rows: Seq<T>, end_ts: F, ks: Seq<
    Option<i64>,
>) -> bool {
    ks.len() == rows.len() && forall|i: int|
        0 <= i < rows.len() ==> end_ts.ensures((&rows[i],), #[trigger] ks[i])
}

fn collect_keys<T, F: Fn(&T) -> Option<i64>>(rows: &[T], end_ts: &F) -> (r: (
    Vec<i64>,
    Ghost<Seq<Option<i64>>>,
))
    requires
        forall|i: int| 0 <= i < rows@.len() ==> end_ts.requires((&rows@[i],)),
    ensures
        keys_of(rows@, *end_ts, r.1@),
        r.0@ == zero_keys(r.1@),
{
    let mut keys: Vec<i64> = Vec::new();
    let ghost mut ks: Seq<Option<i64>> = Seq::empty();
    let mut i: usize = 0;
    while i < rows.len()
        invariant
            i <= rows@.len(),
            forall|j: int| 0 <= j < rows@.len() ==> end_ts.requires((&rows@[j],)),
            ks.len() == i,
            forall|j: int| 0 <= j < i ==> end_ts.ensures((&rows@[j],), #[trigger] ks[j]),
            keys@ == zero_keys(ks),
        decreases rows.len() - i,
    {
        let k = end_ts(&rows[i]);
        let v = match k {
            Some(v) => v,
            None => 0,
        };
        keys.push(v);
        proof {
            ks = ks.push(k);
            assert(keys@ =~= zero_keys(ks));
        }
        i += 1;
    }
    (keys, Ghost(ks))
}

fn ordered_refs<'a, T, F: Fn(&T) -> Option<i64>>(rows: &'a [T], end_ts: F, desc: bool) -> (r: Vec<
    &'a T,
>)
    requires
        forall|i: int| 0 <= i < rows@.len() ==> end_ts.requires((&rows@[i],)),
    ensures
        exists|ks: Seq<Option<i64>>, idx: Seq<usize>|
            keys_of(rows@, end_ts, ks) && stable_order(zero_keys(ks), idx, desc) && arranged_refs(
                rows@,
                idx,
                r@,
            ),
{
    let (keys, Ghost(ks)) = collect_keys(rows, &end_ts);
    let idx = stable_order_exec(&keys, desc);
    let mut out: Vec<&'a T> = Vec::new();
    let mut j: usize = 0;
    while j < idx.len()
        invariant
            j <= idx@.len(),
            idx@.len() == rows@.len(),
            forall|t: int| 0 <= t < idx@.len() ==> idx@[t] < rows@.len(),
            out@.len() == j,
            forall|t: int| 0 <= t < j ==> *out@[t] == rows@[idx@[t] as int],
        decreases idx.len() - j,
    {
        out.push(&rows[idx[j]]);
        j += 1;
    }
    assert(keys_of(rows@, end_ts, ks) && stable_order(zero_keys(ks), idx@, desc) && arranged_refs(
        rows@,
        idx@,
        out@,
    ));
    out
}

/// Statement rows sorted oldest-first by `end_ts` (missing timestamps as zero, ties kept in order).
pub fn annual_asc<'a, T, F: Fn(&T) -> Option<i64>>(rows: &'a [T], end_ts: F) -> (r: Vec<&'a T>)
    requires
        forall|i: int| 0 <= i < rows@.len() ==> end_ts.requires((&rows@[i],)),
    ensures
        exists|ks: Seq<Option<i64>>, idx: Seq<usize>|
            keys_of(rows@, end_ts, ks) && stable_order(zero_keys(ks), idx, false) && arranged_refs(
                rows@,
                idx,
                r@,
            ),
{
    ordered_refs(rows, end_ts, false)
}

/// Statement rows sorted newest-first by `end_ts` (missing timestamps as zero, ties kept in order).
pub fn annual_desc<'a, T, F: Fn(&T) -> Option<i64>>(rows: &'a [T], end_ts: F) -> (r: Vec<&'a T>)
    requires
        forall|i: int| 0 <= i < rows@.len() ==> end_ts.requires((&rows@[i],)),
    ensures
        exists|ks: Seq<Option<i64>>, idx: Seq<usize>|
            keys_of(rows@, end_ts, ks) && stable_order(zero_keys(ks), idx, true) && arranged_refs(
                rows@,
                idx,
                r@,
            ),
{
    ordered_refs(rows, end_ts, true)
}

/// Owned statement rows sorted newest-first by `end_ts` (missing timestamps as zero, ties kept in order).
pub fn sort_owned_desc<T, F: Fn(&T) -> Option<i64>>(rows: Vec<T>, end_ts: F) -> (r: Vec<T>)
    requires
        forall|i: int| 0 <= i < rows@.len() ==> end_ts.requires((&rows@[i],)),
    ensures
        exists|ks: Seq<Option<i64>>, idx: Seq<usize>|
            keys_of(rows@, end_ts, ks) && stable_order(zero_keys(ks), idx, true) && arranged(
                rows@,
                idx,
                r@,
            ),
{
    let (keys, Ghost(ks)) = collect_keys(rows.as_slice(), &end_ts);
    let idx = stable_order_exec(&keys, true);
    let ghost orig = rows@;
    let mut slots: Vec<Option<T>> = Vec::new();
    let mut rows = rows;
    let mut taken: Vec<T> = Vec::new();
    // Move the rows into `slots`, keeping their positions.
    while rows.len() > 0
        invariant
            rows@ == orig.take(rows@.len() as int),
            slots@.len() + rows@.len() == orig.len(),
            forall|t: int|
                0 <= t < slots@.len() ==> slots@[t] == Some(
                    orig[orig.len() - 1 - t],
                ),
        decreases rows@.len(),
    {
        let x = rows.pop().unwrap();
        slots.push(Some(x));
        assert(rows@ =~= orig.take(rows@.len() as int));
    }
    // slots holds the rows in reverse; position of row k is n - 1 - k.
    let n = slots.len();
    let mut out: Vec<T> = Vec::new();
    let mut j: usize = 0;
    while j < idx.len()
        invariant
            n == orig.len(),
            n == idx@.len(),
            slots@.len() == n,
            stable_order(zero_keys(ks), idx@, true),
            j <= n,
            out@.len() == j,
            forall|t: int| 0 <= t < j ==> out@[t] == orig[idx@[t] as int],
            forall|t: int|
                j <= t < n ==> slots@[n - 1 - idx@[t] as int] == Some(orig[idx@[t] as int]),
        decreases n - j,
    {
        let k = idx[j];
        let pos = n - 1 - k;
        let item = slots.remove(pos);
        slots.insert(pos, None);
        proof {
            assert forall|t: int| j + 1 <= t < n implies slots@[n - 1 - idx@[t] as int] == Some(
                orig[idx@[t] as int],
            ) by {
                assert(comes_before(zero_keys(ks), idx@[j as int] as int, idx@[t] as int, true));
                assert(idx@[t] != k);
            }
        }
        out.push(item.unwrap());
        j += 1;
    }
    assert(arranged(orig, idx@, out@));
    out
}

// ---------------------------------------------------------------------------
// Period-end dates
// ---------------------------------------------------------------------------

/// A calendar date as (year, month, day); the tuple order is calendar order.
pub type Ymd = (i32, u32, u32);

/// What `chrono::NaiveDate::parse_from_str(s, fmt)` yields, as (year, month, day).
pub uninterp spec fn parsed_date(s: Seq<char>, fmt: Seq<char>) -> Option<(i32, u32, u32)>;

/// Calls `chrono::NaiveDate::parse_from_str`; the contract claims that the outcome is
/// a function of the text and the format, and that a parsed date is a real calendar
/// date (the call yields a `NaiveDate`).
#[verifier::external_body]
pub(crate) fn parse_date_with(s: &str, fmt: &str) -> (r: Option<(i32, u32, u32)>)
    ensures
        r == parsed_date(s@, fmt@),
        r matches Some(d) ==> calendar_date(d.0, d.1, d.2),
{
    chrono::NaiveDate::parse_from_str(s, fmt).ok().map(|d| (d.year(), d.month(), d.day()))
}

/// The period-end date of a `YYYY-MM-DD`, `MM/DD/YYYY` or `DD-MM-YYYY` text.
pub open spec fn period_end_date(text: Seq<char>) -> Option<(i32, u32, u32)> {
    let s = trim(text);
    if s.len() == 0 {
        None
    } else {
        match parsed_date(s, "%Y-%m-%d"@) {
            Some(d) => Some(d),
            None => match parsed_date(s, "%m/%d/%Y"@) {
                Some(d) => Some(d),
                None => parsed_date(s, "%d-%m-%Y"@),
            },
        }
    }
}

/// Parse a statement period-end text as `YYYY-MM-DD`, `MM/DD/YYYY` or `DD-MM-YYYY`.
pub fn parse_period_end_date(fmt: &str) -> (r: Option<(i32, u32, u32)>)
    ensures
        r == period_end_date(fmt@),
        r matches Some(d) ==> calendar_date(d.0, d.1, d.2),
{
    let s = trim_chars(chars_of(fmt).as_slice());
    if s.len() == 0 {
        return None;
    }
    let st = string_from_chars(s.as_slice());
    match parse_date_with(st.as_str(), "%Y-%m-%d") {
        Some(d) => Some(d),
        None => match parse_date_with(st.as_str(), "%m/%d/%Y") {
            Some(d) => Some(d),
            None => parse_date_with(st.as_str(), "%d-%m-%Y"),
        },
    }
}

/// Calendar order of dates.
pub open spec fn date_le(a: (i32, u32, u32), b: (i32, u32, u32)) -> bool {
    a.0 < b.0 || (a.0 == b.0 && (a.1 < b.1 || (a.1 == b.1 && a.2 <= b.2)))
}

fn date_le_exec(a: (i32, u32, u32), b: (i32, u32, u32)) -> (r: bool)
    ensures
        r == date_le(a, b),
{
    a.0 < b.0 || (a.0 == b.0 && (a.1 < b.1 || (a.1 == b.1 && a.2 <= b.2)))
}

/// The newest parsable date of `ds` with its text; among equal newest dates the last one.
pub open spec fn latest_dated(ds: Seq<Seq<char>>) -> Option<(Seq<char>, (i32, u32, u32))>
    decreases ds.len(),
{
    if ds.len() == 0 {
        None
    } else {
        let prev = latest_dated(ds.drop_last());
        match period_end_date(ds.last()) {
            None => prev,
            Some(d) => match prev {
                None => Some((ds.last(), d)),
                Some((s0, d0)) => if date_le(d0, d) {
                    Some((ds.last(), d))
                } else {
                    prev
                },
            },
        }
    }
}

/// The characters of each text in a list.
pub open spec fn text_views(v: Seq<&str>) -> Seq<Seq<char>> {
    v.map_values(|s: &str| s@)
}

/// Newest fiscal period-end among the given period-end texts (calendar date, not provider
/// metadata); among equal newest dates the last one given.
pub fn latest_period_end_fmt(dates: &[&str]) -> (r: Option<String>)
    ensures
        r matches Some(s) ==> latest_dated(text_views(dates@)) matches Some(best) && s@ == best.0,
        r is None ==> latest_dated(text_views(dates@)) is None,
{
    let ghost ds = text_views(dates@);
    let mut best: Option<(usize, (i32, u32, u32))> = None;
    let mut i: usize = 0;
    while i < dates.len()
        invariant
            ds == text_views(dates@),
            i <= dates@.len(),
            match best {
                None => latest_dated(ds.take(i as int)) is None,
                Some((k, d)) => k < i && latest_dated(ds.take(i as int)) == Some((ds[k as int], d)),
            },
        decreases dates.len() - i,
    {
        let parsed = parse_period_end_date(dates[i]);
        proof {
            assert(ds.take(i + 1).drop_last() =~= ds.take(i as int));
            assert(ds.take(i + 1).last() == dates@[i as int]@);
        }
        match parsed {
            None => {},
            Some(d) => {
                match best {
                    None => {
                        best = Some((i, d));
                    },
                    Some((k, d0)) => {
                        if date_le_exec(d0, d) {
                            best = Some((i, d));
                        }
                    },
                }
            },
        }
        i += 1;
    }
    assert(ds.take(dates@.len() as int) =~= ds);
    match best {
        None => None,
        Some((k, _)) => Some(string_from_chars(chars_of(dates[k]).as_slice())),
    }
}

/// Newest fiscal year-end among the annual income, balance-sheet and cash-flow period
/// ends (in that order), by calendar date.
pub fn latest_fiscal_year_end(income: &[&str], balance: &[&str], cashflow: &[&str]) -> (r: Option<
    String,
>)
    ensures
        r matches Some(s) ==> latest_dated(
            text_views(income@) + text_views(balance@) + text_views(cashflow@),
        ) matches Some(best) && s@ == best.0,
        r is None ==> latest_dated(
            text_views(income@) + text_views(balance@) + text_views(cashflow@),
        ) is None,
{
    let mut all: Vec<&str> = Vec::new();
    let mut i: usize = 0;
    while i < income.len()
        invariant
            i <= income@.len(),
            all@ == income@.take(i as int),
        decreases income.len() - i,
    {
        all.push(income[i]);
        i += 1;
        assert(all@ =~= income@.take(i as int));
    }
    let mut j: usize = 0;
    assert(income@.take(income@.len() as int) =~= income@);
    while j < balance.len()
        invariant
            j <= balance@.len(),
            all@ == income@ + balance@.take(j as int),
        decreases balance.len() - j,
    {
        all.push(balance[j]);
        j += 1;
        assert(all@ =~= income@ + balance@.take(j as int));
    }
    let mut k: usize = 0;
    assert(balance@.take(balance@.len() as int) =~= balance@);
    while k < cashflow.len()
        invariant
            k <= cashflow@.len(),
            all@ == income@ + balance@ + cashflow@.take(k as int),
        decreases cashflow.len() - k,
    {
        all.push(cashflow[k]);
        k += 1;
        assert(all@ =~= income@ + balance@ + cashflow@.take(k as int));
    }
    assert(cashflow@.take(cashflow@.len() as int) =~= cashflow@);
    assert(text_views(all@) =~= text_views(income@) + text_views(balance@) + text_views(cashflow@));
    latest_period_end_fmt(all.as_slice())
}

// ---------------------------------------------------------------------------
// Calendar dates and the freshness of the provider's quarterly statements
// ---------------------------------------------------------------------------

/// A leap year of the proleptic Gregorian calendar.
pub open spec fn leap_year(y: int) -> bool {
    y % 4 == 0 && (y % 100 != 0 || y % 400 == 0)
}

/// The number of days in month `m` (1 to 12) of year `y`.
pub open spec fn month_days(y: int, m: int) -> int {
    if m == 2 {
        if leap_year(y) {
            29
        } else {
            28
        }
    } else if m == 4 || m == 6 || m == 9 || m == 11 {
        30
    } else {
        31
    }
}

/// `chrono::NaiveDate::from_ymd_opt(y, m, d)` gives a date: the year is in chrono's
/// range (-262 143 to 262 142) and the day exists in the proleptic Gregorian calendar.
pub open spec fn calendar_date(y: i32, m: u32, d: u32) -> bool {
    -262143 <= y <= 262142 && 1 <= m <= 12 && 1 <= d <= month_days(y as int, m as int)
}

/// The date `days` days before `d`, as `NaiveDate::checked_sub_signed` gives it.
pub uninterp spec fn date_minus_days(d: (i32, u32, u32), days: i64) -> Option<(i32, u32, u32)>;

/// `(a - b).num_days()` for two `NaiveDate`s.
pub uninterp spec fn day_count_between(a: (i32, u32, u32), b: (i32, u32, u32)) -> i64;

/// `n` in decimal, with zeros in front up to `width` digits.
pub open spec fn zero_padded(n: nat, width: nat) -> Seq<char> {
    let digits = decimal(n);
    if digits.len() < width {
        Seq::new((width - digits.len()) as nat, |_i: int| '0') + digits
    } else {
        digits
    }
}

/// A year as `%Y` writes it: four digits with leading zeros for 0 to 9999; a sign
/// and at least four digits outside that range.
pub open spec fn year_text(y: int) -> Seq<char> {
    if 0 <= y <= 9999 {
        zero_padded(y as nat, 4)
    } else if y > 9999 {
        "+"@ + decimal(y as nat)
    } else {
        "-"@ + zero_padded((-y) as nat, 4)
    }
}

/// `NaiveDate::format("%Y-%m-%d")` of a date: the year, then the month and the day
/// in two digits each, joined by hyphens.
pub open spec fn iso_date(d: (i32, u32, u32)) -> Seq<char> {
    year_text(d.0 as int) + "-"@ + zero_padded(d.1 as nat, 2) + "-"@ + zero_padded(d.2 as nat, 2)
}

/// The UTC date of `DateTime::from_timestamp(secs, 0)`, when it is in range.
pub uninterp spec fn utc_date_at(secs: i64) -> Option<(i32, u32, u32)>;

/// Calls `chrono::NaiveDate::from_ymd_opt`: a date exists when the year is in chrono's
/// range and the month and day exist in the Gregorian calendar.
#[verifier::external_body]
fn date_exists(y: i32, m: u32, d: u32) -> (r: bool)
    ensures
        r == calendar_date(y, m, d),
{
    chrono::NaiveDate::from_ymd_opt(y, m, d).is_some()
}

/// Calls `NaiveDate::checked_sub_signed` with `TimeDelta::days(days)`; a result is
/// a date (it is a `NaiveDate`). `days` is kept small, where `TimeDelta::days`
/// does not panic.
#[verifier::external_body]
fn days_before(d: (i32, u32, u32), days: i64) -> (r: Option<(i32, u32, u32)>)
    requires
        calendar_date(d.0, d.1, d.2),
        0 <= days <= 36500,
    ensures
        r == date_minus_days(d, days),
        r matches Some(x) ==> calendar_date(x.0, x.1, x.2),
{
    let date = chrono::NaiveDate::from_ymd_opt(d.0, d.1, d.2).unwrap();
    date.checked_sub_signed(chrono::TimeDelta::days(days)).map(|x| (x.year(), x.month(), x.day()))
}

/// Calls `NaiveDate - NaiveDate` and `TimeDelta::num_days`.
#[verifier::external_body]
fn days_between(a: (i32, u32, u32), b: (i32, u32, u32)) -> (r: i64)
    requires
        calendar_date(a.0, a.1, a.2),
        calendar_date(b.0, b.1, b.2),
    ensures
        r == day_count_between(a, b),
{
    let x = chrono::NaiveDate::from_ymd_opt(a.0, a.1, a.2).unwrap();
    let y = chrono::NaiveDate::from_ymd_opt(b.0, b.1, b.2).unwrap();
    (x - y).num_days()
}

/// Calls `NaiveDate::and_hms_opt(0, 0, 0)`, `NaiveDateTime::and_utc` and
/// `DateTime::timestamp`; claims, as chrono computes it, that midnight UTC of a date
/// lies 86 400 seconds per day after midnight of 1970-01-01.
#[verifier::external_body]
pub(crate) fn midnight_utc_secs(d: (i32, u32, u32)) -> (r: i64)
    requires
        calendar_date(d.0, d.1, d.2),
    ensures
        r == 86400 * day_count_between(d, (1970, 1, 1)),
{
    chrono::NaiveDate::from_ymd_opt(d.0, d.1, d.2).unwrap().and_hms_opt(0, 0, 0).unwrap().and_utc().timestamp()
}

/// Calls `DateTime::from_timestamp(secs, 0)` and `DateTime::date_naive`; a date it gives
/// is a calendar date lying `secs` div 86 400 (rounded down) days after 1970-01-01.
#[verifier::external_body]
pub(crate) fn utc_date_of_secs(secs: i64) -> (r: Option<(i32, u32, u32)>)
    ensures
        r == utc_date_at(secs),
        r matches Some(d) ==> calendar_date(d.0, d.1, d.2) && day_count_between(d, (1970, 1, 1))
            == secs / 86400,
{
    chrono::DateTime::from_timestamp(secs, 0).map(|t| {
        let d = t.date_naive();
        (d.year(), d.month(), d.day())
    })
}

/// Calls `NaiveDate::format` with `%Y-%m-%d`: the year zero-padded to four digits
/// (signed outside 0 to 9999), the month and the day zero-padded to two, hyphens between.
#[verifier::external_body]
pub(crate) fn format_iso_date(d: (i32, u32, u32)) -> (r: String)
    requires
        calendar_date(d.0, d.1, d.2),
    ensures
        r@ == iso_date(d),
{
    chrono::NaiveDate::from_ymd_opt(d.0, d.1, d.2).unwrap().format("%Y-%m-%d").to_string()
}

/// A calendar date that exists.
#[derive(Clone, Copy, Debug, PartialEq, Eq, Structural)]
pub struct CalendarDate {
    year: i32,
    month: u32,
    day: u32,
}

impl View for CalendarDate {
    type V = (i32, u32, u32);

    closed spec fn view(&self) -> (i32, u32, u32) {
        (self.year, self.month, self.day)
    }
}

impl CalendarDate {
    #[verifier::type_invariant]
    closed spec fn exists_in_calendar(self) -> bool {
        calendar_date(self.year, self.month, self.day)
    }

    /// The date `year-month-day`, when that day exists.
    pub fn from_ymd(year: i32, month: u32, day: u32) -> (r: Option<CalendarDate>)
        ensures
            r is Some == calendar_date(year, month, day),
            r matches Some(d) ==> d@ == (year, month, day),
    {
        if date_exists(year, month, day) {
            Some(CalendarDate { year, month, day })
        } else {
            None
        }
    }

    pub fn year(&self) -> (r: i32)
        ensures
            r == self@.0,
    {
        self.year
    }

    pub fn month(&self) -> (r: u32)
        ensures
            r == self@.1,
    {
        self.month
    }

    pub fn day(&self) -> (r: u32)
        ensures
            r == self@.2,
    {
        self.day
    }

    fn ymd(&self) -> (r: (i32, u32, u32))
        ensures
            r == self@,
            calendar_date(r.0, r.1, r.2),
    {
        proof {
            use_type_invariant(self);
        }
        (self.year, self.month, self.day)
    }
}

/// The reporting cut-off: 25 days before `as_of`, or `as_of` itself when that is
/// out of the calendar's range.
pub open spec fn lag_date(as_of: (i32, u32, u32)) -> (i32, u32, u32) {
    match date_minus_days(as_of, 25) {
        Some(d) => d,
        None => as_of,
    }
}

/// The March, June, September and December quarter-ends of year `y` and of the
/// year before.
pub open spec fn quarter_end_candidates(y: i32) -> Seq<(i32, u32, u32)> {
    let this_year = seq![(y, 3u32, 31u32), (y, 6u32, 30u32), (y, 9u32, 30u32), (y, 12u32, 31u32)];
    if y > i32::MIN {
        let p = (y - 1) as i32;
        this_year + seq![(p, 12u32, 31u32), (p, 9u32, 30u32), (p, 6u32, 30u32), (p, 3u32, 31u32)]
    } else {
        this_year
    }
}

/// A candidate quarter-end that exists and is not after the cut-off.
pub open spec fn eligible_quarter_end(c: (i32, u32, u32), lag: (i32, u32, u32)) -> bool {
    calendar_date(c.0, c.1, c.2) && date_le(c, lag)
}

/// `r` is the last Mar/Jun/Sep/Dec quarter-end not after the cut-off of `as_of`, or
/// the cut-off itself when no candidate qualifies.
pub open spec fn is_expected_quarter_end(as_of: (i32, u32, u32), r: (i32, u32, u32)) -> bool {
    let lag = lag_date(as_of);
    let cs = quarter_end_candidates(lag.0);
    if exists|i: int| 0 <= i < cs.len() && eligible_quarter_end(#[trigger] cs[i], lag) {
        &&& exists|i: int| 0 <= i < cs.len() && eligible_quarter_end(#[trigger] cs[i], lag) && r == cs[i]
        &&& forall|i: int|
            0 <= i < cs.len() && eligible_quarter_end(#[trigger] cs[i], lag) ==> date_le(cs[i], r)
    } else {
        r == lag
    }
}

fn quarter_end_candidates_exec(y: i32) -> (r: Vec<(i32, u32, u32)>)
    ensures
        r@ == quarter_end_candidates(y),
{
    let mut v: Vec<(i32, u32, u32)> = Vec::new();
    v.push((y, 3, 31));
    v.push((y, 6, 30));
    v.push((y, 9, 30));
    v.push((y, 12, 31));
    if y > i32::MIN {
        let p = y - 1;
        v.push((p, 12, 31));
        v.push((p, 9, 30));
        v.push((p, 6, 30));
        v.push((p, 3, 31));
    }
    assert(v@ =~= quarter_end_candidates(y));
    v
}

/// Last Mar/Jun/Sep/Dec quarter-end that should already have results by `as_of`
/// (a 25-day reporting lag).
pub fn expected_reported_quarter_end(as_of: CalendarDate) -> (r: CalendarDate)
    ensures
        is_expected_quarter_end(as_of@, r@),
{
    let a = as_of.ymd();
    let lag = match days_before(a, 25) {
        Some(d) => d,
        None => a,
    };
    let cs = quarter_end_candidates_exec(lag.0);
    let mut best: Option<(i32, u32, u32)> = None;
    let mut i: usize = 0;
    while i < cs.len()
        invariant
            i <= cs@.len(),
            cs@ == quarter_end_candidates(lag.0),
            lag == lag_date(as_of@),
            calendar_date(lag.0, lag.1, lag.2),
            match best {
                None => forall|j: int| 0 <= j < i ==> !eligible_quarter_end(#[trigger] cs@[j], lag),
                Some(b) => {
                    &&& exists|j: int| 0 <= j < i && eligible_quarter_end(#[trigger] cs@[j], lag) && b == cs@[j]
                    &&& forall|j: int|
                        0 <= j < i && eligible_quarter_end(#[trigger] cs@[j], lag) ==> date_le(cs@[j], b)
                },
            },
        decreases cs.len() - i,
    {
        let c = cs[i];
        if date_le_exec(c, lag) && date_exists(c.0, c.1, c.2) {
            match best {
                None => {
                    best = Some(c);
                },
                Some(b) => {
                    if date_le_exec(b, c) {
                        best = Some(c);
                    }
                },
            }
        }
        i += 1;
    }
    match best {
        Some(b) => {
            CalendarDate { year: b.0, month: b.1, day: b.2 }
        },
        None => CalendarDate { year: lag.0, month: lag.1, day: lag.2 },
    }
}

/// Freshness of the provider's quarterly statements against the quarter that
/// should already be reported.
pub struct YahooQuarterFreshness {
    pub stale: bool,
    pub age_days: Option<i64>,
    pub expected_reported_quarter_end: String,
    pub note: String,
}

/// The note given when the quarterly statements look stale.
pub open spec fn stale_note(yend: Seq<char>, expected: Seq<char>, age: i64) -> Seq<char> {
    "Yahoo quarterly statement data appears stale relative to the company's latest published quarter. Yahoo latest quarter-end is "@
        + yend + "; a quarter ending "@ + expected + " should already be in filings (statement age "@
        + signed_decimal(age as int) + " days)."@
}

/// Staleness of the provider's latest quarter-end `yahoo_end` on `as_of`: stale when
/// it is missing or unparsable, when it is before the expected reported quarter-end,
/// or when it is more than 100 days old.
pub fn yahoo_quarter_freshness(yahoo_end: Option<&str>, as_of: CalendarDate) -> (r: YahooQuarterFreshness)
    ensures
        exists|e: CalendarDate|
            is_expected_quarter_end(as_of@, e@) && r.expected_reported_quarter_end@ == iso_date(e@)
                && match (
                match yahoo_end {
                    Some(s) => period_end_date(s@),
                    None => None,
                }
            ) {
                None => {
                    &&& r.stale
                    &&& r.age_days is None
                    &&& r.note@ == "Yahoo quarterly income series has no usable quarter-end."@
                },
                Some(yend) => {
                    let age = day_count_between(as_of@, yend);
                    &&& r.age_days == Some(age)
                    &&& r.stale == (!date_le(e@, yend) || age > 100)
                    &&& r.note@ == if r.stale {
                        stale_note(iso_date(yend), iso_date(e@), age)
                    } else {
                        Seq::<char>::empty()
                    }
                },
            },
{
    let expected = expected_reported_quarter_end(as_of);
    let e = expected.ymd();
    let expected_s = format_iso_date(e);
    let parsed = match yahoo_end {
        Some(s) => parse_period_end_date(s),
        None => None,
    };
    match parsed {
        None => YahooQuarterFreshness {
            stale: true,
            age_days: None,
            expected_reported_quarter_end: expected_s,
            note: string_of("Yahoo quarterly income series has no usable quarter-end."),
        },
        Some(yend) => {
            let age_days = days_between(as_of.ymd(), yend);
            let behind_expected = !date_le_exec(e, yend);
            let stale = behind_expected || age_days > 100;
            let mut note = String::new();
            if stale {
                push_str(
                    &mut note,
                    "Yahoo quarterly statement data appears stale relative to the company's latest published quarter. Yahoo latest quarter-end is ",
                );
                let ys = format_iso_date(yend);
                push_str(&mut note, ys.as_str());
                push_str(&mut note, "; a quarter ending ");
                push_str(&mut note, expected_s.as_str());
                push_str(&mut note, " should already be in filings (statement age ");
                let ages = signed_decimal_string(age_days);
                push_str(&mut note, ages.as_str());
                push_str(&mut note, " days).");
            }
            YahooQuarterFreshness {
                stale,
                age_days: Some(age_days),
                expected_reported_quarter_end: expected_s,
                note,
            }
        },
    }
}

} // verus!
