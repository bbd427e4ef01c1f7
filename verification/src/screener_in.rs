//! Screener.in consolidated financial tables (quarterly + annual).
//!
//! The HTML of a company page is read as a sequence of characters; a section's
//! `data-table` yields its period dates and one labelled row per `<tr>`.

use vstd::prelude::*;

use crate::models::{FinancialTable, FinancialTableRow};
use crate::symbol::strip_all_suffix;
use crate::text::{
    char_is_whitespace, chars_of, contains_seq, find_from, find_from_exec, is_suffix,
    occurs_at, occurs_at_exec, push_chars, slice_chars, string_from_chars, string_of, trim,
    trim_chars, unicode_white_space, lemma_find_from_some,
};

verus! {

// ---------------------------------------------------------------------------
// Cell text: strip tags, decode two entities, collapse white space
// ---------------------------------------------------------------------------

/// The characters of `s[i..]` outside `<…>` tags, `in_tag` telling whether `i` is inside one.
pub open spec fn untag_from(s: Seq<char>, i: int, in_tag: bool) -> Seq<char>
    decreases s.len() - i,
{
    if i < 0 || i >= s.len() {
        Seq::empty()
    } else if s[i] == '<' {
        untag_from(s, i + 1, true)
    } else if s[i] == '>' {
        untag_from(s, i + 1, false)
    } else if !in_tag {
        seq![s[i]] + untag_from(s, i + 1, false)
    } else {
        untag_from(s, i + 1, true)
    }
}

/// `s[i..]` with each non-overlapping occurrence of `pat`, scanned left to right, replaced by `rep`
/// (`str::replace`).
pub open spec fn replace_from(s: Seq<char>, pat: Seq<char>, rep: Seq<char>, i: int) -> Seq<char>
    decreases s.len() - i,
{
    if i < 0 || i >= s.len() {
        Seq::empty()
    } else if pat.len() > 0 && occurs_at(s, pat, i) {
        rep + replace_from(s, pat, rep, i + pat.len())
    } else {
        seq![s[i]] + replace_from(s, pat, rep, i + 1)
    }
}

/// The words of `s[i..]` joined by single spaces (`split_whitespace` then `join(" ")`);
/// `started` tells whether a word was already emitted, `gap` whether white space followed it.
pub open spec fn squash_from(s: Seq<char>, i: int, started: bool, gap: bool) -> Seq<char>
    decreases s.len() - i,
{
    if i < 0 || i >= s.len() {
        Seq::empty()
    } else if unicode_white_space(s[i]) {
        squash_from(s, i + 1, started, true)
    } else if started && gap {
        seq![' ', s[i]] + squash_from(s, i + 1, true, false)
    } else {
        seq![s[i]] + squash_from(s, i + 1, true, false)
    }
}

/// The display text of an HTML cell.
pub open spec fn cell_text(raw: Seq<char>) -> Seq<char> {
    let untagged = untag_from(raw, 0, false);
    let a = replace_from(untagged, "&nbsp;"@, " "@, 0);
    let b = replace_from(a, "&#8377;"@, "₹"@, 0);
    let words = squash_from(b, 0, false, false);
    trim(strip_all_suffix(trim(words), "+"@))
}

fn untag(s: &[char]) -> (r: Vec<char>)
    ensures
        r@ == untag_from(s@, 0, false),
{
    let mut out: Vec<char> = Vec::new();
    let mut in_tag = false;
    let mut i: usize = 0;
    while i < s.len()
        invariant
            i <= s.len(),
            untag_from(s@, 0, false) == out@ + untag_from(s@, i as int, in_tag),
        decreases s.len() - i,
    {
        let c = s[i];
        let ghost prev = out@;
        if c == '<' {
            in_tag = true;
        } else if c == '>' {
            in_tag = false;
        } else if !in_tag {
            out.push(c);
            assert(prev + (seq![c] + untag_from(s@, i + 1, false)) =~= out@ + untag_from(
                s@,
                i + 1,
                false,
            ));
        }
        i += 1;
    }
    assert(out@ + Seq::<char>::empty() =~= out@);
    out
}

fn replace_all(s: &[char], pat: &str, rep: &str) -> (r: Vec<char>)
    ensures
        r@ == replace_from(s@, pat@, rep@, 0),
{
    let p = chars_of(pat);
    let rv = chars_of(rep);
    let mut out: Vec<char> = Vec::new();
    let mut i: usize = 0;
    while i < s.len()
        invariant
            i <= s.len(),
            p@ == pat@,
            rv@ == rep@,
            replace_from(s@, pat@, rep@, 0) == out@ + replace_from(s@, pat@, rep@, i as int),
        decreases s.len() - i,
    {
        let ghost prev = out@;
        if p.len() > 0 && occurs_at_exec(s, p.as_slice(), i) {
            let mut k: usize = 0;
            while k < rv.len()
                invariant
                    k <= rv.len(),
                    out@ == prev + rv@.take(k as int),
                decreases rv.len() - k,
            {
                out.push(rv[k]);
                k += 1;
                assert(out@ =~= prev + rv@.take(k as int));
            }
            assert(rv@.take(rv@.len() as int) =~= rv@);
            assert(prev + (rep@ + replace_from(s@, pat@, rep@, i + p@.len())) =~= out@
                + replace_from(s@, pat@, rep@, i + p@.len()));
            i += p.len();
        } else {
            out.push(s[i]);
            assert(prev + (seq![s@[i as int]] + replace_from(s@, pat@, rep@, i + 1)) =~= out@
                + replace_from(s@, pat@, rep@, i + 1));
            i += 1;
        }
    }
    assert(out@ + Seq::<char>::empty() =~= out@);
    out
}

fn squash(s: &[char]) -> (r: Vec<char>)
    ensures
        r@ == squash_from(s@, 0, false, false),
{
    let mut out: Vec<char> = Vec::new();
    let mut started = false;
    let mut gap = false;
    let mut i: usize = 0;
    while i < s.len()
        invariant
            i <= s.len(),
            squash_from(s@, 0, false, false) == out@ + squash_from(s@, i as int, started, gap),
        decreases s.len() - i,
    {
        let c = s[i];
        let ghost prev = out@;
        if char_is_whitespace(c) {
            gap = true;
        } else {
            if started && gap {
                out.push(' ');
                out.push(c);
                assert(prev + (seq![' ', c] + squash_from(s@, i + 1, true, false)) =~= out@
                    + squash_from(s@, i + 1, true, false));
            } else {
                out.push(c);
                assert(prev + (seq![c] + squash_from(s@, i + 1, true, false)) =~= out@
                    + squash_from(s@, i + 1, true, false));
            }
            started = true;
            gap = false;
        }
        i += 1;
    }
    assert(out@ + Seq::<char>::empty() =~= out@);
    out
}

fn strip_trailing_plus(s: &[char]) -> (r: Vec<char>)
    ensures
        r@ == strip_all_suffix(s@, "+"@),
{
    let mut cur = slice_chars(s, 0, s.len());
    assert(cur@ =~= s@);
    proof {
        reveal_strlit("+");
    }
    while cur.len() > 0 && cur[cur.len() - 1] == '+'
        invariant
            strip_all_suffix(s@, "+"@) == strip_all_suffix(cur@, "+"@),
            "+"@ == seq!['+'],
        decreases cur@.len(),
    {
        assert(cur@.skip(cur@.len() - 1) =~= seq!['+']);
        cur = slice_chars(cur.as_slice(), 0, cur.len() - 1);
    }
    proof {
        if cur@.len() > 0 {
            assert(!is_suffix("+"@, cur@)) by {
                if is_suffix("+"@, cur@) {
                    assert(cur@.skip(cur@.len() - 1)[0] == cur@.last());
                }
            }
        }
    }
    cur
}

/// The display text of an HTML cell: tags removed, `&nbsp;` and `&#8377;` decoded,
/// white space collapsed, trailing `+` markers dropped.
fn strip_html(raw: &[char]) -> (r: Vec<char>)
    ensures
        r@ == cell_text(raw@),
{
    let a = untag(raw);
    let b = replace_all(a.as_slice(), "&nbsp;", " ");
    let c = replace_all(b.as_slice(), "&#8377;", "₹");
    let d = squash(c.as_slice());
    let e = trim_chars(d.as_slice());
    let f = strip_trailing_plus(e.as_slice());
    trim_chars(f.as_slice())
}

// ---------------------------------------------------------------------------
// Section, dates and rows
// ---------------------------------------------------------------------------

/// Opening of a Screener.in data table.
pub open spec fn table_marker() -> Seq<char> {
    "<table class=\"data-table"@
}

/// The `data-table` of the section with the given id: from its `<table` to the end of the
/// first `</table>` after it.
pub open spec fn section_table(html: Seq<char>, section_id: Seq<char>) -> Option<Seq<char>> {
    let marker = "id=\""@ + section_id + "\""@;
    match find_from(html, marker, 0) {
        None => None,
        Some(start) => match find_from(html, table_marker(), start) {
            None => None,
            Some(t) => match find_from(html, "</table>"@, t) {
                None => None,
                Some(e) => Some(html.subrange(t, e + "</table>"@.len())),
            },
        },
    }
}

fn find_section_table(html: &[char], section_id: &str) -> (r: Option<Vec<char>>)
    ensures
        r matches Some(v) ==> section_table(html@, section_id@) == Some(v@),
        r is None ==> section_table(html@, section_id@) is None,
{
    let mut m = string_of("id=\"");
    crate::text::push_str(&mut m, section_id);
    crate::text::push_str(&mut m, "\"");
    let marker = chars_of(m.as_str());
    let start = match find_from_exec(html, marker.as_slice(), 0) {
        Some(s) => s,
        None => return None,
    };
    let tm = chars_of("<table class=\"data-table");
    let t = match find_from_exec(html, tm.as_slice(), start) {
        Some(t) => t,
        None => return None,
    };
    let close = chars_of("</table>");
    let e = match find_from_exec(html, close.as_slice(), t) {
        Some(e) => e,
        None => return None,
    };
    proof {
        lemma_find_from_some(html@, tm@, start as int);
        lemma_find_from_some(html@, close@, t as int);
        assert(occurs_at(html@, close@, e as int));
        assert(e + close@.len() <= html@.len());
        assert(html@.len() == html.len());
    }
    Some(slice_chars(html, t, e + close.len()))
}

/// Attribute that carries each period date.
pub open spec fn date_key() -> Seq<char> {
    "data-date-key=\""@
}

/// The period dates of `t[p..]`: each `data-date-key="…"` value, in order.
pub open spec fn dates_from(t: Seq<char>, p: int) -> Seq<Seq<char>>
    decreases t.len() - p,
{
    if p < 0 || p > t.len() || date_key().len() == 0 {
        Seq::empty()
    } else {
        match find_from(t, date_key(), p) {
            None => Seq::empty(),
            Some(i) => {
                let r = i + date_key().len();
                match find_from(t, "\""@, r) {
                    None => Seq::empty(),
                    Some(e) => if p < e <= t.len() && r <= e {
                        seq![t.subrange(r, e)] + dates_from(t, e)
                    } else {
                        Seq::empty()
                    },
                }
            },
        }
    }
}

/// The characters of each string.
pub open spec fn views_of(v: Seq<String>) -> Seq<Seq<char>> {
    v.map_values(|s: String| s@)
}

fn parse_period_dates(table: &[char]) -> (r: Vec<String>)
    ensures
        views_of(r@) == dates_from(table@, 0),
{
    let key = chars_of("data-date-key=\"");
    let quote = chars_of("\"");
    proof {
        reveal_strlit("data-date-key=\"");
    }
    let mut dates: Vec<String> = Vec::new();
    let mut p: usize = 0;
    loop
        invariant
            p <= table.len(),
            key@ == date_key(),
            key@.len() > 0,
            quote@ == "\""@,
            dates_from(table@, 0) == views_of(dates@) + dates_from(table@, p as int),
        decreases table.len() - p,
    {
        let i = match find_from_exec(table, key.as_slice(), p) {
            Some(i) => i,
            None => {
                assert(views_of(dates@) + Seq::<Seq<char>>::empty() =~= views_of(dates@));
                return dates;
            },
        };
        proof {
            lemma_find_from_some(table@, key@, p as int);
        }
        let r = i + key.len();
        let e = match find_from_exec(table, quote.as_slice(), r) {
            Some(e) => e,
            None => {
                assert(views_of(dates@) + Seq::<Seq<char>>::empty() =~= views_of(dates@));
                return dates;
            },
        };
        proof {
            lemma_find_from_some(table@, quote@, r as int);
        }
        let d = slice_chars(table, r, e);
        let ghost prev = dates@;
        dates.push(string_from_chars(d.as_slice()));
        assert(views_of(dates@) =~= views_of(prev).push(d@));
        assert(views_of(prev) + (seq![d@] + dates_from(table@, e as int)) =~= views_of(dates@)
            + dates_from(table@, e as int));
        p = e;
    }
}

/// The raw inner HTML of each value cell of `row[q..]`: after `<td`, from the next `>` to the
/// following `</td>`.
pub open spec fn cells_from(row: Seq<char>, q: int) -> Seq<Seq<char>>
    decreases row.len() - q,
{
    if q < 0 || q > row.len() {
        Seq::empty()
    } else {
        match find_from(row, "<td"@, q) {
            None => Seq::empty(),
            Some(i) => match find_from(row, ">"@, i) {
                None => Seq::empty(),
                Some(g) => match find_from(row, "</td>"@, g + 1) {
                    None => Seq::empty(),
                    Some(e) => if q < e <= row.len() && g + 1 <= e {
                        seq![row.subrange(g + 1, e)] + cells_from(row, e)
                    } else {
                        Seq::empty()
                    },
                },
            },
        }
    }
}

/// Cell texts padded with `—` or cut to `n` entries.
pub open spec fn fit_to(v: Seq<Seq<char>>, n: nat) -> Seq<Seq<char>> {
    if v.len() < n {
        v + Seq::new((n - v.len()) as nat, |k: int| "—"@)
    } else {
        v.take(n as int)
    }
}

/// Opening of the label cell of a row.
pub open spec fn label_cell() -> Seq<char> {
    "<td class=\"text\">"@
}

/// A parsed row: its label, its cell texts, and whether it holds percentages.
pub open spec fn row_of(row: Seq<char>, n: nat) -> Option<(Seq<char>, Seq<Seq<char>>, bool)> {
    match find_from(row, label_cell(), 0) {
        None => None,
        Some(ls) => {
            let lh = ls + label_cell().len();
            match find_from(row, "</td>"@, lh) {
                None => None,
                Some(le) => {
                    let label = cell_text(row.subrange(lh, le));
                    if label.len() == 0 {
                        None
                    } else {
                        let values = fit_to(
                            cells_from(row, le + "</td>"@.len()).map_values(
                                |c: Seq<char>| cell_text(c),
                            ),
                            n,
                        );
                        let is_pct = (exists|k: int|
                            0 <= k < values.len() && is_suffix("%"@, #[trigger] values[k]))
                            || contains_seq(label, "%"@);
                        Some((label, values, is_pct))
                    }
                },
            }
        },
    }
}

/// The parsed rows of `t[p..]`, one per `<tr … </tr>` that has a non-empty label.
pub open spec fn rows_from(t: Seq<char>, p: int, n: nat) -> Seq<(Seq<char>, Seq<Seq<char>>, bool)>
    decreases t.len() - p,
{
    if p < 0 || p > t.len() {
        Seq::empty()
    } else {
        match find_from(t, "<tr"@, p) {
            None => Seq::empty(),
            Some(i) => match find_from(t, "</tr>"@, i) {
                None => Seq::empty(),
                Some(re) => {
                    let next = re + "</tr>"@.len();
                    if p < next <= t.len() && 0 <= i <= re {
                        match row_of(t.subrange(i, re), n) {
                            Some(row) => seq![row] + rows_from(t, next, n),
                            None => rows_from(t, next, n),
                        }
                    } else {
                        Seq::empty()
                    }
                },
            },
        }
    }
}

/// The view of a parsed row.
pub open spec fn row_view(r: FinancialTableRow) -> (Seq<char>, Seq<Seq<char>>, bool) {
    (r.label@, views_of(r.values@), r.is_pct)
}

/// The views of parsed rows.
pub open spec fn row_views(v: Seq<FinancialTableRow>) -> Seq<(Seq<char>, Seq<Seq<char>>, bool)> {
    v.map_values(|r: FinancialTableRow| row_view(r))
}

fn parse_cells(row: &[char]) -> (r: Vec<Vec<char>>)
    ensures
        r@.map_values(|c: Vec<char>| c@) == cells_from(row@, 0),
{
    let open_td = chars_of("<td");
    let gt = chars_of(">");
    let close_td = chars_of("</td>");
    let mut cells: Vec<Vec<char>> = Vec::new();
    let mut q: usize = 0;
    loop
        invariant
            q <= row.len(),
            open_td@ == "<td"@,
            gt@ == ">"@,
            close_td@ == "</td>"@,
            cells_from(row@, 0) == cells@.map_values(|c: Vec<char>| c@) + cells_from(
                row@,
                q as int,
            ),
        decreases row.len() - q,
    {
        let i = match find_from_exec(row, open_td.as_slice(), q) {
            Some(i) => i,
            None => {
                assert(cells@.map_values(|c: Vec<char>| c@) + Seq::<Seq<char>>::empty()
                    =~= cells@.map_values(|c: Vec<char>| c@));
                return cells;
            },
        };
        proof {
            lemma_find_from_some(row@, open_td@, q as int);
        }
        let g = match find_from_exec(row, gt.as_slice(), i) {
            Some(g) => g,
            None => {
                assert(cells@.map_values(|c: Vec<char>| c@) + Seq::<Seq<char>>::empty()
                    =~= cells@.map_values(|c: Vec<char>| c@));
                return cells;
            },
        };
        proof {
            lemma_find_from_some(row@, gt@, i as int);
            reveal_strlit(">");
        }
        let e = match find_from_exec(row, close_td.as_slice(), g + 1) {
            Some(e) => e,
            None => {
                assert(cells@.map_values(|c: Vec<char>| c@) + Seq::<Seq<char>>::empty()
                    =~= cells@.map_values(|c: Vec<char>| c@));
                return cells;
            },
        };
        proof {
            lemma_find_from_some(row@, close_td@, (g + 1) as int);
        }
        let c = slice_chars(row, g + 1, e);
        let ghost prev = cells@;
        cells.push(c);
        assert(cells@.map_values(|c: Vec<char>| c@) =~= prev.map_values(|c: Vec<char>| c@).push(
            c@,
        ));
        assert(prev.map_values(|c: Vec<char>| c@) + (seq![c@] + cells_from(row@, e as int))
            =~= cells@.map_values(|c: Vec<char>| c@) + cells_from(row@, e as int));
        q = e;
    }
}

fn any_ends_with_percent(values: &Vec<String>) -> (r: bool)
    ensures
        r == exists|k: int|
            0 <= k < views_of(values@).len() && is_suffix("%"@, #[trigger] views_of(values@)[k]),
{
    let mut k: usize = 0;
    while k < values.len()
        invariant
            k <= values.len(),
            forall|j: int| 0 <= j < k ==> !is_suffix("%"@, #[trigger] views_of(values@)[j]),
        decreases values.len() - k,
    {
        let v = chars_of(values[k].as_str());
        if crate::text::ends_with_str(v.as_slice(), "%") {
            assert(views_of(values@)[k as int] == v@);
            return true;
        }
        assert(views_of(values@)[k as int] == v@);
        k += 1;
    }
    false
}

fn parse_row(row: &[char], n: usize) -> (r: Option<FinancialTableRow>)
    ensures
        r matches Some(x) ==> row_of(row@, n as nat) == Some(row_view(x)),
        r is None ==> row_of(row@, n as nat) is None,
{
    let lc = chars_of("<td class=\"text\">");
    let close_td = chars_of("</td>");
    let ls = match find_from_exec(row, lc.as_slice(), 0) {
        Some(ls) => ls,
        None => return None,
    };
    proof {
        lemma_find_from_some(row@, lc@, 0);
        assert(occurs_at(row@, lc@, ls as int));
        assert(ls + lc@.len() <= row@.len());
        assert(row@.len() == row.len());
    }
    let lh = ls + lc.len();
    let le = match find_from_exec(row, close_td.as_slice(), lh) {
        Some(le) => le,
        None => return None,
    };
    proof {
        lemma_find_from_some(row@, close_td@, lh as int);
        assert(occurs_at(row@, close_td@, le as int));
    }
    let label = strip_html(slice_chars(row, lh, le).as_slice());
    if label.len() == 0 {
        return None;
    }
    let rest = slice_chars(row, le + close_td.len(), row.len());
    let cells = parse_cells(rest.as_slice());
    proof {
        lemma_cells_shift(row@, le + close_td@.len());
    }
    let ghost raw = cells@.map_values(|c: Vec<char>| c@);
    let mut values: Vec<String> = Vec::new();
    let mut k: usize = 0;
    while k < cells.len()
        invariant
            k <= cells.len(),
            raw == cells@.map_values(|c: Vec<char>| c@),
            views_of(values@) == raw.take(k as int).map_values(|c: Seq<char>| cell_text(c)),
        decreases cells.len() - k,
    {
        let t = strip_html(cells[k].as_slice());
        let ghost prev = values@;
        values.push(string_from_chars(t.as_slice()));
        assert(raw[k as int] == cells@[k as int]@);
        assert(views_of(values@) =~= views_of(prev).push(t@));
        k += 1;
        assert(raw.take(k as int) =~= raw.take(k - 1).push(raw[k - 1]));
        assert(views_of(values@) =~= raw.take(k as int).map_values(|c: Seq<char>| cell_text(c)));
    }
    assert(raw.take(raw.len() as int) =~= raw);
    let ghost texts = views_of(values@);
    if values.len() < n {
        while values.len() < n
            invariant
                texts.len() <= values@.len() <= n,
                views_of(values@) == texts + Seq::new(
                    (values@.len() - texts.len()) as nat,
                    |j: int| "—"@,
                ),
            decreases n - values.len(),
        {
            let ghost prev = values@;
            values.push(string_of("—"));
            assert(views_of(values@) =~= views_of(prev).push("—"@));
            assert(views_of(values@) =~= texts + Seq::new(
                (values@.len() - texts.len()) as nat,
                |j: int| "—"@,
            ));
        }
    } else {
        values.truncate(n);
        assert(views_of(values@) =~= texts.take(n as int));
    }
    let label_chars = label;
    let is_pct = any_ends_with_percent(&values) || crate::text::contains_str(
        label_chars.as_slice(),
        "%",
    );
    Some(FinancialTableRow { label: string_from_chars(label_chars.as_slice()), values, is_pct })
}

/// Cells found in a tail of the row are the cells found from that offset in the row.
proof fn lemma_cells_shift(row: Seq<char>, off: int)
    requires
        0 <= off <= row.len(),
    ensures
        cells_from(row.skip(off), 0) == cells_from(row, off),
{
    lemma_cells_shift_from(row, off, 0);
}

proof fn lemma_find_shift(s: Seq<char>, p: Seq<char>, off: int, q: int)
    requires
        0 <= off <= s.len(),
        0 <= q,
    ensures
        find_from(s.skip(off), p, q) matches Some(i) ==> find_from(s, p, off + q) == Some(
            i + off,
        ),
        find_from(s.skip(off), p, q) is None ==> find_from(s, p, off + q) is None,
    decreases s.len() - off - q,
{
    let t = s.skip(off);
    if q + p.len() > t.len() {
    } else {
        assert(occurs_at(t, p, q) == occurs_at(s, p, off + q)) by {
            assert(t.subrange(q, q + p.len()) =~= s.subrange(off + q, off + q + p.len()));
        }
        if !occurs_at(t, p, q) {
            if p.len() == 0 {
                assert(t.subrange(q, q) =~= p);
            }
            lemma_find_shift(s, p, off, q + 1);
        }
    }
}

proof fn lemma_cells_shift_from(row: Seq<char>, off: int, q: int)
    requires
        0 <= off <= row.len(),
        0 <= q <= row.len() - off,
    ensures
        cells_from(row.skip(off), q) == cells_from(row, off + q),
    decreases row.len() - off - q,
{
    let t = row.skip(off);
    lemma_find_shift(row, "<td"@, off, q);
    match find_from(t, "<td"@, q) {
        None => {},
        Some(i) => {
            lemma_find_from_some(t, "<td"@, q);
            lemma_find_shift(row, ">"@, off, i);
            match find_from(t, ">"@, i) {
                None => {},
                Some(g) => {
                    lemma_find_from_some(t, ">"@, i);
                    lemma_find_shift(row, "</td>"@, off, g + 1);
                    match find_from(t, "</td>"@, g + 1) {
                        None => {},
                        Some(e) => {
                            lemma_find_from_some(t, "</td>"@, g + 1);
                            assert(t.subrange(g + 1, e) =~= row.subrange(off + g + 1, off + e));
                            if e > q {
                                lemma_cells_shift_from(row, off, e);
                            }
                        },
                    }
                },
            }
        },
    }
}

fn parse_table_rows(table: &[char], n_periods: usize) -> (r: Vec<FinancialTableRow>)
    ensures
        row_views(r@) == rows_from(table@, 0, n_periods as nat),
{
    let open_tr = chars_of("<tr");
    let close_tr = chars_of("</tr>");
    proof {
        reveal_strlit("</tr>");
    }
    let mut rows: Vec<FinancialTableRow> = Vec::new();
    let mut p: usize = 0;
    loop
        invariant
            p <= table.len(),
            open_tr@ == "<tr"@,
            close_tr@ == "</tr>"@,
            close_tr@.len() == 5,
            rows_from(table@, 0, n_periods as nat) == row_views(rows@) + rows_from(
                table@,
                p as int,
                n_periods as nat,
            ),
        decreases table.len() - p,
    {
        let i = match find_from_exec(table, open_tr.as_slice(), p) {
            Some(i) => i,
            None => {
                assert(row_views(rows@) + Seq::<(Seq<char>, Seq<Seq<char>>, bool)>::empty()
                    =~= row_views(rows@));
                return rows;
            },
        };
        proof {
            lemma_find_from_some(table@, open_tr@, p as int);
        }
        let re = match find_from_exec(table, close_tr.as_slice(), i) {
            Some(re) => re,
            None => {
                assert(row_views(rows@) + Seq::<(Seq<char>, Seq<Seq<char>>, bool)>::empty()
                    =~= row_views(rows@));
                return rows;
            },
        };
        proof {
            lemma_find_from_some(table@, close_tr@, i as int);
        }
        let row = slice_chars(table, i, re);
        let next = re + close_tr.len();
        let ghost prev = rows@;
        match parse_row(row.as_slice(), n_periods) {
            Some(x) => {
                rows.push(x);
                assert(row_views(rows@) =~= row_views(prev).push(row_view(x)));
                assert(row_views(prev) + (seq![row_view(x)] + rows_from(
                    table@,
                    next as int,
                    n_periods as nat,
                )) =~= row_views(rows@) + rows_from(table@, next as int, n_periods as nat));
            },
            None => {},
        }
        p = next;
    }
}

/// The parsed view of a section: period dates, rows, unit and source.
pub open spec fn section_view(html: Seq<char>, section_id: Seq<char>, source: Seq<char>) -> (
    Seq<Seq<char>>,
    Seq<(Seq<char>, Seq<Seq<char>>, bool)>,
    Seq<char>,
    Seq<char>,
) {
    match section_table(html, section_id) {
        None => (Seq::empty(), Seq::empty(), Seq::empty(), source),
        Some(t) => {
            let dates = dates_from(t, 0);
            (dates, rows_from(t, 0, dates.len()), "Rs. Crores"@, source)
        },
    }
}

/// The view of a parsed table.
pub open spec fn table_view(t: FinancialTable) -> (
    Seq<Seq<char>>,
    Seq<(Seq<char>, Seq<Seq<char>>, bool)>,
    Seq<char>,
    Seq<char>,
) {
    (views_of(t.period_dates@), row_views(t.rows@), t.unit@, t.source@)
}

/// Parse the `data-table` of one Screener.in page section (`quarters`, `profit-loss`, …).
pub fn parse_section(html: &str, section_id: &str, source: &str) -> (r: FinancialTable)
    ensures
        table_view(r) == section_view(html@, section_id@, source@),
{
    let h = chars_of(html);
    match find_section_table(h.as_slice(), section_id) {
        None => {
            let r = FinancialTable {
                period_dates: Vec::new(),
                rows: Vec::new(),
                unit: String::new(),
                source: string_of(source),
            };
            assert(views_of(r.period_dates@) =~= Seq::<Seq<char>>::empty());
            assert(row_views(r.rows@) =~= Seq::<(Seq<char>, Seq<Seq<char>>, bool)>::empty());
            r
        },
        Some(table) => {
            let period_dates = parse_period_dates(table.as_slice());
            let rows = parse_table_rows(table.as_slice(), period_dates.len());
            FinancialTable {
                period_dates,
                rows,
                unit: string_of("Rs. Crores"),
                source: string_of(source),
            }
        },
    }
}

/// The Screener.in company name: the trimmed, upper-cased base symbol.
pub open spec fn screener_base(base_symbol: Seq<char>) -> Seq<char> {
    crate::text::unicode_upper(trim(base_symbol))
}

/// The company pages tried in turn (consolidated first); none for a blank symbol.
pub open spec fn screener_pages(base_symbol: Seq<char>) -> Seq<Seq<char>> {
    let base = screener_base(base_symbol);
    if base.len() == 0 {
        Seq::empty()
    } else {
        seq![
            "https://www.screener.in/company/"@ + base + "/consolidated/"@,
            "https://www.screener.in/company/"@ + base + "/"@,
        ]
    }
}

fn screener_base_exec(base_symbol: &str) -> (r: Vec<char>)
    ensures
        r@ == screener_base(base_symbol@),
{
    crate::text::upper_chars(crate::text::trim_str(base_symbol).as_slice())
}

/// The company pages to fetch for `base_symbol`, consolidated first.
pub fn screener_page_urls(base_symbol: &str) -> (r: Vec<String>)
    ensures
        r@.map_values(|u: String| u@) == screener_pages(base_symbol@),
{
    let base = screener_base_exec(base_symbol);
    let mut out: Vec<String> = Vec::new();
    if base.len() == 0 {
        assert(out@.map_values(|u: String| u@) =~= screener_pages(base_symbol@));
        return out;
    }
    let mut a = string_of("https://www.screener.in/company/");
    push_chars(&mut a, base.as_slice());
    crate::text::push_str(&mut a, "/consolidated/");
    let mut b = string_of("https://www.screener.in/company/");
    push_chars(&mut b, base.as_slice());
    crate::text::push_str(&mut b, "/");
    out.push(a);
    out.push(b);
    assert(out@.map_values(|u: String| u@) =~= screener_pages(base_symbol@));
    out
}

/// A fetched company page is used only when it holds a data table.
pub fn screener_page_usable(html: &str) -> (r: bool)
    ensures
        r == contains_seq(html@, "data-table"@),
{
    crate::text::contains_str(chars_of(html).as_slice(), "data-table")
}

/// The view of the four Screener.in tables.
pub open spec fn screener_view(f: crate::models::ScreenerFinancials) -> Seq<
    (Seq<Seq<char>>, Seq<(Seq<char>, Seq<Seq<char>>, bool)>, Seq<char>, Seq<char>),
> {
    seq![
        table_view(f.quarterly),
        table_view(f.profit_loss),
        table_view(f.balance_sheet),
        table_view(f.cash_flow),
    ]
}

/// The empty table.
pub open spec fn empty_table_view() -> (
    Seq<Seq<char>>,
    Seq<(Seq<char>, Seq<Seq<char>>, bool)>,
    Seq<char>,
    Seq<char>,
) {
    (Seq::empty(), Seq::empty(), Seq::empty(), Seq::empty())
}

fn empty_table() -> (r: FinancialTable)
    ensures
        table_view(r) == empty_table_view(),
{
    let r = FinancialTable {
        period_dates: Vec::new(),
        rows: Vec::new(),
        unit: String::new(),
        source: String::new(),
    };
    assert(views_of(r.period_dates@) =~= Seq::<Seq<char>>::empty());
    assert(row_views(r.rows@) =~= Seq::<(Seq<char>, Seq<Seq<char>>, bool)>::empty());
    r
}

/// The four tables of a company page: quarterly results, profit & loss, balance sheet
/// and cash flow; all empty for a blank symbol or when no page could be used.
pub fn screener_financials_from_page(base_symbol: &str, html: Option<&str>) -> (r:
    crate::models::ScreenerFinancials)
    ensures
        ({
            let base = screener_base(base_symbol@);
            let src = "Screener.in /company/"@ + base + "/consolidated"@;
            screener_view(r) == if base.len() == 0 || html is None {
                seq![empty_table_view(), empty_table_view(), empty_table_view(), empty_table_view()]
            } else {
                seq![
                    section_view(html->0@, "quarters"@, src),
                    section_view(html->0@, "profit-loss"@, src),
                    section_view(html->0@, "balance-sheet"@, src),
                    section_view(html->0@, "cash-flow"@, src),
                ]
            }
        }),
{
    let base = screener_base_exec(base_symbol);
    let page = match html {
        Some(h) => h,
        None => {
            return crate::models::ScreenerFinancials {
                quarterly: empty_table(),
                profit_loss: empty_table(),
                balance_sheet: empty_table(),
                cash_flow: empty_table(),
            };
        },
    };
    if base.len() == 0 {
        return crate::models::ScreenerFinancials {
            quarterly: empty_table(),
            profit_loss: empty_table(),
            balance_sheet: empty_table(),
            cash_flow: empty_table(),
        };
    }
    let mut src = string_of("Screener.in /company/");
    push_chars(&mut src, base.as_slice());
    crate::text::push_str(&mut src, "/consolidated");
    crate::models::ScreenerFinancials {
        quarterly: parse_section(page, "quarters", src.as_str()),
        profit_loss: parse_section(page, "profit-loss", src.as_str()),
        balance_sheet: parse_section(page, "balance-sheet", src.as_str()),
        cash_flow: parse_section(page, "cash-flow", src.as_str()),
    }
}

} // verus!
