//! Remote data policy.
//!
//! Market data must never come from NSE, BSE or registrar APIs, nor from scraping
//! exchange websites. Universe symbol lists come from local CSV files; live market
//! and statement data come from Yahoo Finance endpoints only.

use vstd::prelude::*;

use crate::error::{forbidden_source_text, StockerError};
use crate::text::{
    ascii_lower_chars, ascii_lower_seq, chars_eq_str, chars_of, contains_seq, contains_str,
    ends_with_str, find_from, find_from_exec, is_suffix, push_str, slice_chars, string_of,
};

verus! {

/// Some exchange or registrar host fragment occurs in the lower-cased URL.
pub open spec fn has_forbidden_fragment(lower: Seq<char>) -> bool {
    contains_seq(lower, "nseindia"@) || contains_seq(lower, "bseindia"@) || contains_seq(
        lower,
        "nsdl.co.in"@,
    ) || contains_seq(lower, "cdslindia"@) || contains_seq(lower, "nsearchives"@)
        || contains_seq(lower, "api-nse"@)
}

/// Where the authority of a URL starts: after its first `://`, else at its start.
pub open spec fn authority_start(s: Seq<char>) -> int {
    match find_from(s, "://"@, 0) {
        Some(i) => i + 3,
        None => 0,
    }
}

/// The first offset at or after `i` holding `/`, `?` or `#` (the end of the authority),
/// else the length.
pub open spec fn authority_end(s: Seq<char>, i: int) -> int
    decreases s.len() - i,
{
    if i < 0 || i >= s.len() {
        s.len() as int
    } else if s[i] == '/' || s[i] == '?' || s[i] == '#' {
        i
    } else {
        authority_end(s, i + 1)
    }
}

/// The last offset of `c` in `s`.
pub open spec fn last_index_of(s: Seq<char>, c: char) -> Option<int>
    decreases s.len(),
{
    if s.len() == 0 {
        None
    } else if s.last() == c {
        Some(s.len() - 1)
    } else {
        last_index_of(s.drop_last(), c)
    }
}

/// The first offset at or after `i` holding `c`, else the length.
pub open spec fn first_index_of(s: Seq<char>, c: char, i: int) -> int
    decreases s.len() - i,
{
    if i < 0 || i >= s.len() {
        s.len() as int
    } else if s[i] == c {
        i
    } else {
        first_index_of(s, c, i + 1)
    }
}

/// The host of a URL: its authority without user information (up to the last `@`) and
/// without a port (from the first `:`).
pub open spec fn url_host(s: Seq<char>) -> Seq<char> {
    let start = authority_start(s);
    let authority = s.subrange(start, authority_end(s, start));
    let host_port = match last_index_of(authority, '@') {
        Some(k) => authority.skip(k + 1),
        None => authority,
    };
    host_port.take(first_index_of(host_port, ':', 0))
}

/// A Yahoo host: `yahoo.com` itself or one of its subdomains.
pub open spec fn yahoo_host(host: Seq<char>) -> bool {
    host == "yahoo.com"@ || is_suffix(".yahoo.com"@, host)
}

/// The verdict on `url`: `Ok` when it may be fetched (a Yahoo host, and no exchange or
/// registrar fragment anywhere in it), else the refusal text.
pub open spec fn url_verdict(url: Seq<char>) -> Result<(), Seq<char>> {
    let lower = ascii_lower_seq(url);
    if has_forbidden_fragment(lower) {
        Err("blocked exchange/registrar host in URL (use local CSV + Yahoo only): "@ + url)
    } else if !yahoo_host(url_host(lower)) {
        Err("only Yahoo Finance URLs are permitted for remote market data: "@ + url)
    } else {
        Ok(())
    }
}

fn authority_end_exec(s: &[char], start: usize) -> (r: usize)
    requires
        start <= s.len(),
    ensures
        r == authority_end(s@, start as int),
        start <= r <= s.len(),
{
    let mut i = start;
    while i < s.len()
        invariant
            start <= i <= s.len(),
            authority_end(s@, start as int) == authority_end(s@, i as int),
        decreases s.len() - i,
    {
        if s[i] == '/' || s[i] == '?' || s[i] == '#' {
            return i;
        }
        i = i + 1;
    }
    i
}

fn last_index_of_exec(s: &[char], c: char) -> (r: Option<usize>)
    ensures
        r matches Some(k) ==> last_index_of(s@, c) == Some(k as int) && k < s.len(),
        r is None ==> last_index_of(s@, c) is None,
{
    let mut last: Option<usize> = None;
    let mut i: usize = 0;
    while i < s.len()
        invariant
            i <= s.len(),
            last matches Some(k) ==> last_index_of(s@.take(i as int), c) == Some(k as int) && k < i,
            last is None ==> last_index_of(s@.take(i as int), c) is None,
        decreases s.len() - i,
    {
        assert(s@.take(i + 1).drop_last() =~= s@.take(i as int));
        if s[i] == c {
            last = Some(i);
        }
        i = i + 1;
    }
    assert(s@.take(s@.len() as int) =~= s@);
    last
}

fn first_index_of_exec(s: &[char], c: char) -> (r: usize)
    ensures
        r == first_index_of(s@, c, 0),
        r <= s.len(),
{
    let mut i: usize = 0;
    while i < s.len()
        invariant
            i <= s.len(),
            first_index_of(s@, c, 0) == first_index_of(s@, c, i as int),
        decreases s.len() - i,
    {
        if s[i] == c {
            return i;
        }
        i = i + 1;
    }
    i
}

fn url_host_exec(s: &[char]) -> (r: Vec<char>)
    ensures
        r@ == url_host(s@),
{
    let sep = chars_of("://");
    let start = match find_from_exec(s, sep.as_slice(), 0) {
        Some(i) => {
            proof {
                reveal_strlit("://");
                assert("://"@.len() == 3);
                assert(sep@ == "://"@);
                lemma_find_in_range(s@, "://"@, 0);
                assert(i + 3 <= s@.len());
                assert(s@.len() == s.len());
            }
            i + 3
        },
        None => 0,
    };
    let end = authority_end_exec(s, start);
    let authority = slice_chars(s, start, end);
    let host_port = match last_index_of_exec(authority.as_slice(), '@') {
        Some(k) => slice_chars(authority.as_slice(), k + 1, authority.len()),
        None => slice_chars(authority.as_slice(), 0, authority.len()),
    };
    proof {
        assert(authority@.subrange(0, authority@.len() as int) =~= authority@);
        assert(authority@.subrange(authority@.len() as int, authority@.len() as int) =~= authority@.skip(authority@.len() as int));
    }
    let colon = first_index_of_exec(host_port.as_slice(), ':');
    slice_chars(host_port.as_slice(), 0, colon)
}

proof fn lemma_find_in_range(s: Seq<char>, p: Seq<char>, from: int)
    requires
        0 <= from,
        p.len() > 0,
    ensures
        find_from(s, p, from) matches Some(i) ==> from <= i && i + p.len() <= s.len(),
    decreases s.len() - from,
{
    if from < s.len() && from + p.len() <= s.len() && !crate::text::occurs_at(s, p, from) {
        lemma_find_in_range(s, p, from + 1);
    }
}

proof fn lemma_authority_end_range(s: Seq<char>, i: int)
    requires
        0 <= i <= s.len(),
    ensures
        i <= authority_end(s, i) <= s.len(),
    decreases s.len() - i,
{
    if i < s.len() && !(s[i] == '/' || s[i] == '?' || s[i] == '#') {
        lemma_authority_end_range(s, i + 1);
    }
}

proof fn lemma_last_index_range(s: Seq<char>, c: char)
    ensures
        last_index_of(s, c) matches Some(k) ==> 0 <= k < s.len(),
    decreases s.len(),
{
    if s.len() > 0 && s.last() != c {
        lemma_last_index_range(s.drop_last(), c);
    }
}

proof fn lemma_first_index_range(s: Seq<char>, c: char, i: int)
    requires
        0 <= i <= s.len(),
    ensures
        i <= first_index_of(s, c, i) <= s.len(),
    decreases s.len() - i,
{
    if i < s.len() && s[i] != c {
        lemma_first_index_range(s, c, i + 1);
    }
}

/// The host of a URL is a stretch of the URL itself.
pub proof fn lemma_host_is_part_of_url(s: Seq<char>)
    ensures
        exists|a: int, b: int| 0 <= a <= b <= s.len() && url_host(s) == s.subrange(a, b),
{
    reveal_strlit("://");
    assert("://"@.len() == 3);
    lemma_find_in_range(s, "://"@, 0);
    let start = authority_start(s);
    assert(0 <= start <= s.len());
    lemma_authority_end_range(s, start);
    let end = authority_end(s, start);
    let authority = s.subrange(start, end);
    lemma_last_index_range(authority, '@');
    let from = match last_index_of(authority, '@') {
        Some(k) => start + k + 1,
        None => start,
    };
    let host_port = match last_index_of(authority, '@') {
        Some(k) => authority.skip(k + 1),
        None => authority,
    };
    assert(host_port =~= s.subrange(from, end));
    lemma_first_index_range(host_port, ':', 0);
    let stop = from + first_index_of(host_port, ':', 0);
    assert(url_host(s) =~= s.subrange(from, stop));
}

fn has_forbidden_fragment_exec(lower: &[char]) -> (r: bool)
    ensures
        r == has_forbidden_fragment(lower@),
{
    contains_str(lower, "nseindia") || contains_str(lower, "bseindia") || contains_str(
        lower,
        "nsdl.co.in",
    ) || contains_str(lower, "cdslindia") || contains_str(lower, "nsearchives") || contains_str(
        lower,
        "api-nse",
    )
}

/// Validate that `url` is an allowed Yahoo Finance endpoint (not NSE/BSE/registrar).
pub fn assert_yahoo_finance_url(url: &str) -> (r: Result<(), StockerError>)
    ensures
        r is Ok <==> url_verdict(url@) is Ok,
        r matches Err(e) ==> url_verdict(url@) == Err::<(), Seq<char>>(
            forbidden_source_text(e)->0,
        ) && forbidden_source_text(e) is Some,
{
    let lower = ascii_lower_chars(chars_of(url).as_slice());
    if has_forbidden_fragment_exec(lower.as_slice()) {
        let mut msg = string_of(
            "blocked exchange/registrar host in URL (use local CSV + Yahoo only): ",
        );
        push_str(&mut msg, url);
        return Err(StockerError::ForbiddenDataSource(msg));
    }
    let host = url_host_exec(lower.as_slice());
    if !(chars_eq_str(host.as_slice(), "yahoo.com") || ends_with_str(host.as_slice(), ".yahoo.com")) {
        let mut msg = string_of("only Yahoo Finance URLs are permitted for remote market data: ");
        push_str(&mut msg, url);
        return Err(StockerError::ForbiddenDataSource(msg));
    }
    Ok(())
}

} // verus!
