//! Character-sequence helpers shared by the parsers and classifiers.
//!
//! Strings are handled as sequences of `char` (`s@`), so every offset below
//! counts characters.

use vstd::prelude::*;

verus! {

broadcast use vstd::string::group_string_axioms;

/// Whether `c` carries the Unicode `White_Space` property (the code points that the
/// Unicode Character Database's PropList.txt lists), as `char::is_whitespace` reports.
pub open spec fn unicode_white_space(c: char) -> bool {
    let u = c as u32;
    (9 <= u && u <= 13) || u == 32 || u == 0x85 || u == 0xA0 || u == 0x1680 || (0x2000 <= u
        && u <= 0x200A) || u == 0x2028 || u == 0x2029 || u == 0x202F || u == 0x205F || u == 0x3000
}

/// Every character is ASCII.
pub open spec fn ascii_text(s: Seq<char>) -> bool {
    forall|i: int| 0 <= i < s.len() ==> (#[trigger] s[i] as u32) < 128
}

/// ASCII upper-case mapping of one character (`char::to_ascii_uppercase`).
pub open spec fn ascii_upper(c: char) -> char {
    if 'a' <= c && c <= 'z' {
        ((c as u32) - 32) as char
    } else {
        c
    }
}

/// ASCII upper-case mapping of every character.
pub open spec fn ascii_upper_seq(s: Seq<char>) -> Seq<char> {
    s.map_values(|c: char| ascii_upper(c))
}

/// The characters of `str::to_uppercase` applied to a string that is not all ASCII.
pub uninterp spec fn unicode_upper_mapping(s: Seq<char>) -> Seq<char>;

/// The characters of `str::to_lowercase` applied to a string that is not all ASCII.
pub uninterp spec fn unicode_lower_mapping(s: Seq<char>) -> Seq<char>;

/// The characters of `str::to_uppercase` applied to `s`: on ASCII text the ASCII
/// mapping (`a`–`z` to `A`–`Z`, every other character unchanged).
pub open spec fn unicode_upper(s: Seq<char>) -> Seq<char> {
    if ascii_text(s) {
        ascii_upper_seq(s)
    } else {
        unicode_upper_mapping(s)
    }
}

/// The characters of `str::to_lowercase` applied to `s`: on ASCII text the ASCII
/// mapping (`A`–`Z` to `a`–`z`, every other character unchanged).
pub open spec fn unicode_lower(s: Seq<char>) -> Seq<char> {
    if ascii_text(s) {
        ascii_lower_seq(s)
    } else {
        unicode_lower_mapping(s)
    }
}

/// Whether `c` has the Unicode `White_Space` property, as `char::is_whitespace`
/// documents it.
pub(crate) fn char_is_whitespace(c: char) -> (b: bool)
    ensures
        b == unicode_white_space(c),
{
    let u = c as u32;
    (9 <= u && u <= 13) || u == 32 || u == 0x85 || u == 0xA0 || u == 0x1680 || (0x2000 <= u && u
        <= 0x200A) || u == 0x2028 || u == 0x2029 || u == 0x202F || u == 0x205F || u == 0x3000
}

/// Calls `str::to_uppercase`; the contract claims that the result is a function of
/// the input characters (the Unicode case mapping), which on ASCII text maps `a`–`z`
/// to `A`–`Z` and leaves every other character as it is.
#[verifier::external_body]
pub(crate) fn str_to_uppercase(s: &str) -> (r: String)
    ensures
        r@ == unicode_upper(s@),
        !ascii_text(s@) ==> r@ == unicode_upper_mapping(s@),
{
    s.to_uppercase()
}

/// Calls `str::to_lowercase`; the contract claims that the result is a function of
/// the input characters (the Unicode case mapping), which on ASCII text maps `A`–`Z`
/// to `a`–`z` and leaves every other character as it is.
#[verifier::external_body]
pub(crate) fn str_to_lowercase(s: &str) -> (r: String)
    ensures
        r@ == unicode_lower(s@),
        !ascii_text(s@) ==> r@ == unicode_lower_mapping(s@),
{
    s.to_lowercase()
}

/// Calls `String::push`; the contract claims the character is appended at the end.
#[verifier::external_body]
pub(crate) fn string_push(s: &mut String, c: char)
    ensures
        final(s)@ == old(s)@.push(c),
{
    s.push(c)
}

// ---------------------------------------------------------------------------
// Specifications
// ---------------------------------------------------------------------------

/// `p` is a prefix of `s`.
pub open spec fn is_prefix(p: Seq<char>, s: Seq<char>) -> bool {
    p.len() <= s.len() && s.take(p.len() as int) == p
}

/// `p` is a suffix of `s`.
pub open spec fn is_suffix(p: Seq<char>, s: Seq<char>) -> bool {
    p.len() <= s.len() && s.skip(s.len() - p.len()) == p
}

/// `p` occurs in `s` starting at offset `i`.
pub open spec fn occurs_at(s: Seq<char>, p: Seq<char>, i: int) -> bool {
    0 <= i && i + p.len() <= s.len() && s.subrange(i, i + p.len()) == p
}

/// `p` occurs somewhere in `s`.
pub open spec fn contains_seq(s: Seq<char>, p: Seq<char>) -> bool {
    exists|i: int| occurs_at(s, p, i)
}

/// The first offset at or after `from` where `p` occurs in `s`.
pub open spec fn find_from(s: Seq<char>, p: Seq<char>, from: int) -> Option<int>
    decreases s.len() - from,
{
    if from < 0 || from + p.len() > s.len() {
        None
    } else if occurs_at(s, p, from) {
        Some(from)
    } else {
        proof {
            if p.len() == 0 {
                assert(s.subrange(from, from + p.len()) =~= p);
            }
        }
        find_from(s, p, from + 1)
    }
}

/// `s` without its leading white space.
pub open spec fn trim_start(s: Seq<char>) -> Seq<char>
    decreases s.len(),
{
    if s.len() > 0 && unicode_white_space(s[0]) {
        trim_start(s.drop_first())
    } else {
        s
    }
}

/// `s` without its trailing white space.
pub open spec fn trim_end(s: Seq<char>) -> Seq<char>
    decreases s.len(),
{
    if s.len() > 0 && unicode_white_space(s.last()) {
        trim_end(s.drop_last())
    } else {
        s
    }
}

/// `s` without leading and trailing white space (`str::trim`).
pub open spec fn trim(s: Seq<char>) -> Seq<char> {
    trim_end(trim_start(s))
}

/// Some character of `s` is white space.
pub open spec fn has_white_space(s: Seq<char>) -> bool {
    exists|i: int| 0 <= i < s.len() && unicode_white_space(s[i])
}

/// ASCII lower-case mapping of one character (`char::to_ascii_lowercase`).
pub open spec fn ascii_lower(c: char) -> char {
    if 'A' <= c && c <= 'Z' {
        ((c as u32) + 32) as char
    } else {
        c
    }
}

/// ASCII lower-case mapping of a sequence.
pub open spec fn ascii_lower_seq(s: Seq<char>) -> Seq<char> {
    s.map_values(|c: char| ascii_lower(c))
}

/// ASCII case-insensitive equality (`eq_ignore_ascii_case`).
pub open spec fn eq_ignore_ascii_case(a: Seq<char>, b: Seq<char>) -> bool {
    ascii_lower_seq(a) == ascii_lower_seq(b)
}

// ---------------------------------------------------------------------------
// Lemmas
// ---------------------------------------------------------------------------

pub proof fn lemma_trim_start_skip(s: Seq<char>, i: int)
    requires
        0 <= i <= s.len(),
        forall|j: int| 0 <= j < i ==> unicode_white_space(s[j]),
    ensures
        trim_start(s) == trim_start(s.skip(i)),
    decreases i,
{
    if i > 0 {
        assert(s.skip(1) =~= s.drop_first());
        lemma_trim_start_skip(s.drop_first(), i - 1);
        assert(s.drop_first().skip(i - 1) =~= s.skip(i));
    } else {
        assert(s.skip(0) =~= s);
    }
}

pub proof fn lemma_trim_end_take(s: Seq<char>, i: int)
    requires
        0 <= i <= s.len(),
        forall|j: int| i <= j < s.len() ==> unicode_white_space(s[j]),
    ensures
        trim_end(s) == trim_end(s.take(i)),
    decreases s.len() - i,
{
    if i < s.len() {
        assert(s.take(s.len() - 1) =~= s.drop_last());
        lemma_trim_end_take(s.drop_last(), i);
        assert(s.drop_last().take(i) =~= s.take(i));
    } else {
        assert(s.take(s.len() as int) =~= s);
    }
}

/// Trimming twice is trimming once.
pub proof fn lemma_trim_idempotent(s: Seq<char>)
    ensures
        trim(trim(s)) == trim(s),
{
    let a = trim_start(s);
    lemma_trim_start_fixed(s);
    lemma_trim_end_keeps_start(a);
    lemma_trim_end_fixed(a);
}

pub proof fn lemma_trim_start_fixed(s: Seq<char>)
    ensures
        trim_start(s).len() == 0 || !unicode_white_space(trim_start(s)[0]),
        trim_start(trim_start(s)) == trim_start(s),
    decreases s.len(),
{
    if s.len() > 0 && unicode_white_space(s[0]) {
        lemma_trim_start_fixed(s.drop_first());
    }
}

pub proof fn lemma_trim_end_fixed(s: Seq<char>)
    ensures
        trim_end(s).len() == 0 || !unicode_white_space(trim_end(s).last()),
        trim_end(trim_end(s)) == trim_end(s),
    decreases s.len(),
{
    if s.len() > 0 && unicode_white_space(s.last()) {
        lemma_trim_end_fixed(s.drop_last());
    }
}

/// `trim_end` keeps a prefix; when the start had no leading white space, neither does the result.
pub proof fn lemma_trim_end_keeps_start(s: Seq<char>)
    requires
        s.len() == 0 || !unicode_white_space(s[0]),
    ensures
        trim_end(s).len() <= s.len(),
        trim_end(s) == s.take(trim_end(s).len() as int),
        trim_start(trim_end(s)) == trim_end(s),
    decreases s.len(),
{
    if s.len() > 0 && unicode_white_space(s.last()) {
        lemma_trim_end_keeps_start(s.drop_last());
        let t = trim_end(s.drop_last());
        assert(s.drop_last().take(t.len() as int) =~= s.take(t.len() as int));
        if t.len() > 0 {
            assert(t[0] == s[0]);
        }
    } else {
        assert(s.take(s.len() as int) =~= s);
    }
}

// ---------------------------------------------------------------------------
// Executable helpers
// ---------------------------------------------------------------------------

/// The characters of `s`, in order.
pub fn chars_of(s: &str) -> (v: Vec<char>)
    ensures
        v@ == s@,
{
    let mut v: Vec<char> = Vec::new();
    for c in it: s.chars()
        invariant
            it.seq() == s@,
            v@ == s@.take(it.index() as int),
    {
        v.push(c);
    }
    assert(s@.take(s@.len() as int) =~= s@);
    v
}

/// A `String` holding exactly the characters `v`.
pub fn string_from_chars(v: &[char]) -> (s: String)
    ensures
        s@ == v@,
{
    let mut s = String::new();
    let mut i: usize = 0;
    while i < v.len()
        invariant
            i <= v.len(),
            s@ == v@.take(i as int),
        decreases v.len() - i,
    {
        string_push(&mut s, v[i]);
        i += 1;
        assert(v@.take(i as int) =~= v@.take(i - 1).push(v@[i - 1]));
    }
    assert(v@.take(v@.len() as int) =~= v@);
    s
}

/// A `String` copy of `s`.
pub fn string_of(s: &str) -> (r: String)
    ensures
        r@ == s@,
{
    let v = chars_of(s);
    string_from_chars(v.as_slice())
}

/// Appends the characters of `t` to `s`.
pub fn push_str(s: &mut String, t: &str)
    ensures
        final(s)@ == old(s)@ + t@,
{
    let v = chars_of(t);
    push_chars(s, v.as_slice());
}

/// Appends the characters `v` to `s`.
pub fn push_chars(s: &mut String, v: &[char])
    ensures
        final(s)@ == old(s)@ + v@,
{
    let ghost s0 = s@;
    let mut i: usize = 0;
    while i < v.len()
        invariant
            i <= v.len(),
            s@ == s0 + v@.take(i as int),
        decreases v.len() - i,
    {
        string_push(s, v[i]);
        i += 1;
        assert(s0 + v@.take(i as int) =~= (s0 + v@.take(i - 1)).push(v@[i - 1]));
    }
    assert(v@.take(v@.len() as int) =~= v@);
}

/// `a` and `b` hold the same characters.
pub fn chars_eq(a: &[char], b: &[char]) -> (r: bool)
    ensures
        r == (a@ == b@),
{
    if a.len() != b.len() {
        return false;
    }
    let mut i: usize = 0;
    while i < a.len()
        invariant
            a.len() == b.len(),
            i <= a.len(),
            forall|j: int| 0 <= j < i ==> a@[j] == b@[j],
        decreases a.len() - i,
    {
        if a[i] != b[i] {
            return false;
        }
        i += 1;
    }
    assert(a@ =~= b@);
    true
}

/// `a` and the literal or string `b` hold the same characters.
pub fn chars_eq_str(a: &[char], b: &str) -> (r: bool)
    ensures
        r == (a@ == b@),
{
    let bv = chars_of(b);
    chars_eq(a, bv.as_slice())
}

/// `p` occurs in `s` at offset `i`.
pub fn occurs_at_exec(s: &[char], p: &[char], i: usize) -> (r: bool)
    ensures
        r == occurs_at(s@, p@, i as int),
{
    if i > s.len() || p.len() > s.len() - i {
        return false;
    }
    let mut k: usize = 0;
    while k < p.len()
        invariant
            i + p.len() <= s.len(),
            k <= p.len(),
            forall|j: int| 0 <= j < k ==> s@[i + j] == p@[j],
        decreases p.len() - k,
    {
        if s[i + k] != p[k] {
            assert(s@.subrange(i as int, i + p.len())[k as int] != p@[k as int]);
            return false;
        }
        k += 1;
    }
    assert(s@.subrange(i as int, i + p.len()) =~= p@);
    true
}

/// The first offset at or after `from` where `p` occurs in `s` (`str::find` on a tail).
pub fn find_from_exec(s: &[char], p: &[char], from: usize) -> (r: Option<usize>)
    ensures
        r matches Some(i) ==> find_from(s@, p@, from as int) == Some(i as int),
        r is None ==> find_from(s@, p@, from as int) is None,
{
    if from > s.len() || p.len() > s.len() - from {
        return None;
    }
    let last = s.len() - p.len();
    let mut i = from;
    loop
        invariant
            from <= i <= last,
            last + p.len() == s.len(),
            find_from(s@, p@, from as int) == find_from(s@, p@, i as int),
        decreases last - i,
    {
        if occurs_at_exec(s, p, i) {
            return Some(i);
        }
        if i == last {
            assert(find_from(s@, p@, i + 1) is None);
            return None;
        }
        i += 1;
    }
}

pub proof fn lemma_find_from_some(s: Seq<char>, p: Seq<char>, from: int)
    requires
        0 <= from,
    ensures
        find_from(s, p, from) matches Some(i) ==> (from <= i && occurs_at(s, p, i) && forall|
            j: int,
        | from <= j < i ==> !occurs_at(s, p, j)),
        find_from(s, p, from) is None ==> forall|j: int| from <= j ==> !occurs_at(s, p, j),
    decreases s.len() - from,
{
    if from + p.len() > s.len() {
        assert forall|j: int| from <= j implies !occurs_at(s, p, j) by {}
    } else if occurs_at(s, p, from) {
    } else {
        if p.len() == 0 {
            assert(s.subrange(from, from) =~= p);
        }
        lemma_find_from_some(s, p, from + 1);
    }
}

/// `p` occurs somewhere in `s` (`str::contains`).
pub fn contains_chars(s: &[char], p: &[char]) -> (r: bool)
    ensures
        r == contains_seq(s@, p@),
{
    let f = find_from_exec(s, p, 0);
    proof {
        lemma_find_from_some(s@, p@, 0);
    }
    f.is_some()
}

/// `p` occurs somewhere in `s`.
pub fn contains_str(s: &[char], p: &str) -> (r: bool)
    ensures
        r == contains_seq(s@, p@),
{
    let pv = chars_of(p);
    contains_chars(s, pv.as_slice())
}

/// `p` is a prefix of `s` (`str::starts_with`).
pub fn starts_with_str(s: &[char], p: &str) -> (r: bool)
    ensures
        r == is_prefix(p@, s@),
{
    let pv = chars_of(p);
    let r = occurs_at_exec(s, pv.as_slice(), 0);
    proof {
        if r {
            assert(s@.take(pv@.len() as int) =~= s@.subrange(0, pv@.len() as int));
        } else if is_prefix(p@, s@) {
            assert(s@.take(pv@.len() as int) =~= s@.subrange(0, pv@.len() as int));
        }
    }
    r
}

/// `p` is a suffix of `s` (`str::ends_with`).
pub fn ends_with_str(s: &[char], p: &str) -> (r: bool)
    ensures
        r == is_suffix(p@, s@),
{
    let pv = chars_of(p);
    if pv.len() > s.len() {
        return false;
    }
    let i = s.len() - pv.len();
    let r = occurs_at_exec(s, pv.as_slice(), i);
    proof {
        assert(s@.skip(i as int) =~= s@.subrange(i as int, s@.len() as int));
    }
    r
}

/// The characters `s[from..to]`.
pub fn slice_chars(s: &[char], from: usize, to: usize) -> (r: Vec<char>)
    requires
        from <= to <= s.len(),
    ensures
        r@ == s@.subrange(from as int, to as int),
{
    let mut r: Vec<char> = Vec::new();
    let mut i = from;
    while i < to
        invariant
            from <= i <= to <= s.len(),
            r@ == s@.subrange(from as int, i as int),
        decreases to - i,
    {
        r.push(s[i]);
        i += 1;
        assert(r@ =~= s@.subrange(from as int, i as int));
    }
    r
}

/// `s` without leading and trailing white space (`str::trim`).
pub fn trim_chars(s: &[char]) -> (r: Vec<char>)
    ensures
        r@ == trim(s@),
{
    let mut lo: usize = 0;
    while lo < s.len() && char_is_whitespace(s[lo])
        invariant
            lo <= s.len(),
            forall|j: int| 0 <= j < lo ==> unicode_white_space(s@[j]),
        decreases s.len() - lo,
    {
        lo += 1;
    }
    let mut hi: usize = s.len();
    while hi > lo && char_is_whitespace(s[hi - 1])
        invariant
            lo <= hi <= s.len(),
            forall|j: int| hi <= j < s.len() ==> unicode_white_space(s@[j]),
        decreases hi,
    {
        hi -= 1;
    }
    let r = slice_chars(s, lo, hi);
    proof {
        let t = s@.skip(lo as int);
        lemma_trim_start_skip(s@, lo as int);
        // t has no leading white space (or is empty)
        if lo < s.len() {
            assert(!unicode_white_space(t[0]));
        }
        assert(trim_start(t) == t);
        let k = (hi - lo) as int;
        assert forall|j: int| k <= j < t.len() implies unicode_white_space(t[j]) by {
            assert(t[j] == s@[lo + j]);
        }
        lemma_trim_end_take(t, k);
        assert(t.take(k) =~= s@.subrange(lo as int, hi as int));
        if k > 0 {
            assert(t.take(k).last() == s@[hi - 1]);
            assert(!unicode_white_space(t.take(k).last()));
        }
        assert(trim_end(t.take(k)) == t.take(k));
    }
    r
}

/// The characters of `s` with white space trimmed at both ends.
pub fn trim_str(s: &str) -> (r: Vec<char>)
    ensures
        r@ == trim(s@),
{
    let v = chars_of(s);
    trim_chars(v.as_slice())
}

/// Some character of `s` is white space.
pub fn has_white_space_exec(s: &[char]) -> (r: bool)
    ensures
        r == has_white_space(s@),
{
    let mut i: usize = 0;
    while i < s.len()
        invariant
            i <= s.len(),
            forall|j: int| 0 <= j < i ==> !unicode_white_space(s@[j]),
        decreases s.len() - i,
    {
        if char_is_whitespace(s[i]) {
            return true;
        }
        i += 1;
    }
    false
}

/// The Unicode upper case of the characters `s`.
pub fn upper_chars(s: &[char]) -> (r: Vec<char>)
    ensures
        r@ == unicode_upper(s@),
{
    let st = string_from_chars(s);
    let u = str_to_uppercase(st.as_str());
    chars_of(u.as_str())
}

/// The Unicode lower case of the characters `s`.
pub fn lower_chars(s: &[char]) -> (r: Vec<char>)
    ensures
        r@ == unicode_lower(s@),
{
    let st = string_from_chars(s);
    let u = str_to_lowercase(st.as_str());
    chars_of(u.as_str())
}

/// ASCII lower case of one character, as `char::to_ascii_lowercase` documents it:
/// `'A'..='Z'` map to `'a'..='z'`, every other character is unchanged.
pub(crate) fn ascii_lower_char(c: char) -> (r: char)
    ensures
        r == ascii_lower(c),
{
    if 'A' <= c && c <= 'Z' {
        let b: u8 = c as u8;
        (b + 32) as char
    } else {
        c
    }
}

/// ASCII lower case of a character sequence (`str::to_ascii_lowercase`).
pub fn ascii_lower_chars(s: &[char]) -> (r: Vec<char>)
    ensures
        r@ == ascii_lower_seq(s@),
{
    let mut r: Vec<char> = Vec::new();
    let mut i: usize = 0;
    while i < s.len()
        invariant
            i <= s.len(),
            r@ == ascii_lower_seq(s@.take(i as int)),
        decreases s.len() - i,
    {
        r.push(ascii_lower_char(s[i]));
        i += 1;
        assert(ascii_lower_seq(s@.take(i as int)) =~= ascii_lower_seq(s@.take(i - 1)).push(
            ascii_lower(s@[i - 1]),
        ));
    }
    assert(s@.take(s@.len() as int) =~= s@);
    r
}

/// ASCII case-insensitive equality (`eq_ignore_ascii_case`).
pub fn eq_ignore_ascii_case_exec(a: &[char], b: &[char]) -> (r: bool)
    ensures
        r == eq_ignore_ascii_case(a@, b@),
{
    let la = ascii_lower_chars(a);
    let lb = ascii_lower_chars(b);
    chars_eq(la.as_slice(), lb.as_slice())
}

/// `parts` joined with `sep` between consecutive parts (`join`).
pub open spec fn join_seqs(parts: Seq<Seq<char>>, sep: Seq<char>) -> Seq<char>
    decreases parts.len(),
{
    if parts.len() == 0 {
        Seq::empty()
    } else if parts.len() == 1 {
        parts[0]
    } else {
        join_seqs(parts.drop_last(), sep) + sep + parts.last()
    }
}

/// The characters of each string.
pub open spec fn string_views(v: Seq<String>) -> Seq<Seq<char>> {
    v.map_values(|s: String| s@)
}

/// The strings of `parts` joined with `sep` between consecutive parts.
pub fn join_strings(parts: &Vec<String>, sep: &str) -> (r: String)
    ensures
        r@ == join_seqs(string_views(parts@), sep@),
{
    let ghost pv = string_views(parts@);
    let mut out = String::new();
    let mut i: usize = 0;
    while i < parts.len()
        invariant
            i <= parts@.len(),
            pv == string_views(parts@),
            out@ == join_seqs(pv.take(i as int), sep@),
        decreases parts.len() - i,
    {
        assert(pv.take(i + 1).drop_last() =~= pv.take(i as int));
        if i > 0 {
            push_str(&mut out, sep);
        } else {
            assert(out@ =~= Seq::<char>::empty());
        }
        push_str(&mut out, parts[i].as_str());
        i += 1;
        assert(out@ =~= join_seqs(pv.take(i as int), sep@));
    }
    assert(pv.take(parts@.len() as int) =~= pv);
    out
}

/// The decimal digit character for `d` (0–9).
pub open spec fn digit_char(d: int) -> char {
    if d == 0 {
        '0'
    } else if d == 1 {
        '1'
    } else if d == 2 {
        '2'
    } else if d == 3 {
        '3'
    } else if d == 4 {
        '4'
    } else if d == 5 {
        '5'
    } else if d == 6 {
        '6'
    } else if d == 7 {
        '7'
    } else if d == 8 {
        '8'
    } else {
        '9'
    }
}

/// The decimal notation of `n` (what `to_string` gives for an unsigned integer).
pub open spec fn decimal(n: nat) -> Seq<char>
    decreases n,
{
    if n < 10 {
        seq![digit_char(n as int)]
    } else {
        decimal(n / 10).push(digit_char((n % 10) as int))
    }
}

fn digit_exec(d: usize) -> (c: char)
    requires
        d < 10,
    ensures
        c == digit_char(d as int),
{
    if d == 0 {
        '0'
    } else if d == 1 {
        '1'
    } else if d == 2 {
        '2'
    } else if d == 3 {
        '3'
    } else if d == 4 {
        '4'
    } else if d == 5 {
        '5'
    } else if d == 6 {
        '6'
    } else if d == 7 {
        '7'
    } else if d == 8 {
        '8'
    } else {
        '9'
    }
}

/// The decimal notation of `n`.
pub fn decimal_string(n: u64) -> (r: String)
    ensures
        r@ == decimal(n as nat),
    decreases n,
{
    if n < 10 {
        let mut s = String::new();
        string_push(&mut s, digit_exec(n as usize));
        assert(s@ =~= seq![digit_char(n as int)]);
        s
    } else {
        let mut s = decimal_string(n / 10);
        string_push(&mut s, digit_exec((n % 10) as usize));
        s
    }
}

/// The decimal notation of a signed integer (what `to_string` gives).
pub open spec fn signed_decimal(n: int) -> Seq<char> {
    if n < 0 {
        seq!['-'] + decimal((-n) as nat)
    } else {
        decimal(n as nat)
    }
}

/// The decimal notation of `n`, with a leading `-` when it is negative.
pub fn signed_decimal_string(n: i64) -> (r: String)
    ensures
        r@ == signed_decimal(n as int),
{
    if n < 0 {
        let mag: u64 = ((-(n + 1)) as u64) + 1;
        let mut s = String::new();
        string_push(&mut s, '-');
        let digits = decimal_string(mag);
        push_str(&mut s, digits.as_str());
        assert(s@ =~= seq!['-'] + decimal((-n) as nat));
        s
    } else {
        decimal_string(n as u64)
    }
}

} // verus!
