//! Character-sequence toolkit for the prose the loot narration arrives in:
//! whitespace trimming, affix stripping, substring search, unsigned decimal
//! parsing and printing.
//!
//! Text is handled as a character vector plus a `[lo, hi)` window into it, so a
//! chain of `trim`/`strip`/`split` steps is a chain of window adjustments.
use vstd::prelude::*;

use crate::text::string_push;

verus! {

/// Unicode `White_Space` (what `char::is_whitespace` tests).
pub open spec fn is_ws(c: char) -> bool {
    let u = c as u32;
    ||| (0x09 <= u && u <= 0x0d)
    ||| u == 0x20
    ||| u == 0x85
    ||| u == 0xa0
    ||| u == 0x1680
    ||| (0x2000 <= u && u <= 0x200a)
    ||| u == 0x2028
    ||| u == 0x2029
    ||| u == 0x202f
    ||| u == 0x205f
    ||| u == 0x3000
}

/// `char::is_whitespace`.
pub fn char_is_ws(c: char) -> (r: bool)
    ensures
        r == is_ws(c),
{
    let u = c as u32;
    (0x09 <= u && u <= 0x0d) || u == 0x20 || u == 0x85 || u == 0xa0 || u == 0x1680 || (0x2000
        <= u && u <= 0x200a) || u == 0x2028 || u == 0x2029 || u == 0x202f || u == 0x205f || u
        == 0x3000
}

/// Leading whitespace removed.
pub open spec fn trim_start(s: Seq<char>) -> Seq<char>
    decreases s.len(),
{
    if s.len() > 0 && is_ws(s[0]) {
        trim_start(s.drop_first())
    } else {
        s
    }
}

/// Trailing whitespace removed.
pub open spec fn trim_end(s: Seq<char>) -> Seq<char>
    decreases s.len(),
{
    if s.len() > 0 && is_ws(s.last()) {
        trim_end(s.drop_last())
    } else {
        s
    }
}

/// Leading and trailing whitespace removed (`str::trim`).
pub open spec fn trim(s: Seq<char>) -> Seq<char> {
    trim_end(trim_start(s))
}

/// Trailing copies of `c` removed (`str::trim_end_matches` with a char).
pub open spec fn trim_end_char(s: Seq<char>, c: char) -> Seq<char>
    decreases s.len(),
{
    if s.len() > 0 && s.last() == c {
        trim_end_char(s.drop_last(), c)
    } else {
        s
    }
}

/// `str::strip_prefix`.
pub open spec fn strip_prefix(s: Seq<char>, p: Seq<char>) -> Option<Seq<char>> {
    if p.len() <= s.len() && s.take(p.len() as int) == p {
        Some(s.skip(p.len() as int))
    } else {
        None
    }
}

/// `str::strip_suffix`.
pub open spec fn strip_suffix(s: Seq<char>, p: Seq<char>) -> Option<Seq<char>> {
    if p.len() <= s.len() && s.skip(s.len() - p.len()) == p {
        Some(s.take(s.len() - p.len()))
    } else {
        None
    }
}

/// `p` occurs in `s` starting at `i`.
pub open spec fn occurs_at(s: Seq<char>, p: Seq<char>, i: int) -> bool {
    0 <= i && i + p.len() <= s.len() && s.subrange(i, i + p.len()) == p
}

/// The last occurrence of `p` in `s` starting at or below `i`.
pub open spec fn rfind_below(s: Seq<char>, p: Seq<char>, i: int) -> Option<int>
    decreases i + 1,
{
    if i < 0 {
        None
    } else if occurs_at(s, p, i) {
        Some(i)
    } else {
        rfind_below(s, p, i - 1)
    }
}

/// `str::rfind`: start of the last occurrence of `p` in `s`.
pub open spec fn rfind(s: Seq<char>, p: Seq<char>) -> Option<int> {
    rfind_below(s, p, s.len() - p.len())
}

/// The first occurrence of `p` in `s` starting at or above `i`.
pub open spec fn find_from(s: Seq<char>, p: Seq<char>, i: int) -> Option<int>
    decreases s.len() + 1 - i,
{
    if i < 0 || i + p.len() > s.len() {
        None
    } else if occurs_at(s, p, i) {
        Some(i)
    } else {
        find_from(s, p, i + 1)
    }
}

/// `str::find`: start of the first occurrence of `p` in `s`.
pub open spec fn find(s: Seq<char>, p: Seq<char>) -> Option<int> {
    find_from(s, p, 0)
}

/// An ASCII decimal digit.
pub open spec fn is_digit(c: char) -> bool {
    '0' <= c && c <= '9'
}

/// The value of a digit character.
pub open spec fn digit_value(c: char) -> int {
    (c as int) - ('0' as int)
}

/// The value of a string of decimal digits (most significant first).
pub open spec fn decimal_value(s: Seq<char>) -> int
    decreases s.len(),
{
    if s.len() == 0 {
        0
    } else {
        decimal_value(s.drop_last()) * 10 + digit_value(s.last())
    }
}

/// Every character is a decimal digit.
pub open spec fn all_digits(s: Seq<char>) -> bool {
    forall|i: int| 0 <= i < s.len() ==> is_digit(#[trigger] s[i])
}

/// `str::parse::<u32>`: an optional `+`, then at least one decimal digit, and
/// a value that fits.
pub open spec fn parse_u32(s: Seq<char>) -> Option<u32> {
    let d = if s.len() > 0 && s[0] == '+' {
        s.drop_first()
    } else {
        s
    };
    digits_u32(d)
}

/// A non-empty run of decimal digits whose value fits a `u32`.
pub open spec fn digits_u32(d: Seq<char>) -> Option<u32> {
    if d.len() == 0 || !all_digits(d) || decimal_value(d) > u32::MAX {
        None
    } else {
        Some(decimal_value(d) as u32)
    }
}

/// The decimal spelling of a natural number.
pub open spec fn decimal(n: nat) -> Seq<char>
    decreases n,
{
    if n < 10 {
        seq![(n + 48) as char]
    } else {
        decimal(n / 10).push(((n % 10) + 48) as char)
    }
}

/// The decimal spelling of an integer (`-` before negatives).
pub open spec fn signed_decimal(v: int) -> Seq<char> {
    if v < 0 {
        seq!['-'] + decimal((-v) as nat)
    } else {
        decimal(v as nat)
    }
}

/// How a `bool` prints.
pub open spec fn bool_text(b: bool) -> Seq<char> {
    if b {
        "true"@
    } else {
        "false"@
    }
}

proof fn lemma_trim_start_step(s: Seq<char>, i: int, hi: int)
    requires
        0 <= i < hi <= s.len(),
        is_ws(s[i]),
    ensures
        trim_start(s.subrange(i, hi)) == trim_start(s.subrange(i + 1, hi)),
{
    assert(s.subrange(i, hi).drop_first() == s.subrange(i + 1, hi));
}

proof fn lemma_trim_end_step(s: Seq<char>, lo: int, j: int)
    requires
        0 <= lo < j <= s.len(),
        is_ws(s[j - 1]),
    ensures
        trim_end(s.subrange(lo, j)) == trim_end(s.subrange(lo, j - 1)),
{
    assert(s.subrange(lo, j).drop_last() == s.subrange(lo, j - 1));
}

/// Window `[lo, hi)` with leading whitespace skipped.
pub fn trim_start_at(s: &[char], lo: usize, hi: usize) -> (r: usize)
    requires
        lo <= hi <= s.len(),
    ensures
        lo <= r <= hi,
        s@.subrange(r as int, hi as int) == trim_start(s@.subrange(lo as int, hi as int)),
{
    let mut i = lo;
    while i < hi && char_is_ws(s[i])
        invariant
            lo <= i <= hi <= s.len(),
            trim_start(s@.subrange(lo as int, hi as int)) == trim_start(
                s@.subrange(i as int, hi as int),
            ),
        decreases hi - i,
    {
        proof {
            lemma_trim_start_step(s@, i as int, hi as int);
        }
        i = i + 1;
    }
    proof {
        let w = s@.subrange(i as int, hi as int);
        if w.len() > 0 {
            assert(w[0] == s@[i as int]);
        }
    }
    i
}

/// Window `[lo, hi)` with trailing whitespace dropped.
pub fn trim_end_at(s: &[char], lo: usize, hi: usize) -> (r: usize)
    requires
        lo <= hi <= s.len(),
    ensures
        lo <= r <= hi,
        s@.subrange(lo as int, r as int) == trim_end(s@.subrange(lo as int, hi as int)),
{
    let mut j = hi;
    while j > lo && char_is_ws(s[j - 1])
        invariant
            lo <= j <= hi <= s.len(),
            trim_end(s@.subrange(lo as int, hi as int)) == trim_end(
                s@.subrange(lo as int, j as int),
            ),
        decreases j - lo,
    {
        proof {
            lemma_trim_end_step(s@, lo as int, j as int);
        }
        j = j - 1;
    }
    proof {
        let w = s@.subrange(lo as int, j as int);
        if w.len() > 0 {
            assert(w.last() == s@[j - 1]);
        }
    }
    j
}

/// Window `[lo, hi)` trimmed at both ends.
pub fn trim_at(s: &[char], lo: usize, hi: usize) -> (r: (usize, usize))
    requires
        lo <= hi <= s.len(),
    ensures
        lo <= r.0 <= r.1 <= hi,
        s@.subrange(r.0 as int, r.1 as int) == trim(s@.subrange(lo as int, hi as int)),
{
    let a = trim_start_at(s, lo, hi);
    let b = trim_end_at(s, a, hi);
    (a, b)
}

/// Window `[lo, hi)` with trailing copies of `c` dropped.
pub fn trim_end_char_at(s: &[char], lo: usize, hi: usize, c: char) -> (r: usize)
    requires
        lo <= hi <= s.len(),
    ensures
        lo <= r <= hi,
        s@.subrange(lo as int, r as int) == trim_end_char(s@.subrange(lo as int, hi as int), c),
{
    let mut j = hi;
    while j > lo && s[j - 1] == c
        invariant
            lo <= j <= hi <= s.len(),
            trim_end_char(s@.subrange(lo as int, hi as int), c) == trim_end_char(
                s@.subrange(lo as int, j as int),
                c,
            ),
        decreases j - lo,
    {
        assert(s@.subrange(lo as int, j as int).drop_last() == s@.subrange(lo as int, j - 1));
        j = j - 1;
    }
    proof {
        let w = s@.subrange(lo as int, j as int);
        if w.len() > 0 {
            assert(w.last() == s@[j - 1]);
        }
    }
    j
}

/// Whether `p` occurs in `s` at `i`.
pub fn matches_at(s: &[char], i: usize, p: &[char]) -> (r: bool)
    requires
        i <= s.len(),
    ensures
        r == occurs_at(s@, p@, i as int),
{
    if p.len() > s.len() - i {
        return false;
    }
    let mut k: usize = 0;
    while k < p.len()
        invariant
            k <= p.len(),
            i + p.len() <= s.len(),
            forall|m: int| 0 <= m < k ==> s@[i + m] == p@[m],
        decreases p.len() - k,
    {
        if s[i + k] != p[k] {
            assert(s@.subrange(i as int, i + p.len())[k as int] == s@[i + k]);
            return false;
        }
        k = k + 1;
    }
    assert(s@.subrange(i as int, i + p.len()) == p@);
    true
}

/// Window `[lo, hi)` with prefix `p` removed, if it starts with `p`.
pub fn strip_prefix_at(s: &[char], lo: usize, hi: usize, p: &[char]) -> (r: Option<usize>)
    requires
        lo <= hi <= s.len(),
    ensures
        match strip_prefix(s@.subrange(lo as int, hi as int), p@) {
            Some(rest) => r matches Some(n) && lo <= n <= hi && s@.subrange(n as int, hi as int)
                == rest && n == lo + p.len(),
            None => r is None,
        },
{
    let w = Ghost(s@.subrange(lo as int, hi as int));
    if p.len() > hi - lo {
        return None;
    }
    let m = matches_at(s, lo, p);
    proof {
        assert(w@.take(p.len() as int) == s@.subrange(lo as int, lo + p.len()));
        assert(w@.skip(p.len() as int) == s@.subrange(lo + p.len(), hi as int));
    }
    if m {
        Some(lo + p.len())
    } else {
        None
    }
}

/// Window `[lo, hi)` with suffix `p` removed, if it ends with `p`.
pub fn strip_suffix_at(s: &[char], lo: usize, hi: usize, p: &[char]) -> (r: Option<usize>)
    requires
        lo <= hi <= s.len(),
    ensures
        match strip_suffix(s@.subrange(lo as int, hi as int), p@) {
            Some(rest) => r matches Some(n) && lo <= n <= hi && s@.subrange(lo as int, n as int)
                == rest && n + p.len() == hi,
            None => r is None,
        },
{
    let w = Ghost(s@.subrange(lo as int, hi as int));
    if p.len() > hi - lo {
        return None;
    }
    let start = hi - p.len();
    let m = matches_at(s, start, p);
    proof {
        assert(w@.skip(w@.len() - p.len()) == s@.subrange(start as int, hi as int));
        assert(w@.take(w@.len() - p.len()) == s@.subrange(lo as int, start as int));
    }
    if m {
        Some(start)
    } else {
        None
    }
}

/// Window `[lo, hi)` is exactly `p`.
pub fn window_is(s: &[char], lo: usize, hi: usize, p: &[char]) -> (r: bool)
    requires
        lo <= hi <= s.len(),
    ensures
        r == (s@.subrange(lo as int, hi as int) == p@),
{
    if hi - lo != p.len() {
        return false;
    }
    matches_at(s, lo, p)
}

proof fn lemma_occurs_shift(s: Seq<char>, p: Seq<char>, lo: int, hi: int, i: int)
    requires
        0 <= lo <= hi <= s.len(),
    ensures
        occurs_at(s.subrange(lo, hi), p, i) == (0 <= i && lo + i + p.len() <= hi && occurs_at(
            s,
            p,
            lo + i,
        )),
{
    let w = s.subrange(lo, hi);
    if 0 <= i && lo + i + p.len() <= hi {
        assert(w.subrange(i, i + p.len()) == s.subrange(lo + i, lo + i + p.len()));
    }
}

/// Last occurrence of `p` inside window `[lo, hi)`, as an absolute index.
pub fn rfind_at(s: &[char], lo: usize, hi: usize, p: &[char]) -> (r: Option<usize>)
    requires
        lo <= hi <= s.len(),
    ensures
        match rfind(s@.subrange(lo as int, hi as int), p@) {
            Some(k) => r matches Some(n) && n == lo + k && lo <= n && n + p.len() <= hi,
            None => r is None,
        },
{
    let ghost w = s@.subrange(lo as int, hi as int);
    if p.len() > hi - lo {
        assert(rfind_below(w, p@, w.len() - p.len()) is None);
        return None;
    }
    let mut k: usize = hi - lo - p.len();
    loop
        invariant
            lo <= hi <= s.len(),
            p.len() <= hi - lo,
            k <= hi - lo - p.len(),
            w == s@.subrange(lo as int, hi as int),
            rfind(w, p@) == rfind_below(w, p@, k as int),
        decreases k,
    {
        let m = matches_at(s, lo + k, p);
        proof {
            lemma_occurs_shift(s@, p@, lo as int, hi as int, k as int);
        }
        if m {
            return Some(lo + k);
        }
        if k == 0 {
            assert(rfind_below(w, p@, -1) is None);
            return None;
        }
        k = k - 1;
    }
}

/// First occurrence of `p` inside window `[lo, hi)`, as an absolute index.
pub fn find_at(s: &[char], lo: usize, hi: usize, p: &[char]) -> (r: Option<usize>)
    requires
        lo <= hi <= s.len(),
    ensures
        match find(s@.subrange(lo as int, hi as int), p@) {
            Some(k) => r matches Some(n) && n == lo + k && lo <= n && n + p.len() <= hi,
            None => r is None,
        },
{
    let ghost w = s@.subrange(lo as int, hi as int);
    if p.len() > hi - lo {
        return None;
    }
    let mut k: usize = 0;
    while k <= hi - lo - p.len()
        invariant
            lo <= hi <= s.len(),
            p.len() <= hi - lo,
            w == s@.subrange(lo as int, hi as int),
            find(w, p@) == find_from(w, p@, k as int),
        decreases hi - lo - p.len() + 1 - k,
    {
        let m = matches_at(s, lo + k, p);
        proof {
            lemma_occurs_shift(s@, p@, lo as int, hi as int, k as int);
        }
        if m {
            return Some(lo + k);
        }
        if k == hi - lo - p.len() {
            assert(find_from(w, p@, k + 1) is None);
            return None;
        }
        k = k + 1;
    }
    None
}

proof fn lemma_decimal_value_push(s: Seq<char>, c: char)
    ensures
        decimal_value(s.push(c)) == decimal_value(s) * 10 + digit_value(c),
{
    assert(s.push(c).drop_last() == s);
}

proof fn lemma_decimal_value_nonneg(s: Seq<char>)
    requires
        all_digits(s),
    ensures
        decimal_value(s) >= 0,
    decreases s.len(),
{
    if s.len() > 0 {
        assert(all_digits(s.drop_last()));
        lemma_decimal_value_nonneg(s.drop_last());
        assert(is_digit(s[s.len() - 1]));
    }
}

/// `str::parse::<u32>` over window `[lo, hi)`.
pub fn parse_u32_at(s: &[char], lo: usize, hi: usize) -> (r: Option<u32>)
    requires
        lo <= hi <= s.len(),
    ensures
        r == parse_u32(s@.subrange(lo as int, hi as int)),
{
    let ghost w = s@.subrange(lo as int, hi as int);
    let mut start = lo;
    if hi > lo && s[lo] == '+' {
        start = lo + 1;
    }
    let ghost d = s@.subrange(start as int, hi as int);
    proof {
        if hi > lo {
            assert(w[0] == s@[lo as int]);
        }
        if w.len() > 0 && w[0] == '+' {
            assert(w.drop_first() == d);
        } else {
            assert(w == d);
        }
        assert(parse_u32(w) == digits_u32(d));
    }
    if start == hi {
        return None;
    }
    let mut v: u64 = 0;
    let mut i = start;
    while i < hi
        invariant
            lo <= start <= i <= hi <= s.len(),
            d == s@.subrange(start as int, hi as int),
            parse_u32(s@.subrange(lo as int, hi as int)) == digits_u32(d),
            all_digits(s@.subrange(start as int, i as int)),
            v as int == decimal_value(s@.subrange(start as int, i as int)),
            v <= u32::MAX,
        decreases hi - i,
    {
        let c = s[i];
        proof {
            assert(s@.subrange(start as int, i + 1) == s@.subrange(start as int, i as int).push(
                c,
            ));
            lemma_decimal_value_push(s@.subrange(start as int, i as int), c);
        }
        if c < '0' || c > '9' {
            assert(d[i - start] == c);
            assert(!is_digit(d[i - start]));
            return None;
        }
        let dv = (c as u32 - '0' as u32) as u64;
        let nv = v * 10 + dv;
        i = i + 1;
        proof {
            let t = s@.subrange(start as int, i as int);
            assert forall|m: int| 0 <= m < t.len() implies is_digit(#[trigger] t[m]) by {
                if m < t.len() - 1 {
                    assert(t[m] == s@.subrange(start as int, i - 1)[m]);
                }
            }
            assert(d.take((i - start) as int) == t);
        }
        if nv > 0xffff_ffff {
            proof {
                lemma_value_grows(d, (i - start) as int);
            }
            return None;
        }
        v = nv;
    }
    assert(s@.subrange(start as int, hi as int) == d);
    Some(v as u32)
}

proof fn lemma_value_prefix_le(d: Seq<char>, k: int)
    requires
        0 <= k <= d.len(),
        all_digits(d),
    ensures
        decimal_value(d.take(k)) <= decimal_value(d),
    decreases d.len() - k,
{
    if k < d.len() {
        lemma_value_prefix_le(d, k + 1);
        assert(d.take(k + 1).drop_last() == d.take(k));
        assert(all_digits(d.take(k)));
        lemma_decimal_value_nonneg(d.take(k));
        assert(is_digit(d[k]));
        assert(d.take(k + 1).last() == d[k]);
    } else {
        assert(d.take(k) == d);
    }
}

proof fn lemma_value_grows(d: Seq<char>, k: int)
    requires
        0 <= k <= d.len(),
        all_digits(d.take(k)),
        decimal_value(d.take(k)) > u32::MAX,
    ensures
        !all_digits(d) || decimal_value(d) > u32::MAX,
{
    if all_digits(d) {
        lemma_value_prefix_le(d, k);
    }
}

/// `String::push_str`: appends a whole string slice.
#[verifier::external_body]
pub(crate) fn string_push_str(s: &mut String, t: &str)
    ensures
        final(s)@ == old(s)@ + t@,
{
    s.push_str(t)
}

/// Appends the decimal spelling of `n`.
pub fn push_decimal(s: &mut String, n: u64)
    ensures
        final(s)@ == old(s)@ + decimal(n as nat),
    decreases n,
{
    if n >= 10 {
        push_decimal(s, n / 10);
    }
    let c = ((n % 10) as u8 + 48u8) as char;
    string_push(s, c);
    proof {
        if n < 10 {
            assert(decimal(n as nat) == seq![(n + 48) as char]);
        }
    }
}

/// Appends the decimal spelling of `v`, with `-` before a negative.
pub fn push_signed_decimal(s: &mut String, v: i64)
    ensures
        final(s)@ == old(s)@ + signed_decimal(v as int),
{
    if v < 0 {
        string_push(s, '-');
        let m: u64 = (0i128 - v as i128) as u64;
        push_decimal(s, m);
        proof {
            assert(old(s)@.push('-') + decimal(m as nat) == old(s)@ + (seq!['-'] + decimal(
                m as nat,
            )));
        }
    } else {
        push_decimal(s, v as u64);
    }
}

/// Appends `true` or `false`.
pub fn push_bool(s: &mut String, b: bool)
    ensures
        final(s)@ == old(s)@ + bool_text(b),
{
    if b {
        string_push_str(s, "true");
    } else {
        string_push_str(s, "false");
    }
}

/// A `String` holding window `[lo, hi)` of `s`.
pub fn string_of_window(s: &[char], lo: usize, hi: usize) -> (r: String)
    requires
        lo <= hi <= s.len(),
    ensures
        r@ == s@.subrange(lo as int, hi as int),
{
    let mut r = String::new();
    let mut i = lo;
    while i < hi
        invariant
            lo <= i <= hi <= s.len(),
            r@ == s@.subrange(lo as int, i as int),
        decreases hi - i,
    {
        string_push(&mut r, s[i]);
        i = i + 1;
        assert(s@.subrange(lo as int, i as int) == s@.subrange(lo as int, i - 1).push(
            s@[i - 1],
        ));
    }
    r
}

} // verus!
