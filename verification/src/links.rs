//! Item and spell links in chat text. A link is `\x12<body>\x12`, whose body
//! is `^`-separated fields ending in the display name, which a `'` opens:
//! `\x12` `63^3686^0^1^'Blood of Pain` `\x12`. Cleaning replaces each link by
//! its display name so the text reads as the client shows it.
use vstd::prelude::*;

use crate::text::{chars_of, string_push};

verus! {

/// The character that opens and closes a link.
pub open spec fn link_mark() -> char {
    '\u{12}'
}

/// The first index `>= i` holding `c`.
pub open spec fn char_from(s: Seq<char>, c: char, i: int) -> Option<int>
    decreases s.len() - i,
{
    if i < 0 || i >= s.len() {
        None
    } else if s[i] == c {
        Some(i)
    } else {
        char_from(s, c, i + 1)
    }
}

/// The first index in `lo..hi` holding `c`.
pub open spec fn char_in(s: Seq<char>, c: char, lo: int, hi: int) -> Option<int>
    decreases hi - lo,
{
    if lo < 0 || lo >= hi || lo >= s.len() {
        None
    } else if s[lo] == c {
        Some(lo)
    } else {
        char_in(s, c, lo + 1, hi)
    }
}

/// The last index in `lo..hi` holding `c`.
pub open spec fn last_char_in(s: Seq<char>, c: char, lo: int, hi: int) -> Option<int>
    decreases hi - lo,
{
    if hi <= lo || hi > s.len() || lo < 0 {
        None
    } else if s[hi - 1] == c {
        Some(hi - 1)
    } else {
        last_char_in(s, c, lo, hi - 1)
    }
}

/// The display name of the link body `lo..hi`: what follows its first `'`,
/// else what follows its last `^`, else the whole body.
pub open spec fn link_name(s: Seq<char>, lo: int, hi: int) -> Seq<char> {
    match char_in(s, '\'', lo, hi) {
        Some(k) => s.subrange(k + 1, hi),
        None => match last_char_in(s, '^', lo, hi) {
            Some(k) => s.subrange(k + 1, hi),
            None => s.subrange(lo, hi),
        },
    }
}

/// The first occurrence found from `i` lies at or after `i`.
pub proof fn lemma_char_from_bounds(s: Seq<char>, c: char, i: int)
    ensures
        char_from(s, c, i) matches Some(k) ==> i <= k < s.len() && s[k] == c,
    decreases s.len() - i,
{
    if 0 <= i < s.len() && s[i] != c {
        lemma_char_from_bounds(s, c, i + 1);
    }
}

/// The cleaned text of `s[i..]`: plain characters are kept, each closed
/// link becomes its display name, and an unclosed mark is dropped.
pub open spec fn clean_from(s: Seq<char>, i: int) -> Seq<char>
    decreases s.len() - i,
{
    if i < 0 || i >= s.len() {
        Seq::empty()
    } else if s[i] != link_mark() {
        seq![s[i]] + clean_from(s, i + 1)
    } else {
        match char_from(s, link_mark(), i + 1) {
            None => s.subrange(i + 1, s.len() as int),
            Some(b) => {
                proof {
                    lemma_char_from_bounds(s, link_mark(), i + 1);
                }
                link_name(s, i + 1, b) + clean_from(s, b + 1)
            },
        }
    }
}

/// Text with every link reduced to its display name.
pub open spec fn clean(s: Seq<char>) -> Seq<char> {
    clean_from(s, 0)
}

fn find_char(s: &[char], c: char, lo: usize, hi: usize) -> (r: Option<usize>)
    requires
        lo <= hi <= s@.len(),
    ensures
        match r {
            Some(k) => char_in(s@, c, lo as int, hi as int) == Some(k as int) && lo <= k < hi,
            None => char_in(s@, c, lo as int, hi as int) is None,
        },
{
    let mut k = lo;
    while k < hi
        invariant
            lo <= k <= hi <= s@.len(),
            char_in(s@, c, lo as int, hi as int) == char_in(s@, c, k as int, hi as int),
        decreases hi - k,
    {
        if s[k] == c {
            return Some(k);
        }
        k = k + 1;
    }
    None
}

fn find_last_char(s: &[char], c: char, lo: usize, hi: usize) -> (r: Option<usize>)
    requires
        lo <= hi <= s@.len(),
    ensures
        match r {
            Some(k) => last_char_in(s@, c, lo as int, hi as int) == Some(k as int) && lo <= k < hi,
            None => last_char_in(s@, c, lo as int, hi as int) is None,
        },
{
    let mut k = hi;
    while k > lo
        invariant
            lo <= k <= hi <= s@.len(),
            last_char_in(s@, c, lo as int, hi as int) == last_char_in(s@, c, lo as int, k as int),
        decreases k - lo,
    {
        if s[k - 1] == c {
            return Some(k - 1);
        }
        k = k - 1;
    }
    None
}

fn push_range(out: &mut String, s: &[char], lo: usize, hi: usize)
    requires
        lo <= hi <= s@.len(),
    ensures
        final(out)@ == old(out)@ + s@.subrange(lo as int, hi as int),
{
    let mut k = lo;
    while k < hi
        invariant
            lo <= k <= hi <= s@.len(),
            out@ == old(out)@ + s@.subrange(lo as int, k as int),
        decreases hi - k,
    {
        string_push(out, s[k]);
        k = k + 1;
        assert(s@.subrange(lo as int, k as int) == s@.subrange(lo as int, k - 1).push(s@[k - 1]));
    }
}

/// Replace every `\x12`-wrapped link in `text` by its display name.
pub fn clean_links(text: &str) -> (r: String)
    ensures
        r@ == clean(text@),
{
    let s = chars_of(text);
    let n = s.len();
    let mut out = String::new();
    let mut i: usize = 0;
    while i < n
        invariant
            n == s@.len(),
            s@ == text@,
            i <= n,
            out@ + clean_from(s@, i as int) == clean(s@),
        decreases n - i,
    {
        if s[i] != '\u{12}' {
            string_push(&mut out, s[i]);
            i = i + 1;
            proof {
                assert(out@ + clean_from(s@, i as int) =~= clean(s@));
            }
        } else {
            let ghost before = out@;
            proof {
                lemma_char_from_bounds(s@, link_mark(), i + 1);
            }
            match find_char(s.as_slice(), '\u{12}', i + 1, n) {
                None => {
                    proof {
                        lemma_char_in_from(s@, link_mark(), i + 1);
                    }
                    push_range(&mut out, s.as_slice(), i + 1, n);
                    assert(out@ =~= clean(s@));
                    return out;
                },
                Some(b) => {
                    proof {
                        lemma_char_in_from(s@, link_mark(), i + 1);
                    }
                    let lo = i + 1;
                    match find_char(s.as_slice(), '\'', lo, b) {
                        Some(k) => push_range(&mut out, s.as_slice(), k + 1, b),
                        None => match find_last_char(s.as_slice(), '^', lo, b) {
                            Some(k) => push_range(&mut out, s.as_slice(), k + 1, b),
                            None => push_range(&mut out, s.as_slice(), lo, b),
                        },
                    }
                    assert(out@ == before + link_name(s@, lo as int, b as int));
                    i = b + 1;
                    assert(out@ + clean_from(s@, i as int) =~= clean(s@));
                },
            }
        }
    }
    assert(out@ =~= clean(s@));
    out
}

proof fn lemma_char_in_from(s: Seq<char>, c: char, i: int)
    ensures
        char_in(s, c, i, s.len() as int) == char_from(s, c, i),
    decreases s.len() - i,
{
    if 0 <= i < s.len() && s[i] != c {
        lemma_char_in_from(s, c, i + 1);
    }
}

/// Text without a link mark is left as it is.
pub proof fn law_plain_text_is_unchanged(s: Seq<char>)
    requires
        forall|i: int| 0 <= i < s.len() ==> s[i] != link_mark(),
    ensures
        clean(s) == s,
{
    lemma_plain_from(s, 0);
    assert(s.subrange(0, s.len() as int) =~= s);
}

proof fn lemma_plain_from(s: Seq<char>, i: int)
    requires
        0 <= i <= s.len(),
        forall|k: int| 0 <= k < s.len() ==> s[k] != link_mark(),
    ensures
        clean_from(s, i) == s.subrange(i, s.len() as int),
    decreases s.len() - i,
{
    if i < s.len() {
        lemma_plain_from(s, i + 1);
        assert(seq![s[i]] + s.subrange(i + 1, s.len() as int) =~= s.subrange(i, s.len() as int));
    } else {
        assert(s.subrange(i, s.len() as int) =~= Seq::<char>::empty());
    }
}

/// `s` has no `c` in it.
pub open spec fn free_of(s: Seq<char>, c: char) -> bool {
    forall|k: int| 0 <= k < s.len() ==> s[k] != c
}

proof fn lemma_char_from_first(s: Seq<char>, c: char, i: int, b: int)
    requires
        0 <= i <= b < s.len(),
        s[b] == c,
        forall|k: int| i <= k < b ==> s[k] != c,
    ensures
        char_from(s, c, i) == Some(b),
    decreases b - i,
{
    if i < b {
        lemma_char_from_first(s, c, i + 1, b);
    }
}

proof fn lemma_char_in_first(s: Seq<char>, c: char, lo: int, k0: int, hi: int)
    requires
        0 <= lo <= k0 < hi <= s.len(),
        s[k0] == c,
        forall|k: int| lo <= k < k0 ==> s[k] != c,
    ensures
        char_in(s, c, lo, hi) == Some(k0),
    decreases k0 - lo,
{
    if lo < k0 {
        lemma_char_in_first(s, c, lo + 1, k0, hi);
    }
}

proof fn lemma_plain_run(s: Seq<char>, i: int, j: int)
    requires
        0 <= i <= j <= s.len(),
        forall|k: int| i <= k < j ==> s[k] != link_mark(),
    ensures
        clean_from(s, i) == s.subrange(i, j) + clean_from(s, j),
    decreases j - i,
{
    if i < j {
        lemma_plain_run(s, i + 1, j);
        assert(seq![s[i]] + s.subrange(i + 1, j) =~= s.subrange(i, j));
    } else {
        assert(s.subrange(i, j) =~= Seq::<char>::empty());
    }
}

/// A link shows as its whole display name: for plain text around it, link
/// fields free of `'`, and a name that may itself hold `'`, the cleaned text
/// is the text before, the name, and the text after.
pub proof fn law_link_shows_its_whole_name(
    before: Seq<char>,
    fields: Seq<char>,
    name: Seq<char>,
    after: Seq<char>,
)
    requires
        free_of(before, link_mark()),
        free_of(fields, link_mark()),
        free_of(fields, '\''),
        free_of(name, link_mark()),
        free_of(after, link_mark()),
    ensures
        clean(before + seq![link_mark()] + fields + seq!['\''] + name + seq![link_mark()] + after)
            == before + name + after,
{
    let s = before + seq![link_mark()] + fields + seq!['\''] + name + seq![link_mark()] + after;
    let j = before.len() as int;
    let q = j + 1 + fields.len();
    let b = q + 1 + name.len();
    assert(forall|k: int| 0 <= k < j ==> s[k] == before[k]);
    lemma_plain_run(s, 0, j);
    assert(s.subrange(0, j) =~= before);
    assert(s[j] == link_mark());
    assert forall|k: int| j + 1 <= k < b implies s[k] != link_mark() by {
        if k < q {
            assert(s[k] == fields[k - j - 1]);
        } else if k > q {
            assert(s[k] == name[k - q - 1]);
        }
    }
    assert(s[b] == link_mark());
    lemma_char_from_first(s, link_mark(), j + 1, b);
    assert forall|k: int| j + 1 <= k < q implies s[k] != '\'' by {
        assert(s[k] == fields[k - j - 1]);
    }
    assert(s[q] == '\'');
    lemma_char_in_first(s, '\'', j + 1, q, b);
    assert(s.subrange(q + 1, b) =~= name);
    assert(link_name(s, j + 1, b) == name);
    assert(forall|k: int| b + 1 <= k < s.len() ==> s[k] == after[k - b - 1]);
    lemma_plain_run(s, b + 1, s.len() as int);
    assert(s.subrange(b + 1, s.len() as int) =~= after);
    assert(clean_from(s, s.len() as int) =~= Seq::<char>::empty());
    assert(clean_from(s, j) == name + clean_from(s, b + 1));
    assert(before + name + after =~= before + (name + (after + Seq::<char>::empty())));
}

} // verus!
