//! Turns the loot opcode stream into durable acquisition rows.
//!
//! One acquisition is split across two packets: a colour-286 narration names
//! the mob and what happened to the item, and the `OP_LootTransaction`
//! confirmation carries the authoritative corpse, quantity and coin. Either
//! half is held until its partner arrives, or until a boundary flushes it.
use vstd::prelude::*;

use crate::chars::{
    bool_text, char_is_ws, decimal, find, find_at, push_bool, push_decimal, push_signed_decimal,
    signed_decimal, string_push_str, is_ws, parse_u32, parse_u32_at, rfind, rfind_at, string_of_window,
    strip_prefix, strip_prefix_at, strip_suffix, strip_suffix_at, trim, trim_at, trim_end,
    trim_end_at, trim_end_char, trim_end_char_at, window_is,
};
use crate::text::{chars_of, string_push};
use std::collections::VecDeque;

verus! {

/// Chat colour EQ Legends puts personal loot narration on.
pub const LOOT_COLOR: u32 = 286;

/// Where a row came from: the player's acquisition, a corpse window's
/// drop-table view, or a coin pile.
#[derive(Debug, Clone, Copy, PartialEq, Eq, Structural)]
pub enum LootSource {
    Message,
    Window,
    Coin,
}

/// The name a source is stored under.
pub open spec fn source_name(s: LootSource) -> Seq<char> {
    match s {
        LootSource::Message => "message"@,
        LootSource::Window => "window"@,
        LootSource::Coin => "coin"@,
    }
}

impl LootSource {
    /// The name this source is stored under.
    pub fn as_str(self) -> (r: &'static str)
        ensures
            r@ == source_name(self),
    {
        match self {
            LootSource::Message => "message",
            LootSource::Window => "window",
            LootSource::Coin => "coin",
        }
    }
}

/// What a loot narration says happened to the item.
#[derive(Debug, Clone, PartialEq, Eq)]
pub struct ParsedLootLine {
    pub item: String,
    pub qty: u32,
    pub mob: String,
    pub sold: bool,
    /// "inventory" | "sold" | "created" | "destroyed" | "dropped" | a storage
    /// destination.
    pub disposition: String,
    pub money_copper: u32,
}

/// The abstract content of a [`ParsedLootLine`].
pub struct LootLine {
    pub item: Seq<char>,
    pub qty: u32,
    pub mob: Seq<char>,
    pub sold: bool,
    pub disposition: Seq<char>,
    pub money_copper: u32,
}

impl View for ParsedLootLine {
    type V = LootLine;

    open spec fn view(&self) -> LootLine {
        LootLine {
            item: self.item@,
            qty: self.qty,
            mob: self.mob@,
            sold: self.sold,
            disposition: self.disposition@,
            money_copper: self.money_copper,
        }
    }
}

/// The marker every loot narration's mob name ends at.
pub open spec fn corpse_mark() -> Seq<char> {
    "'s corpse"@
}

/// `(qty, item)` of a narration's "<count?> <item>" head: a leading count or
/// article is stripped.
pub open spec fn leading_count(s: Seq<char>) -> (u32, Seq<char>) {
    let t = trim(s);
    match find(t, seq![' ']) {
        Some(i) => {
            let first = t.take(i);
            let rest = t.skip(i + 1);
            match parse_u32(first) {
                Some(n) => (n, trim(rest)),
                None => if first == "a"@ || first == "an"@ {
                    (1, trim(rest))
                } else {
                    (1, t)
                },
            }
        },
        None => (1, t),
    }
}

/// A money-text separator: whitespace or a comma.
pub open spec fn is_money_sep(c: char) -> bool {
    is_ws(c) || c == ','
}

/// Index of the first separator in `s`.
pub open spec fn first_money_sep(s: Seq<char>) -> Option<int>
    decreases s.len(),
{
    if s.len() == 0 {
        None
    } else if is_money_sep(s[0]) {
        Some(0)
    } else {
        match first_money_sep(s.drop_first()) {
            Some(k) => Some(k + 1),
            None => None,
        }
    }
}

/// The pieces `s` splits into at separators (empty pieces included), as
/// `str::split` yields them.
pub open spec fn money_pieces(s: Seq<char>) -> Seq<Seq<char>>
    decreases s.len(),
{
    match first_money_sep(s) {
        Some(k) => if 0 <= k < s.len() {
            seq![s.take(k)] + money_pieces(s.skip(k + 1))
        } else {
            seq![s]
        },
        None => seq![s],
    }
}

/// Copper per unit of a coin name.
pub open spec fn coin_value(w: Seq<char>) -> Option<u32> {
    if w == "platinum"@ {
        Some(1000)
    } else if w == "gold"@ {
        Some(100)
    } else if w == "silver"@ {
        Some(10)
    } else if w == "copper"@ {
        Some(1)
    } else {
        None
    }
}

/// `min(x, u32::MAX)`.
pub open spec fn clamp_u32(x: int) -> u32 {
    if x > u32::MAX {
        u32::MAX
    } else {
        x as u32
    }
}

/// One word of money text: a number is held until the coin name after it.
pub open spec fn money_step(w: Seq<char>, st: (u32, Option<u32>)) -> (u32, Option<u32>) {
    let w = trim(w);
    if w.len() == 0 {
        st
    } else {
        match parse_u32(w) {
            Some(n) => (st.0, Some(n)),
            None => match st.1 {
                Some(n) => match coin_value(w) {
                    Some(m) => (clamp_u32(st.0 + clamp_u32(n * m)), None),
                    None => (st.0, None),
                },
                None => st,
            },
        }
    }
}

/// The running `(total, pending count)` after a list of words.
pub open spec fn money_fold(ws: Seq<Seq<char>>, st: (u32, Option<u32>)) -> (u32, Option<u32>)
    decreases ws.len(),
{
    if ws.len() == 0 {
        st
    } else {
        money_fold(ws.drop_first(), money_step(ws[0], st))
    }
}

/// Money text summed to copper.
pub open spec fn money_copper(text: Seq<char>) -> u32 {
    money_fold(money_pieces(text), (0, None)).0
}

/// `(sold, disposition, money)` of an auto-loot narration's tail.
pub open spec fn tail_outcome(tail: Seq<char>) -> Option<(bool, Seq<char>, u32)> {
    let t = trim_end_char(tail, '.');
    match strip_prefix(t, " and sold it for "@) {
        Some(m) => Some((true, "sold"@, money_copper(m))),
        None => match strip_prefix(t, " and stored it in "@) {
            Some(d) => {
                let d2 = match strip_prefix(d, "your "@) {
                    Some(x) => x,
                    None => d,
                };
                Some((false, trim(d2), 0))
            },
            None => if strip_prefix(t, " to create "@) is Some {
                Some((false, "created"@, 0))
            } else if t == " and destroyed it"@ {
                Some((false, "destroyed"@, 0))
            } else if t == " and dropped it"@ || t == " and dropped it on the ground"@ {
                Some((false, "dropped"@, 0))
            } else if t.len() == 0 {
                Some((false, "inventory"@, 0))
            } else {
                None
            },
        },
    }
}

/// The narration body and whether it is the "kept" family.
pub open spec fn narration_body(text: Seq<char>) -> Option<(Seq<char>, bool)> {
    let t = trim(text);
    match strip_prefix(t, "--You have looted "@) {
        Some(rest) => match strip_suffix(rest, "--"@) {
            Some(x) => Some((trim_end(x), true)),
            None => None,
        },
        None => match strip_prefix(t, "You looted "@) {
            Some(b) => Some((b, false)),
            None => None,
        },
    }
}

/// What a colour-286 narration says, or `None` for any other line.
pub open spec fn loot_line(text: Seq<char>) -> Option<LootLine> {
    match narration_body(text) {
        None => None,
        Some((body, kept)) => match rfind(body, corpse_mark()) {
            None => None,
            Some(mark) => {
                let head = body.take(mark);
                let tail = body.skip(mark + corpse_mark().len());
                match rfind(head, " from "@) {
                    None => None,
                    Some(f) => {
                        let mob = head.skip(f + 6);
                        let (qty, item) = leading_count(head.take(f));
                        if mob.len() == 0 || item.len() == 0 {
                            None
                        } else if kept {
                            Some(
                                LootLine {
                                    item,
                                    qty,
                                    mob,
                                    sold: false,
                                    disposition: "inventory"@,
                                    money_copper: 0,
                                },
                            )
                        } else {
                            match tail_outcome(tail) {
                                None => None,
                                Some((sold, disposition, money)) => Some(
                                    LootLine { item, qty, mob, sold, disposition, money_copper: money },
                                ),
                            }
                        }
                    },
                }
            },
        },
    }
}

/// The grouping key of a mob name: corpse suffix and article stripped,
/// lowercased.
pub open spec fn mob_key(name: Seq<char>) -> Seq<char> {
    let n = trim(name);
    let n2 = match strip_suffix(n, corpse_mark()) {
        Some(x) => x,
        None => match strip_suffix(n, " corpse"@) {
            Some(x) => x,
            None => n,
        },
    };
    let lower = lowercased(trim(n2));
    match strip_prefix(lower, "a "@) {
        Some(rest) => trim(rest),
        None => match strip_prefix(lower, "an "@) {
            Some(rest) => trim(rest),
            None => match strip_prefix(lower, "the "@) {
                Some(rest) => trim(rest),
                None => lower,
            },
        },
    }
}

/// `(base zone, instance kind)`: EQ Legends encodes instances as a suffix.
pub open spec fn zone_parts(z: Seq<char>) -> (Seq<char>, Seq<char>) {
    match strip_suffix(z, "_eqlraidgroup"@) {
        Some(b) => (b, "eqlraidgroup"@),
        None => match strip_suffix(z, "_multi"@) {
            Some(b) => (b, "multi"@),
            None => match strip_suffix(z, "_solo"@) {
                Some(b) => (b, "solo"@),
                None => (z, Seq::empty()),
            },
        },
    }
}

/// What `str::to_lowercase` returns for a string (Unicode lowercase mapping).
pub uninterp spec fn lowercased(s: Seq<char>) -> Seq<char>;

/// `str::to_lowercase`: the string with every character mapped to its
/// Unicode lowercase form. The contract only names the result.
#[verifier::external_body]
fn str_to_lowercase(s: &str) -> (r: String)
    ensures
        r@ == lowercased(s@),
{
    s.to_lowercase()
}

fn lit(s: &str) -> (r: Vec<char>)
    ensures
        r@ == s@,
{
    chars_of(s)
}

/// Strip a leading count ("2 Bone Chips") or article ("a Fine Steel"),
/// returning `(qty, item)` as a window of `s`.
fn split_leading_count(s: &[char], lo: usize, hi: usize) -> (r: (u32, usize, usize))
    requires
        lo <= hi <= s.len(),
    ensures
        lo <= r.1 <= r.2 <= hi,
        leading_count(s@.subrange(lo as int, hi as int)) == (r.0, s@.subrange(
            r.1 as int,
            r.2 as int,
        )),
{
    let (a, b) = trim_at(s, lo, hi);
    let space = lit(" ");
    assert(space@ == seq![' ']) by {
        reveal_strlit(" ");
    }
    match find_at(s, a, b, &space) {
        Some(i) => {
            proof {
                let t = s@.subrange(a as int, b as int);
                assert(t.take(i - a) == s@.subrange(a as int, i as int));
                assert(t.skip(i - a + 1) == s@.subrange(i + 1, b as int));
            }
            if let Some(n) = parse_u32_at(s, a, i) {
                let (c, d) = trim_at(s, i + 1, b);
                return (n, c, d);
            }
            let article_a = lit("a");
            let article_an = lit("an");
            if window_is(s, a, i, &article_a) || window_is(s, a, i, &article_an) {
                let (c, d) = trim_at(s, i + 1, b);
                return (1, c, d);
            }
            (1, a, b)
        },
        None => (1, a, b),
    }
}


proof fn lemma_first_sep_at(s: Seq<char>, k: int)
    requires
        0 <= k < s.len(),
        is_money_sep(s[k]),
        forall|j: int| 0 <= j < k ==> !is_money_sep(#[trigger] s[j]),
    ensures
        first_money_sep(s) == Some(k),
    decreases k,
{
    if k > 0 {
        let t = s.drop_first();
        assert forall|j: int| 0 <= j < k - 1 implies !is_money_sep(#[trigger] t[j]) by {
            assert(t[j] == s[j + 1]);
        }
        assert(t[k - 1] == s[k]);
        lemma_first_sep_at(t, k - 1);
        assert(!is_money_sep(s[0]));
    }
}

proof fn lemma_no_sep(s: Seq<char>)
    requires
        forall|j: int| 0 <= j < s.len() ==> !is_money_sep(#[trigger] s[j]),
    ensures
        first_money_sep(s) is None,
    decreases s.len(),
{
    if s.len() > 0 {
        let t = s.drop_first();
        assert forall|j: int| 0 <= j < t.len() implies !is_money_sep(#[trigger] t[j]) by {
            assert(t[j] == s[j + 1]);
        }
        lemma_no_sep(t);
        assert(!is_money_sep(s[0]));
    }
}

proof fn lemma_fold_cons(a: Seq<char>, rest: Seq<Seq<char>>, st: (u32, Option<u32>))
    ensures
        money_fold(seq![a] + rest, st) == money_fold(rest, money_step(a, st)),
{
    let ws = seq![a] + rest;
    assert(ws[0] == a);
    assert(ws.drop_first() == rest);
}

fn is_sep(c: char) -> (r: bool)
    ensures
        r == is_money_sep(c),
{
    char_is_ws(c) || c == ','
}

fn coin_at(s: &[char], lo: usize, hi: usize) -> (r: Option<u32>)
    requires
        lo <= hi <= s.len(),
    ensures
        r == coin_value(s@.subrange(lo as int, hi as int)),
{
    if window_is(s, lo, hi, &lit("platinum")) {
        Some(1000)
    } else if window_is(s, lo, hi, &lit("gold")) {
        Some(100)
    } else if window_is(s, lo, hi, &lit("silver")) {
        Some(10)
    } else if window_is(s, lo, hi, &lit("copper")) {
        Some(1)
    } else {
        None
    }
}

fn clamp(x: u64) -> (r: u32)
    ensures
        r == clamp_u32(x as int),
{
    if x > 0xffff_ffff {
        0xffff_ffff
    } else {
        x as u32
    }
}

fn money_word(s: &[char], lo: usize, hi: usize, total: u32, pending: Option<u32>) -> (r: (
    u32,
    Option<u32>,
))
    requires
        lo <= hi <= s.len(),
    ensures
        r == money_step(s@.subrange(lo as int, hi as int), (total, pending)),
{
    let (a, b) = trim_at(s, lo, hi);
    if a == b {
        return (total, pending);
    }
    if let Some(n) = parse_u32_at(s, a, b) {
        return (total, Some(n));
    }
    match pending {
        Some(n) => match coin_at(s, a, b) {
            Some(m) => {
                assert(m <= 1000);
                assert(n as u64 * m as u64 <= 0xffff_ffff * 1000) by (nonlinear_arith)
                    requires
                        m <= 1000,
                ;
                let part = clamp(n as u64 * m as u64);
                (clamp(total as u64 + part as u64), None)
            },
            None => (total, None),
        },
        None => (total, pending),
    }
}

fn money_at(s: &[char], lo: usize, hi: usize) -> (r: u32)
    requires
        lo <= hi <= s.len(),
    ensures
        r == money_copper(s@.subrange(lo as int, hi as int)),
{
    let mut total: u32 = 0;
    let mut pending: Option<u32> = None;
    let mut start = lo;
    let mut i = lo;
    while i < hi
        invariant
            lo <= start <= i <= hi <= s.len(),
            forall|j: int| start <= j < i ==> !is_money_sep(#[trigger] s@[j]),
            money_copper(s@.subrange(lo as int, hi as int)) == money_fold(
                money_pieces(s@.subrange(start as int, hi as int)),
                (total, pending),
            ).0,
        decreases hi - i,
    {
        if is_sep(s[i]) {
            proof {
                let x = s@.subrange(start as int, hi as int);
                let k = i - start;
                assert forall|j: int| 0 <= j < k implies !is_money_sep(#[trigger] x[j]) by {
                    assert(x[j] == s@[start + j]);
                }
                assert(x[k] == s@[i as int]);
                lemma_first_sep_at(x, k);
                assert(x.take(k) == s@.subrange(start as int, i as int));
                assert(x.skip(k + 1) == s@.subrange(i + 1, hi as int));
                lemma_fold_cons(x.take(k), money_pieces(x.skip(k + 1)), (total, pending));
            }
            let (t, p) = money_word(s, start, i, total, pending);
            total = t;
            pending = p;
            start = i + 1;
        }
        i = i + 1;
    }
    proof {
        let x = s@.subrange(start as int, hi as int);
        assert forall|j: int| 0 <= j < x.len() implies !is_money_sep(#[trigger] x[j]) by {
            assert(x[j] == s@[start + j]);
        }
        lemma_no_sep(x);
        lemma_fold_cons(x, Seq::empty(), (total, pending));
        assert(seq![x] + Seq::<Seq<char>>::empty() == seq![x]);
    }
    let (t, _p) = money_word(s, start, hi, total, pending);
    t
}

/// Sum "2 platinum, 8 gold, 8 silver and 1 copper" to copper. A count is
/// held until the coin name after it; other words are ignored.
pub fn parse_money_to_copper(text: &str) -> (r: u32)
    ensures
        r == money_copper(text@),
{
    let s = chars_of(text);
    let r = money_at(&s, 0, s.len());
    assert(s@.subrange(0, s@.len() as int) == s@);
    r
}

/// `(sold, disposition, money)` for an auto-loot tail, as a window-free result.
fn classify_tail(s: &[char], lo: usize, hi: usize) -> (r: Option<(bool, String, u32)>)
    requires
        lo <= hi <= s.len(),
    ensures
        match tail_outcome(s@.subrange(lo as int, hi as int)) {
            Some((sold, d, m)) => r matches Some(x) && x.0 == sold && x.1@ == d && x.2 == m,
            None => r is None,
        },
{
    let e = trim_end_char_at(s, lo, hi, '.');
    if let Some(m) = strip_prefix_at(s, lo, e, &lit(" and sold it for ")) {
        let money = money_at(s, m, e);
        return Some((true, "sold".to_owned(), money));
    }
    if let Some(d) = strip_prefix_at(s, lo, e, &lit(" and stored it in ")) {
        let d2 = match strip_prefix_at(s, d, e, &lit("your ")) {
            Some(x) => x,
            None => d,
        };
        let (a, b) = trim_at(s, d2, e);
        return Some((false, string_of_window(s, a, b), 0));
    }
    if strip_prefix_at(s, lo, e, &lit(" to create ")).is_some() {
        return Some((false, "created".to_owned(), 0));
    }
    if window_is(s, lo, e, &lit(" and destroyed it")) {
        return Some((false, "destroyed".to_owned(), 0));
    }
    if window_is(s, lo, e, &lit(" and dropped it")) || window_is(
        s,
        lo,
        e,
        &lit(" and dropped it on the ground"),
    ) {
        return Some((false, "dropped".to_owned(), 0));
    }
    if lo == e {
        return Some((false, "inventory".to_owned(), 0));
    }
    None
}

/// The narration body of the whole of `s`, as a window, and whether it is the
/// "kept" family.
fn narration_window(s: &[char]) -> (r: Option<(usize, usize, bool)>)
    ensures
        match narration_body(s@) {
            Some((body, kept)) => r matches Some(w) && w.0 <= w.1 <= s.len() && s@.subrange(
                w.0 as int,
                w.1 as int,
            ) == body && w.2 == kept,
            None => r is None,
        },
{
    let n = s.len();
    let (a, b) = trim_at(s, 0, n);
    assert(s@.subrange(0, n as int) == s@);
    match strip_prefix_at(s, a, b, &lit("--You have looted ")) {
        Some(r) => match strip_suffix_at(s, r, b, &lit("--")) {
            Some(x) => Some((r, trim_end_at(s, r, x), true)),
            None => None,
        },
        None => match strip_prefix_at(s, a, b, &lit("You looted ")) {
            Some(r) => Some((r, b, false)),
            None => None,
        },
    }
}

/// Parse a colour-286 loot narration. `None` for anything else on that
/// colour (e.g. "You receive no loot ..."), which the caller ignores.
pub fn parse_loot_line(text: &str) -> (r: Option<ParsedLootLine>)
    ensures
        match loot_line(text@) {
            Some(l) => r matches Some(p) && p@ == l,
            None => r is None,
        },
{
    let s = chars_of(text);
    let (lo, hi, kept) = match narration_window(&s) {
        Some(w) => w,
        None => {
            return None;
        },
    };
    let mark_lit = lit("'s corpse");
    let from_lit = lit(" from ");
    assert(mark_lit@.len() == 9 && from_lit@.len() == 6) by {
        reveal_strlit("'s corpse");
        reveal_strlit(" from ");
    }
    let mark = match rfind_at(&s, lo, hi, &mark_lit) {
        Some(m) => m,
        None => {
            return None;
        },
    };
    let ghost body = s@.subrange(lo as int, hi as int);
    let ghost head = s@.subrange(lo as int, mark as int);
    assert(body.take(mark - lo) == head);
    let from = match rfind_at(&s, lo, mark, &from_lit) {
        Some(f) => f,
        None => {
            return None;
        },
    };
    assert(body.skip(mark - lo + 9) == s@.subrange(mark + 9, hi as int));
    assert(head.skip(from - lo + 6) == s@.subrange(from + 6, mark as int));
    assert(head.take(from - lo) == s@.subrange(lo as int, from as int));
    let mob_lo = from + 6;
    let (qty, i0, i1) = split_leading_count(&s, lo, from);
    if mob_lo == mark || i0 == i1 {
        return None;
    }
    let item = string_of_window(&s, i0, i1);
    let mob = string_of_window(&s, mob_lo, mark);
    if kept {
        return Some(
            ParsedLootLine {
                item,
                qty,
                mob,
                sold: false,
                disposition: "inventory".to_owned(),
                money_copper: 0,
            },
        );
    }
    match classify_tail(&s, mark + 9, hi) {
        Some((sold, disposition, money_copper)) => Some(
            ParsedLootLine { item, qty, mob, sold, disposition, money_copper },
        ),
        None => None,
    }
}

/// Article-stripped, corpse-suffix-stripped, lowercased: the grouping key.
pub fn normalize_mob(name: &str) -> (r: String)
    ensures
        r@ == mob_key(name@),
{
    let s = chars_of(name);
    assert(s@.subrange(0, s@.len() as int) == s@);
    let (a, b) = trim_at(&s, 0, s.len());
    let e = match strip_suffix_at(&s, a, b, &lit("'s corpse")) {
        Some(x) => x,
        None => match strip_suffix_at(&s, a, b, &lit(" corpse")) {
            Some(x) => x,
            None => b,
        },
    };
    let (c, d) = trim_at(&s, a, e);
    let window = string_of_window(&s, c, d);
    let lower = chars_of(str_to_lowercase(window.as_str()).as_str());
    let m = lower.len();
    assert(lower@.subrange(0, m as int) == lower@);
    let r = match strip_prefix_at(&lower, 0, m, &lit("a ")) {
        Some(x) => trim_at(&lower, x, m),
        None => match strip_prefix_at(&lower, 0, m, &lit("an ")) {
            Some(x) => trim_at(&lower, x, m),
            None => match strip_prefix_at(&lower, 0, m, &lit("the ")) {
                Some(x) => trim_at(&lower, x, m),
                None => (0, m),
            },
        },
    };
    string_of_window(&lower, r.0, r.1)
}

/// Split an EQ Legends instance suffix off a zone name: `(base, instance)`.
pub fn split_zone_instance(zone_short: &str) -> (r: (String, String))
    ensures
        (r.0@, r.1@) == zone_parts(zone_short@),
{
    let s = chars_of(zone_short);
    let n = s.len();
    assert(s@.subrange(0, n as int) == s@);
    if let Some(b) = strip_suffix_at(&s, 0, n, &lit("_eqlraidgroup")) {
        return (string_of_window(&s, 0, b), "eqlraidgroup".to_owned());
    }
    if let Some(b) = strip_suffix_at(&s, 0, n, &lit("_multi")) {
        return (string_of_window(&s, 0, b), "multi".to_owned());
    }
    if let Some(b) = strip_suffix_at(&s, 0, n, &lit("_solo")) {
        return (string_of_window(&s, 0, b), "solo".to_owned());
    }
    (zone_short.to_owned(), String::new())
}

} // verus!

verus! {

/// Text keys already seen; a set without removal. The keys sit in a `Vec`
/// searched in order: vstd's specifications of `HashSet` and `HashMap` hold
/// only for key types it knows to hash consistently with `==`, and `String`
/// is not one of them, so a hashed set of strings would prove nothing.
#[derive(Debug)]
pub struct SeenKeys {
    keys: Vec<String>,
}

impl View for SeenKeys {
    type V = Set<Seq<char>>;

    closed spec fn view(&self) -> Set<Seq<char>> {
        Set::new(|k: Seq<char>| exists|i: int| 0 <= i < self.keys@.len() && self.keys@[i]@ == k)
    }
}

impl SeenKeys {
    /// No key seen yet.
    pub fn new() -> (r: SeenKeys)
        ensures
            r@ == Set::<Seq<char>>::empty(),
    {
        let r = SeenKeys { keys: Vec::new() };
        assert(r@ =~= Set::<Seq<char>>::empty());
        r
    }

    /// Record `k`; true when it was not seen before.
    pub fn insert(&mut self, k: String) -> (fresh: bool)
        ensures
            fresh == !old(self)@.contains(k@),
            final(self)@ == old(self)@.insert(k@),
            !fresh ==> final(self)@ == old(self)@,
    {
        let mut i: usize = 0;
        while i < self.keys.len()
            invariant
                i <= self.keys@.len(),
                forall|j: int| 0 <= j < i ==> self.keys@[j]@ != k@,
            decreases self.keys@.len() - i,
        {
            if self.keys[i] == k {
                assert(self@.contains(k@));
                assert(self@ =~= self@.insert(k@));
                return false;
            }
            i = i + 1;
        }
        let ghost before = self@;
        let ghost old_keys = self.keys@;
        let ghost kv = k@;
        assert(!before.contains(k@));
        self.keys.push(k);
        assert(self.keys@ == old_keys.push(self.keys@.last()));
        assert(self@ =~= before.insert(kv)) by {
            assert forall|x: Seq<char>| self@.contains(x) implies before.insert(kv).contains(x) by {
                let i = choose|i: int| 0 <= i < self.keys@.len() && self.keys@[i]@ == x;
                if i < old_keys.len() {
                    assert(old_keys[i]@ == x);
                    assert(before.contains(x));
                }
            }
            assert forall|x: Seq<char>| before.insert(kv).contains(x) implies self@.contains(x) by {
                if x == kv {
                    assert(self.keys@[self.keys@.len() - 1]@ == x);
                } else {
                    assert(before.contains(x));
                    let i = choose|i: int| 0 <= i < old_keys.len() && old_keys[i]@ == x;
                    assert(self.keys@[i]@ == x);
                }
            }
        }
        true
    }
}

/// The value of the last entry keyed `k`.
pub open spec fn last_value(s: Seq<(String, u32)>, k: Seq<char>) -> Option<u32>
    decreases s.len(),
{
    if s.len() == 0 {
        None
    } else if s.last().0@ == k {
        Some(s.last().1)
    } else {
        last_value(s.drop_last(), k)
    }
}

proof fn lemma_last_value_update(s: Seq<(String, u32)>, j: int, e: (String, u32), k2: Seq<char>)
    requires
        0 <= j < s.len(),
        e.0@ == s[j].0@,
        forall|i: int| j < i < s.len() ==> (#[trigger] s[i]).0@ != e.0@,
    ensures
        last_value(s.update(j, e), k2) == if k2 == e.0@ {
            Some(e.1)
        } else {
            last_value(s, k2)
        },
    decreases s.len(),
{
    let t = s.update(j, e);
    if j == s.len() - 1 {
        assert(t.last() == e);
        assert(t.drop_last() == s.drop_last());
    } else {
        assert(t.last() == s.last());
        assert(t.drop_last() == s.drop_last().update(j, e));
        lemma_last_value_update(s.drop_last(), j, e, k2);
    }
}

/// Item ids learned by name; a map whose later entries win. Held as a `Vec`
/// of pairs for the same reason as [`SeenKeys`].
#[derive(Debug)]
pub struct NameIds {
    entries: Vec<(String, u32)>,
}

impl View for NameIds {
    type V = Map<Seq<char>, u32>;

    closed spec fn view(&self) -> Map<Seq<char>, u32> {
        Map::new(
            |k: Seq<char>| last_value(self.entries@, k) is Some,
            |k: Seq<char>| last_value(self.entries@, k)->0,
        )
    }
}

impl NameIds {
    /// No id learned yet.
    pub fn new() -> (r: NameIds)
        ensures
            r@ == Map::<Seq<char>, u32>::empty(),
    {
        let r = NameIds { entries: Vec::new() };
        assert(r@ =~= Map::<Seq<char>, u32>::empty());
        r
    }

    /// The id learned for `name`.
    pub fn get(&self, name: &String) -> (r: Option<u32>)
        ensures
            r == if self@.contains_key(name@) {
                Some(self@[name@])
            } else {
                None
            },
    {
        let mut j = self.entries.len();
        assert(self.entries@.take(j as int) == self.entries@);
        while j > 0
            invariant
                j <= self.entries@.len(),
                last_value(self.entries@, name@) == last_value(self.entries@.take(j as int), name@),
            decreases j,
        {
            let t = Ghost(self.entries@.take(j as int));
            assert(t@.last() == self.entries@[j - 1]);
            assert(t@.drop_last() == self.entries@.take(j - 1));
            if self.entries[j - 1].0 == *name {
                return Some(self.entries[j - 1].1);
            }
            j = j - 1;
        }
        None
    }

    /// Learn (or re-learn) the id of `name`.
    pub fn insert(&mut self, name: String, id: u32)
        ensures
            final(self)@ == old(self)@.insert(name@, id),
    {
        let ghost before = self.entries@;
        let mut j = self.entries.len();
        while j > 0
            invariant
                j <= self.entries@.len(),
                self.entries@ == before,
                before == old(self).entries@,
                forall|i: int| j <= i < before.len() ==> (#[trigger] before[i]).0@ != name@,
            decreases j,
        {
            if self.entries[j - 1].0 == name {
                let ghost ek = name@;
                let e = (name, id);
                self.entries.set(j - 1, e);
                proof {
                    assert(self.entries@ == before.update(j - 1, e));
                    assert forall|k2: Seq<char>| #![auto]
                        last_value(self.entries@, k2) == if k2 == ek {
                            Some(id)
                        } else {
                            last_value(before, k2)
                        } by {
                        lemma_last_value_update(before, j - 1, e, k2);
                    }
                    let m_old = old(self)@;
                    assert(old(self).entries@ == before);
                    assert forall|k2: Seq<char>| #![auto] self@.contains_key(k2) == m_old.insert(
                        ek,
                        id,
                    ).contains_key(k2) by {
                        assert(last_value(self.entries@, k2) == if k2 == ek {
                            Some(id)
                        } else {
                            last_value(before, k2)
                        });
                    }
                    assert forall|k2: Seq<char>| #![auto] self@.contains_key(k2) implies self@[k2]
                        == m_old.insert(ek, id)[k2] by {
                        assert(last_value(self.entries@, k2) == if k2 == ek {
                            Some(id)
                        } else {
                            last_value(before, k2)
                        });
                    }
                    assert(self@ =~= m_old.insert(ek, id));
                }
                return;
            }
            j = j - 1;
        }
        let ghost k = name@;
        self.entries.push((name, id));
        proof {
            assert(self.entries@.drop_last() == before);
        }
        assert(self@ =~= old(self)@.insert(k, id));
    }
}

} // verus!

verus! {

/// One durable loot row. `0` stands in for SQL NULL on the id/icon columns.
#[derive(Debug, Clone, PartialEq, Eq)]
pub struct LootRow {
    pub ts: i64,
    pub source: LootSource,
    pub item_name: String,
    pub item_id: u32,
    pub icon: u32,
    pub qty: u32,
    pub mob_name: String,
    pub mob_norm: String,
    pub corpse_id: u32,
    pub zone_short: String,
    pub zone_base: String,
    pub instance: String,
    pub sold: bool,
    pub money_copper: u32,
    pub disposition: String,
    pub looter: String,
    /// Monotonic loot-request sequence from the confirmation; 0 when none.
    pub sequence: u32,
    /// Both narration and confirmation were observed (corpse windows and
    /// coin piles are complete in one packet).
    pub complete: bool,
}

/// The abstract content of a [`LootRow`].
pub struct Row {
    pub ts: i64,
    pub source: LootSource,
    pub item_name: Seq<char>,
    pub item_id: u32,
    pub icon: u32,
    pub qty: u32,
    pub mob_name: Seq<char>,
    pub mob_norm: Seq<char>,
    pub corpse_id: u32,
    pub zone_short: Seq<char>,
    pub zone_base: Seq<char>,
    pub instance: Seq<char>,
    pub sold: bool,
    pub money_copper: u32,
    pub disposition: Seq<char>,
    pub looter: Seq<char>,
    pub sequence: u32,
    pub complete: bool,
}

impl View for LootRow {
    type V = Row;

    open spec fn view(&self) -> Row {
        Row {
            ts: self.ts,
            source: self.source,
            item_name: self.item_name@,
            item_id: self.item_id,
            icon: self.icon,
            qty: self.qty,
            mob_name: self.mob_name@,
            mob_norm: self.mob_norm@,
            corpse_id: self.corpse_id,
            zone_short: self.zone_short@,
            zone_base: self.zone_base@,
            instance: self.instance@,
            sold: self.sold,
            money_copper: self.money_copper,
            disposition: self.disposition@,
            looter: self.looter@,
            sequence: self.sequence,
            complete: self.complete,
        }
    }
}

/// The views of a list of rows.
pub open spec fn rows_view(v: Seq<LootRow>) -> Seq<Row> {
    v.map_values(|r: LootRow| r@)
}

/// A confirmation waiting for its narration.
#[derive(Debug, Clone, Copy, PartialEq, Eq, Structural)]
pub struct PendingConfirmation {
    pub corpse_id: u32,
    pub item_id: u32,
    pub quantity: u32,
    pub coin_copper: u32,
    pub sequence: u32,
    pub ts: i64,
}

/// One item of a corpse's loot window.
#[derive(Debug, Clone, PartialEq, Eq)]
pub struct WindowItem {
    pub item_id: u32,
    pub icon: u32,
    pub name: String,
}

/// The abstract state of a [`LootTracker`].
pub struct LootState {
    pub zone_short: Seq<char>,
    pub zone_base: Seq<char>,
    pub instance: Seq<char>,
    pub looter: Seq<char>,
    pub pending_messages: Seq<Row>,
    pub pending_confirmations: Seq<PendingConfirmation>,
    pub seen_window: Set<Seq<char>>,
    pub seen_window_snapshots: Set<Seq<char>>,
    pub item_ids: Map<Seq<char>, u32>,
    pub seen_confirmations: Set<Seq<char>>,
    pub seen_messages: Set<Seq<char>>,
}

/// The separator the dedup keys are joined with.
pub open spec fn sep() -> Seq<char> {
    seq!['\u{1}']
}

/// Identity of one application message: capture time, link id, link name and
/// prose.
pub open spec fn message_key(ts: i64, item_id: u32, item_name: Seq<char>, text: Seq<char>) -> Seq<
    char,
> {
    signed_decimal(ts as int) + sep() + decimal(item_id as nat) + sep() + item_name + sep() + text
}

/// Identity of one confirmation: the server sequence when there is one, else
/// every field plus the capture time.
pub open spec fn confirmation_key(
    corpse_id: u32,
    item_id: u32,
    quantity: u32,
    coin_copper: u32,
    from_corpse: bool,
    sequence: u32,
    ts: i64,
) -> Seq<char> {
    if sequence != 0 {
        "sequence:"@ + decimal(sequence as nat)
    } else {
        "fields:"@ + decimal(corpse_id as nat) + ":"@ + decimal(item_id as nat) + ":"@ + decimal(
            quantity as nat,
        ) + ":"@ + decimal(coin_copper as nat) + ":"@ + bool_text(from_corpse) + ":"@
            + signed_decimal(ts as int)
    }
}

/// Identity of a corpse-window item.
pub open spec fn window_key(corpse_id: u32, item_name: Seq<char>) -> Seq<char> {
    decimal(corpse_id as nat) + sep() + item_name
}

/// Key suffix contributed by a window snapshot's items.
pub open spec fn snapshot_items_key(items: Seq<WindowItem>) -> Seq<char>
    decreases items.len(),
{
    if items.len() == 0 {
        Seq::empty()
    } else {
        snapshot_items_key(items.drop_last()) + sep() + decimal(items.last().item_id as nat) + sep()
            + decimal(items.last().icon as nat) + sep() + items.last().name@
    }
}

/// Identity of a whole ordered corpse window.
pub open spec fn snapshot_key(corpse_id: u32, corpse_name: Seq<char>, items: Seq<WindowItem>) -> Seq<
    char,
> {
    decimal(corpse_id as nat) + sep() + corpse_name + snapshot_items_key(items)
}

/// Index of the first pending confirmation for `item_id`, falling back to
/// the first id-less one; for an id-less narration, the oldest.
pub open spec fn first_conf_with(cs: Seq<PendingConfirmation>, item_id: u32, i: int) -> Option<int>
    decreases cs.len() - i,
{
    if i < 0 || i >= cs.len() {
        None
    } else if cs[i].item_id == item_id {
        Some(i)
    } else {
        first_conf_with(cs, item_id, i + 1)
    }
}

/// The pending confirmation a narration with `item_id` pairs with.
pub open spec fn confirmation_match(cs: Seq<PendingConfirmation>, item_id: u32) -> Option<int> {
    if item_id != 0 {
        match first_conf_with(cs, item_id, 0) {
            Some(i) => Some(i),
            None => first_conf_with(cs, 0, 0),
        }
    } else if cs.len() > 0 {
        Some(0)
    } else {
        None
    }
}

/// Index of the first pending narration with `item_id`.
pub open spec fn first_msg_with(ms: Seq<Row>, item_id: u32, i: int) -> Option<int>
    decreases ms.len() - i,
{
    if i < 0 || i >= ms.len() {
        None
    } else if ms[i].item_id == item_id {
        Some(i)
    } else {
        first_msg_with(ms, item_id, i + 1)
    }
}

/// The pending narration a confirmation with `item_id` pairs with.
pub open spec fn message_match(ms: Seq<Row>, item_id: u32) -> Option<int> {
    if item_id != 0 {
        match first_msg_with(ms, item_id, 0) {
            Some(i) => Some(i),
            None => first_msg_with(ms, 0, 0),
        }
    } else if ms.len() > 0 {
        Some(0)
    } else {
        None
    }
}

/// A narration row completed by its confirmation.
pub open spec fn confirmed(row: Row, c: PendingConfirmation) -> Row {
    Row {
        item_id: if c.item_id != 0 {
            c.item_id
        } else {
            row.item_id
        },
        corpse_id: if c.corpse_id != 0 {
            c.corpse_id
        } else {
            row.corpse_id
        },
        qty: if c.quantity != 0 {
            c.quantity
        } else {
            row.qty
        },
        money_copper: c.coin_copper,
        sequence: c.sequence,
        complete: true,
        ..row
    }
}

impl LootState {
    /// A fresh tracker's state, keeping only the looter.
    pub open spec fn cleared(looter: Seq<char>) -> LootState {
        LootState {
            zone_short: Seq::empty(),
            zone_base: Seq::empty(),
            instance: Seq::empty(),
            looter,
            pending_messages: Seq::empty(),
            pending_confirmations: Seq::empty(),
            seen_window: Set::empty(),
            seen_window_snapshots: Set::empty(),
            item_ids: Map::empty(),
            seen_confirmations: Set::empty(),
            seen_messages: Set::empty(),
        }
    }

    /// The row a parsed narration becomes.
    pub open spec fn narration_row(self, p: LootLine, item_id: u32, item_name: Seq<char>, ts: i64) -> Row {
        let name = if item_name.len() == 0 {
            p.item
        } else {
            item_name
        };
        Row {
            ts,
            source: LootSource::Message,
            item_name: name,
            item_id: if item_id != 0 {
                item_id
            } else if self.item_ids.contains_key(name) {
                self.item_ids[name]
            } else {
                0
            },
            icon: 0,
            qty: p.qty,
            mob_name: p.mob,
            mob_norm: mob_key(p.mob),
            corpse_id: 0,
            zone_short: self.zone_short,
            zone_base: self.zone_base,
            instance: self.instance,
            sold: p.sold,
            money_copper: p.money_copper,
            disposition: p.disposition,
            looter: self.looter,
            sequence: 0,
            complete: false,
        }
    }

    /// Effect and emitted rows of a narration.
    pub open spec fn after_message(
        self,
        color: u32,
        text: Seq<char>,
        item_id: u32,
        item_name: Seq<char>,
        ts: i64,
    ) -> (LootState, Seq<Row>) {
        if color != LOOT_COLOR {
            (self, Seq::empty())
        } else {
            match loot_line(text) {
                None => (self, Seq::empty()),
                Some(p) => {
                    let key = message_key(ts, item_id, item_name, text);
                    if self.seen_messages.contains(key) {
                        (self, Seq::empty())
                    } else {
                        let row = self.narration_row(p, item_id, item_name, ts);
                        let marked = LootState { seen_messages: self.seen_messages.insert(key), ..self };
                        match confirmation_match(self.pending_confirmations, row.item_id) {
                            Some(i) => (
                                LootState {
                                    pending_confirmations: self.pending_confirmations.remove(i),
                                    ..marked
                                },
                                seq![confirmed(row, self.pending_confirmations[i])],
                            ),
                            None => (
                                LootState {
                                    pending_messages: self.pending_messages.push(row),
                                    ..marked
                                },
                                Seq::empty(),
                            ),
                        }
                    }
                },
            }
        }
    }

    /// The row a corpse coin pile becomes.
    pub open spec fn coin_row(self, corpse_id: u32, coin_copper: u32, sequence: u32, ts: i64) -> Row {
        Row {
            ts,
            source: LootSource::Coin,
            item_name: "Coin"@,
            item_id: 0,
            icon: 0,
            qty: 1,
            mob_name: Seq::empty(),
            mob_norm: Seq::empty(),
            corpse_id,
            zone_short: self.zone_short,
            zone_base: self.zone_base,
            instance: self.instance,
            sold: false,
            money_copper: coin_copper,
            disposition: "corpse_coin"@,
            looter: self.looter,
            sequence,
            complete: true,
        }
    }

    /// Effect and emitted rows of a confirmation.
    pub open spec fn after_transaction(
        self,
        corpse_id: u32,
        item_id: u32,
        quantity: u32,
        coin_copper: u32,
        from_corpse: bool,
        sequence: u32,
        ts: i64,
    ) -> (LootState, Seq<Row>) {
        let key = confirmation_key(
            corpse_id,
            item_id,
            quantity,
            coin_copper,
            from_corpse,
            sequence,
            ts,
        );
        if self.seen_confirmations.contains(key) {
            (self, Seq::empty())
        } else {
            let marked = LootState { seen_confirmations: self.seen_confirmations.insert(key), ..self };
            if from_corpse {
                if coin_copper == 0 {
                    (marked, Seq::empty())
                } else {
                    (marked, seq![self.coin_row(corpse_id, coin_copper, sequence, ts)])
                }
            } else {
                let c = PendingConfirmation { corpse_id, item_id, quantity, coin_copper, sequence, ts };
                match message_match(self.pending_messages, item_id) {
                    None => (
                        LootState {
                            pending_confirmations: self.pending_confirmations.push(c),
                            ..marked
                        },
                        Seq::empty(),
                    ),
                    Some(i) => (
                        LootState { pending_messages: self.pending_messages.remove(i), ..marked },
                        seq![confirmed(self.pending_messages[i], c)],
                    ),
                }
            }
        }
    }

    /// Effect and emitted rows of one corpse-window item.
    pub open spec fn after_drop_item(
        self,
        corpse_id: u32,
        corpse_name: Seq<char>,
        item_name: Seq<char>,
        icon: u32,
        item_id: u32,
        ts: i64,
    ) -> (LootState, Seq<Row>) {
        let learned = if item_id != 0 {
            LootState { item_ids: self.item_ids.insert(item_name, item_id), ..self }
        } else {
            self
        };
        let key = window_key(corpse_id, item_name);
        if learned.seen_window.contains(key) {
            (learned, Seq::empty())
        } else {
            (
                LootState { seen_window: learned.seen_window.insert(key), ..learned },
                seq![
                    Row {
                        ts,
                        source: LootSource::Window,
                        item_name,
                        item_id,
                        icon,
                        qty: 1,
                        mob_name: corpse_name,
                        mob_norm: mob_key(corpse_name),
                        corpse_id,
                        zone_short: self.zone_short,
                        zone_base: self.zone_base,
                        instance: self.instance,
                        sold: false,
                        money_copper: 0,
                        disposition: Seq::empty(),
                        looter: self.looter,
                        sequence: 0,
                        complete: true,
                    },
                ],
            )
        }
    }

    /// The row an unmatched confirmation becomes at a boundary.
    pub open spec fn orphan_row(self, c: PendingConfirmation) -> Row {
        Row {
            ts: c.ts,
            source: LootSource::Message,
            item_name: Seq::empty(),
            item_id: c.item_id,
            icon: 0,
            qty: if c.quantity > 1 {
                c.quantity
            } else {
                1
            },
            mob_name: Seq::empty(),
            mob_norm: Seq::empty(),
            corpse_id: c.corpse_id,
            zone_short: self.zone_short,
            zone_base: self.zone_base,
            instance: self.instance,
            sold: c.coin_copper != 0,
            money_copper: c.coin_copper,
            disposition: if c.coin_copper == 0 {
                Seq::empty()
            } else {
                "sold"@
            },
            looter: self.looter,
            sequence: c.sequence,
            complete: false,
        }
    }

    /// Every unmatched half, narrations first, in arrival order.
    pub open spec fn unmatched(self) -> Seq<Row> {
        self.pending_messages + self.pending_confirmations.map_values(
            |c: PendingConfirmation| self.orphan_row(c),
        )
    }

    /// Effect and emitted rows of a boundary flush.
    pub open spec fn after_flush(self) -> (LootState, Seq<Row>) {
        (
            LootState { pending_messages: Seq::empty(), pending_confirmations: Seq::empty(), ..self },
            sort_by_ts(self.unmatched()),
        )
    }

    /// Effect and emitted rows of a zone-in.
    pub open spec fn after_set_zone(self, zone: Seq<char>) -> (LootState, Seq<Row>) {
        let (flushed, out) = self.after_flush();
        if zone.len() == 0 {
            (flushed, out)
        } else {
            let base = if flushed.zone_short != zone {
                LootState::cleared(flushed.looter)
            } else {
                flushed
            };
            (
                LootState {
                    zone_short: zone,
                    zone_base: zone_parts(zone).0,
                    instance: zone_parts(zone).1,
                    ..base
                },
                out,
            )
        }
    }
}

/// `r` placed after every row of `sorted` whose time is not later than its own.
pub open spec fn insert_by_ts(sorted: Seq<Row>, r: Row) -> Seq<Row>
    decreases sorted.len(),
{
    if sorted.len() == 0 {
        seq![r]
    } else if sorted.last().ts <= r.ts {
        sorted.push(r)
    } else {
        insert_by_ts(sorted.drop_last(), r).push(sorted.last())
    }
}

/// Rows stably sorted by capture time.
pub open spec fn sort_by_ts(s: Seq<Row>) -> Seq<Row>
    decreases s.len(),
{
    if s.len() == 0 {
        s
    } else {
        insert_by_ts(sort_by_ts(s.drop_last()), s.last())
    }
}

} // verus!

verus! {

fn push_sep(s: &mut String)
    ensures
        final(s)@ == old(s)@ + sep(),
{
    string_push(s, '\u{1}');
    assert(old(s)@.push('\u{1}') =~= old(s)@ + sep());
}

fn message_key_string(ts: i64, item_id: u32, item_name: &str, text: &str) -> (r: String)
    ensures
        r@ == message_key(ts, item_id, item_name@, text@),
{
    let mut k = String::new();
    push_signed_decimal(&mut k, ts);
    push_sep(&mut k);
    push_decimal(&mut k, item_id as u64);
    push_sep(&mut k);
    string_push_str(&mut k, item_name);
    push_sep(&mut k);
    string_push_str(&mut k, text);
    assert(k@ =~= message_key(ts, item_id, item_name@, text@));
    k
}

fn confirmation_key_string(
    corpse_id: u32,
    item_id: u32,
    quantity: u32,
    coin_copper: u32,
    from_corpse: bool,
    sequence: u32,
    ts: i64,
) -> (r: String)
    ensures
        r@ == confirmation_key(corpse_id, item_id, quantity, coin_copper, from_corpse, sequence, ts),
{
    let mut k = String::new();
    if sequence != 0 {
        string_push_str(&mut k, "sequence:");
        push_decimal(&mut k, sequence as u64);
        assert(k@ =~= "sequence:"@ + decimal(sequence as nat));
    } else {
        string_push_str(&mut k, "fields:");
        push_decimal(&mut k, corpse_id as u64);
        string_push_str(&mut k, ":");
        push_decimal(&mut k, item_id as u64);
        string_push_str(&mut k, ":");
        push_decimal(&mut k, quantity as u64);
        string_push_str(&mut k, ":");
        push_decimal(&mut k, coin_copper as u64);
        string_push_str(&mut k, ":");
        push_bool(&mut k, from_corpse);
        string_push_str(&mut k, ":");
        push_signed_decimal(&mut k, ts);
        assert(k@ =~= confirmation_key(
            corpse_id,
            item_id,
            quantity,
            coin_copper,
            from_corpse,
            sequence,
            ts,
        ));
    }
    k
}

fn window_key_string(corpse_id: u32, item_name: &str) -> (r: String)
    ensures
        r@ == window_key(corpse_id, item_name@),
{
    let mut k = String::new();
    push_decimal(&mut k, corpse_id as u64);
    push_sep(&mut k);
    string_push_str(&mut k, item_name);
    assert(k@ =~= window_key(corpse_id, item_name@));
    k
}

fn matching_confirmation(cs: &VecDeque<PendingConfirmation>, item_id: u32) -> (r: Option<usize>)
    ensures
        match r {
            Some(x) => confirmation_match(cs@, item_id) == Some(x as int) && x < cs@.len(),
            None => confirmation_match(cs@, item_id) is None,
        },
{
    if item_id != 0 {
        match first_conf(cs, item_id) {
            Some(i) => Some(i),
            None => first_conf(cs, 0),
        }
    } else if cs.len() > 0 {
        Some(0)
    } else {
        None
    }
}

fn first_conf(cs: &VecDeque<PendingConfirmation>, item_id: u32) -> (r: Option<usize>)
    ensures
        match r {
            Some(x) => first_conf_with(cs@, item_id, 0) == Some(x as int) && x < cs@.len(),
            None => first_conf_with(cs@, item_id, 0) is None,
        },
{
    let mut i: usize = 0;
    while i < cs.len()
        invariant
            i <= cs@.len(),
            first_conf_with(cs@, item_id, 0) == first_conf_with(cs@, item_id, i as int),
        decreases cs@.len() - i,
    {
        if cs[i].item_id == item_id {
            return Some(i);
        }
        i = i + 1;
    }
    None
}

fn matching_message(ms: &VecDeque<LootRow>, item_id: u32) -> (r: Option<usize>)
    ensures
        match r {
            Some(x) => message_match(rows_view(ms@), item_id) == Some(x as int) && x < ms@.len(),
            None => message_match(rows_view(ms@), item_id) is None,
        },
{
    if item_id != 0 {
        match first_message(ms, item_id) {
            Some(i) => Some(i),
            None => first_message(ms, 0),
        }
    } else if ms.len() > 0 {
        Some(0)
    } else {
        None
    }
}

fn first_message(ms: &VecDeque<LootRow>, item_id: u32) -> (r: Option<usize>)
    ensures
        match r {
            Some(x) => first_msg_with(rows_view(ms@), item_id, 0) == Some(x as int) && x < ms@.len(),
            None => first_msg_with(rows_view(ms@), item_id, 0) is None,
        },
{
    let ghost v = rows_view(ms@);
    let mut i: usize = 0;
    while i < ms.len()
        invariant
            i <= ms@.len(),
            v == rows_view(ms@),
            first_msg_with(v, item_id, 0) == first_msg_with(v, item_id, i as int),
        decreases ms@.len() - i,
    {
        assert(v[i as int] == ms@[i as int]@);
        if ms[i].item_id == item_id {
            return Some(i);
        }
        i = i + 1;
    }
    None
}

fn apply_confirmation(row: &mut LootRow, c: PendingConfirmation)
    ensures
        final(row)@ == confirmed(old(row)@, c),
{
    if c.item_id != 0 {
        row.item_id = c.item_id;
    }
    if c.corpse_id != 0 {
        row.corpse_id = c.corpse_id;
    }
    if c.quantity != 0 {
        row.qty = c.quantity;
    }
    row.money_copper = c.coin_copper;
    row.sequence = c.sequence;
    row.complete = true;
}

fn one_row(row: LootRow) -> (r: Vec<LootRow>)
    ensures
        rows_view(r@) == seq![row@],
{
    let mut v = Vec::new();
    v.push(row);
    assert(rows_view(v@) =~= seq![row@]);
    v
}

fn no_rows() -> (r: Vec<LootRow>)
    ensures
        rows_view(r@) == Seq::<Row>::empty(),
{
    let v: Vec<LootRow> = Vec::new();
    assert(rows_view(v@) =~= Seq::<Row>::empty());
    v
}

proof fn lemma_insert_by_ts_at(sorted: Seq<Row>, r: Row, j: int)
    requires
        0 <= j <= sorted.len(),
        j == 0 || sorted[j - 1].ts <= r.ts,
        forall|k: int| j <= k < sorted.len() ==> (#[trigger] sorted[k]).ts > r.ts,
    ensures
        insert_by_ts(sorted, r) == sorted.insert(j, r),
    decreases sorted.len(),
{
    if sorted.len() == 0 {
        assert(sorted.insert(j, r) =~= seq![r]);
    } else if sorted.last().ts <= r.ts {
        assert(j == sorted.len());
        assert(sorted.insert(j, r) =~= sorted.push(r));
    } else {
        let d = sorted.drop_last();
        assert forall|k: int| j <= k < d.len() implies (#[trigger] d[k]).ts > r.ts by {
            assert(d[k] == sorted[k]);
        }
        if j > 0 {
            assert(d[j - 1] == sorted[j - 1]);
        }
        lemma_insert_by_ts_at(d, r, j);
        assert(d.insert(j, r).push(sorted.last()) =~= sorted.insert(j, r));
    }
}

/// Rows stably sorted by capture time (insertion sort).
fn sort_rows(v: Vec<LootRow>) -> (r: Vec<LootRow>)
    ensures
        rows_view(r@) == sort_by_ts(rows_view(v@)),
{
    let ghost orig = rows_view(v@);
    let mut rest = v;
    let mut out: Vec<LootRow> = Vec::new();
    let ghost n = orig.len();
    assert(rows_view(out@) =~= sort_by_ts(orig.take(0)));
    assert(rows_view(rest@) =~= orig.skip(0));
    while rest.len() > 0
        invariant
            n == orig.len(),
            rest@.len() <= n,
            rows_view(rest@) == orig.skip(n - rest@.len()),
            rows_view(out@) == sort_by_ts(orig.take(n - rest@.len())),
        decreases rest@.len(),
    {
        let ghost i = n - rest@.len();
        let ghost before = rows_view(out@);
        let ghost rest_before = rest@;
        assert(rows_view(rest@)[0] == rest@[0]@);
        let r = rest.remove(0);
        assert(rows_view(rest@) =~= orig.skip(i + 1)) by {
            assert forall|k: int| 0 <= k < rest@.len() implies rows_view(rest@)[k] == orig.skip(
                i + 1,
            )[k] by {
                assert(rest@[k] == rest_before[k + 1]);
                assert(rows_view(rest_before)[k + 1] == rest_before[k + 1]@);
            }
        }
        assert(r@ == orig[i]);
        let mut j = out.len();
        while j > 0 && out[j - 1].ts > r.ts
            invariant
                j <= out@.len(),
                rows_view(out@) == before,
                forall|k: int| j <= k < out@.len() ==> (#[trigger] before[k]).ts > r.ts,
            decreases j,
        {
            assert(before[j - 1] == out@[j - 1]@);
            j = j - 1;
        }
        proof {
            if j > 0 {
                assert(before[j - 1] == out@[j - 1]@);
            }
            lemma_insert_by_ts_at(before, r@, j as int);
            assert(orig.take(i + 1).drop_last() =~= orig.take(i));
            assert(orig.take(i + 1).last() == orig[i]);
        }
        out.insert(j, r);
        assert(rows_view(out@) =~= before.insert(j as int, r@));
    }
    assert(orig.take(n as int) =~= orig);
    out
}

/// Accumulates loot rows from the opcode stream and returns rows once they
/// are complete.
#[derive(Debug)]
pub struct LootTracker {
    zone_short: String,
    zone_base: String,
    instance: String,
    looter: String,
    pending_messages: VecDeque<LootRow>,
    pending_confirmations: VecDeque<PendingConfirmation>,
    seen_window: SeenKeys,
    seen_window_snapshots: SeenKeys,
    item_id_by_name: NameIds,
    seen_confirmations: SeenKeys,
    seen_messages: SeenKeys,
}

impl View for LootTracker {
    type V = LootState;

    closed spec fn view(&self) -> LootState {
        LootState {
            zone_short: self.zone_short@,
            zone_base: self.zone_base@,
            instance: self.instance@,
            looter: self.looter@,
            pending_messages: rows_view(self.pending_messages@),
            pending_confirmations: self.pending_confirmations@,
            seen_window: self.seen_window@,
            seen_window_snapshots: self.seen_window_snapshots@,
            item_ids: self.item_id_by_name@,
            seen_confirmations: self.seen_confirmations@,
            seen_messages: self.seen_messages@,
        }
    }
}

impl Default for LootTracker {
    fn default() -> (t: LootTracker)
        ensures
            t@ == LootState::cleared(Seq::empty()),
    {
        LootTracker::new()
    }
}

impl LootTracker {
    /// A tracker with no zone, no looter and nothing pending.
    pub fn new() -> (t: LootTracker)
        ensures
            t@ == LootState::cleared(Seq::empty()),
    {
        let t = LootTracker {
            zone_short: String::new(),
            zone_base: String::new(),
            instance: String::new(),
            looter: String::new(),
            pending_messages: VecDeque::new(),
            pending_confirmations: VecDeque::new(),
            seen_window: SeenKeys::new(),
            seen_window_snapshots: SeenKeys::new(),
            item_id_by_name: NameIds::new(),
            seen_confirmations: SeenKeys::new(),
            seen_messages: SeenKeys::new(),
        };
        assert(t@.pending_messages =~= Seq::<Row>::empty());
        t
    }

    /// Drop all state but the looter (zone change to an unknown zone,
    /// session restart).
    pub fn reset(&mut self)
        ensures
            final(self)@ == LootState::cleared(old(self)@.looter),
    {
        let looter = self.looter.clone();
        *self = LootTracker::new();
        self.looter = looter;
    }

    /// Name the character the rows are credited to.
    pub fn set_looter(&mut self, looter: &str)
        ensures
            final(self)@ == (LootState { looter: looter@, ..old(self)@ }),
    {
        self.looter = looter.to_owned();
    }

    /// Current full zone name, including any instance suffix.
    pub fn zone(&self) -> (r: &str)
        ensures
            r@ == self@.zone_short,
    {
        self.zone_short.as_str()
    }

    /// Zone-in. Flushes any unmatched half first, so those rows keep the zone
    /// they were looted in; entering a different zone clears all state but
    /// the looter.
    pub fn set_zone(&mut self, zone_short: &str) -> (r: Vec<LootRow>)
        ensures
            (final(self)@, rows_view(r@)) == old(self)@.after_set_zone(zone_short@),
    {
        let out = self.flush();
        if !zone_short.is_empty() {
            if !crate::text::str_eq(self.zone_short.as_str(), zone_short) {
                self.reset();
            }
            let (base, instance) = split_zone_instance(zone_short);
            self.zone_short = zone_short.to_owned();
            self.zone_base = base;
            self.instance = instance;
        }
        out
    }

    /// A colour-286 narration. `item_id`/`item_name` come off the link header
    /// and win over the prose when present.
    pub fn on_loot_message(
        &mut self,
        color: u32,
        text: &str,
        item_id: u32,
        item_name: &str,
        ts: i64,
    ) -> (r: Vec<LootRow>)
        ensures
            (final(self)@, rows_view(r@)) == old(self)@.after_message(
                color,
                text@,
                item_id,
                item_name@,
                ts,
            ),
    {
        if color != LOOT_COLOR {
            return no_rows();
        }
        let p = match parse_loot_line(text) {
            Some(p) => p,
            None => {
                return no_rows();
            },
        };
        let name: String = if item_name.is_empty() {
            p.item.clone()
        } else {
            item_name.to_owned()
        };
        let id = if item_id != 0 {
            item_id
        } else {
            match self.item_id_by_name.get(&name) {
                Some(x) => x,
                None => 0,
            }
        };
        let key = message_key_string(ts, item_id, item_name, text);
        if !self.seen_messages.insert(key) {
            return no_rows();
        }
        let mob_norm = normalize_mob(p.mob.as_str());
        let mut row = LootRow {
            ts,
            source: LootSource::Message,
            item_name: name,
            item_id: id,
            icon: 0,
            qty: p.qty,
            mob_name: p.mob,
            mob_norm,
            corpse_id: 0,
            zone_short: self.zone_short.clone(),
            zone_base: self.zone_base.clone(),
            instance: self.instance.clone(),
            sold: p.sold,
            money_copper: p.money_copper,
            disposition: p.disposition,
            looter: self.looter.clone(),
            sequence: 0,
            complete: false,
        };
        match matching_confirmation(&self.pending_confirmations, row.item_id) {
            Some(i) => {
                let c = self.pending_confirmations.remove(i).unwrap();
                apply_confirmation(&mut row, c);
                one_row(row)
            },
            None => {
                self.pending_messages.push_back(row);
                assert(rows_view(self.pending_messages@) =~= rows_view(
                    old(self).pending_messages@,
                ).push(self.pending_messages@.last()@));
                no_rows()
            },
        }
    }

    /// A loot confirmation. `from_corpse` is the coin pile, which names no
    /// item and so never consumes a pending narration.
    pub fn on_loot_transaction(
        &mut self,
        corpse_id: u32,
        item_id: u32,
        quantity: u32,
        coin_copper: u32,
        from_corpse: bool,
        sequence: u32,
        ts: i64,
    ) -> (r: Vec<LootRow>)
        ensures
            (final(self)@, rows_view(r@)) == old(self)@.after_transaction(
                corpse_id,
                item_id,
                quantity,
                coin_copper,
                from_corpse,
                sequence,
                ts,
            ),
    {
        let key = confirmation_key_string(
            corpse_id,
            item_id,
            quantity,
            coin_copper,
            from_corpse,
            sequence,
            ts,
        );
        if !self.seen_confirmations.insert(key) {
            return no_rows();
        }
        if from_corpse {
            if coin_copper == 0 {
                return no_rows();
            }
            let row = LootRow {
                ts,
                source: LootSource::Coin,
                item_name: "Coin".to_owned(),
                item_id: 0,
                icon: 0,
                qty: 1,
                mob_name: String::new(),
                mob_norm: String::new(),
                corpse_id,
                zone_short: self.zone_short.clone(),
                zone_base: self.zone_base.clone(),
                instance: self.instance.clone(),
                sold: false,
                money_copper: coin_copper,
                disposition: "corpse_coin".to_owned(),
                looter: self.looter.clone(),
                sequence,
                complete: true,
            };
            return one_row(row);
        }
        let c = PendingConfirmation { corpse_id, item_id, quantity, coin_copper, sequence, ts };
        let m = matching_message(&self.pending_messages, item_id);
        match m {
            None => {
                self.pending_confirmations.push_back(c);
                no_rows()
            },
            Some(i) => {
                let ghost msgs = rows_view(self.pending_messages@);
                let mut row = self.pending_messages.remove(i).unwrap();
                assert(rows_view(self.pending_messages@) =~= msgs.remove(i as int));
                apply_confirmation(&mut row, c);
                one_row(row)
            },
        }
    }

    /// One item from a corpse's loot window: the drop-table view. Dedups per
    /// corpse and item, and teaches the item id for later link-less
    /// narrations.
    pub fn on_loot_drop_item(
        &mut self,
        corpse_id: u32,
        corpse_name: &str,
        item_name: &str,
        icon: u32,
        item_id: u32,
        ts: i64,
    ) -> (r: Vec<LootRow>)
        ensures
            (final(self)@, rows_view(r@)) == old(self)@.after_drop_item(
                corpse_id,
                corpse_name@,
                item_name@,
                icon,
                item_id,
                ts,
            ),
    {
        if item_id != 0 {
            self.item_id_by_name.insert(item_name.to_owned(), item_id);
        }
        let key = window_key_string(corpse_id, item_name);
        if !self.seen_window.insert(key) {
            return no_rows();
        }
        let row = LootRow {
            ts,
            source: LootSource::Window,
            item_name: item_name.to_owned(),
            item_id,
            icon,
            qty: 1,
            mob_name: corpse_name.to_owned(),
            mob_norm: normalize_mob(corpse_name),
            corpse_id,
            zone_short: self.zone_short.clone(),
            zone_base: self.zone_base.clone(),
            instance: self.instance.clone(),
            sold: false,
            money_copper: 0,
            disposition: String::new(),
            looter: self.looter.clone(),
            sequence: 0,
            complete: true,
        };
        one_row(row)
    }

    /// True once for each distinct ordered corpse-window snapshot.
    pub fn observe_window_snapshot(
        &mut self,
        corpse_id: u32,
        corpse_name: &str,
        items: &[WindowItem],
    ) -> (r: bool)
        ensures
            r == !old(self)@.seen_window_snapshots.contains(
                snapshot_key(corpse_id, corpse_name@, items@),
            ),
            final(self)@ == (LootState {
                seen_window_snapshots: old(self)@.seen_window_snapshots.insert(
                    snapshot_key(corpse_id, corpse_name@, items@),
                ),
                ..old(self)@
            }),
    {
        let mut key = String::new();
        push_decimal(&mut key, corpse_id as u64);
        push_sep(&mut key);
        string_push_str(&mut key, corpse_name);
        let ghost head = key@;
        assert(key@ =~= head + snapshot_items_key(items@.take(0)));
        let mut i: usize = 0;
        while i < items.len()
            invariant
                i <= items@.len(),
                head == decimal(corpse_id as nat) + sep() + corpse_name@,
                key@ == head + snapshot_items_key(items@.take(i as int)),
            decreases items@.len() - i,
        {
            let ghost before = key@;
            push_sep(&mut key);
            push_decimal(&mut key, items[i].item_id as u64);
            push_sep(&mut key);
            push_decimal(&mut key, items[i].icon as u64);
            push_sep(&mut key);
            string_push_str(&mut key, items[i].name.as_str());
            proof {
                let t = items@.take(i + 1);
                assert(t.drop_last() =~= items@.take(i as int));
                assert(t.last() == items@[i as int]);
            }
            i = i + 1;
            assert(key@ =~= head + snapshot_items_key(items@.take(i as int)));
        }
        assert(items@.take(items@.len() as int) =~= items@);
        self.seen_window_snapshots.insert(key)
    }

    /// Emit every unmatched half at an ordered boundary, sorted by capture
    /// time. A confirmation-only row keeps its ids, quantity, proceeds,
    /// sequence and time even though no narration named the item.
    pub fn flush(&mut self) -> (r: Vec<LootRow>)
        ensures
            (final(self)@, rows_view(r@)) == old(self)@.after_flush(),
    {
        let ghost st = self@;
        let mut rows: Vec<LootRow> = Vec::new();
        while self.pending_messages.len() > 0
            invariant
                st == (LootState { pending_messages: st.pending_messages, ..self@ }),
                rows_view(rows@) + rows_view(self.pending_messages@) == st.pending_messages,
            decreases self.pending_messages@.len(),
        {
            let ghost before = self.pending_messages@;
            let m = self.pending_messages.pop_front().unwrap();
            let ghost prev = rows_view(rows@);
            rows.push(m);
            assert(rows_view(rows@) =~= prev.push(m@));
            assert(rows_view(before) =~= seq![m@] + rows_view(self.pending_messages@));
            assert(rows_view(rows@) + rows_view(self.pending_messages@) =~= prev + rows_view(before));
        }
        assert(rows_view(rows@) =~= st.pending_messages);
        let mut i: usize = 0;
        while i < self.pending_confirmations.len()
            invariant
                i <= self.pending_confirmations@.len(),
                st == (LootState { pending_messages: st.pending_messages, ..self@ }),
                self.pending_messages@ == Seq::<LootRow>::empty(),
                rows_view(rows@) == st.pending_messages + st.pending_confirmations.take(
                    i as int,
                ).map_values(|c: PendingConfirmation| st.orphan_row(c)),
            decreases self.pending_confirmations@.len() - i,
        {
            let c = self.pending_confirmations[i];
            let row = LootRow {
                ts: c.ts,
                source: LootSource::Message,
                item_name: String::new(),
                item_id: c.item_id,
                icon: 0,
                qty: if c.quantity > 1 {
                    c.quantity
                } else {
                    1
                },
                mob_name: String::new(),
                mob_norm: String::new(),
                corpse_id: c.corpse_id,
                zone_short: self.zone_short.clone(),
                zone_base: self.zone_base.clone(),
                instance: self.instance.clone(),
                sold: c.coin_copper != 0,
                money_copper: c.coin_copper,
                disposition: if c.coin_copper == 0 {
                    String::new()
                } else {
                    "sold".to_owned()
                },
                looter: self.looter.clone(),
                sequence: c.sequence,
                complete: false,
            };
            let ghost before = rows_view(rows@);
            rows.push(row);
            proof {
                assert(rows_view(rows@) =~= before.push(row@));
                assert(row@ == st.orphan_row(st.pending_confirmations[i as int]));
                assert(st.pending_confirmations.take(i + 1).map_values(
                    |c: PendingConfirmation| st.orphan_row(c),
                ) =~= st.pending_confirmations.take(i as int).map_values(
                    |c: PendingConfirmation| st.orphan_row(c),
                ).push(row@));
            }
            i = i + 1;
        }
        self.pending_confirmations.clear();
        assert(st.pending_confirmations.take(st.pending_confirmations.len() as int)
            =~= st.pending_confirmations);
        assert(rows_view(rows@) == st.unmatched());
        let out = sort_rows(rows);
        assert(self@.pending_messages =~= Seq::<Row>::empty());
        out
    }
}

} // verus!
