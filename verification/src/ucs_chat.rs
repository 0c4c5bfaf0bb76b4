//! EQ Legends UCS (Universal Chat Service) cross-zone chat.
//!
//! UCS chat rides its own session, obfuscated with a keyless
//! self-synchronizing XOR: `plain[i] = cipher[i] ^ cipher[i-4]` for `i >= 4`
//! (bytes 0..4 are a per-session seed-masked header left raw). After
//! de-obfuscation each record is NUL-delimited:
//!
//! ```text
//! [4-byte masked header]<channel>\0 <server>.<sender>\0 <message>\0 SPAM:<score>:<id>\0
//! ```
//!
//! One packet may carry several records; each is anchored on its `"SPAM:"`
//! trailer and its fields are walked backward. The channel name's first
//! character sits in the masked header and decodes garbled, so it is
//! returned raw (`channel_first`) beside the clean remainder; the consumer
//! recovers the mask from a known channel name.
use vstd::prelude::*;

use vstd::utf8::encode_utf8;

use crate::links::{clean, clean_links};
use crate::text::{chars_of, latin1_char, latin1_seq, string_of};
use crate::formatted_message::strings_view;
use crate::wire::latin1_range;

verus! {

/// One decoded chat line.
#[derive(Debug, Clone, PartialEq, Eq)]
pub struct UcsRecord {
    /// The still-masked first byte of the channel name.
    pub channel_first: u8,
    /// The clean remainder of the channel name.
    pub channel_rest: String,
    /// The channel field's whole trailing printable run; when it is not
    /// `[channel_first][channel_rest]` the framing shifted and the consumer
    /// resolves the channel by suffix against learned names.
    pub channel_run: String,
    pub sender: String,
    pub message: String,
    /// The server's spam score for the line is non-zero.
    pub spam: bool,
}

/// The abstract content of a [`UcsRecord`].
pub struct UcsLine {
    pub channel_first: u8,
    pub channel_rest: Seq<char>,
    pub channel_run: Seq<char>,
    pub sender: Seq<char>,
    pub message: Seq<char>,
    pub spam: bool,
}

impl View for UcsRecord {
    type V = UcsLine;

    open spec fn view(&self) -> UcsLine {
        UcsLine {
            channel_first: self.channel_first,
            channel_rest: self.channel_rest@,
            channel_run: self.channel_run@,
            sender: self.sender@,
            message: self.message@,
            spam: self.spam,
        }
    }
}

/// The views of a list of records.
pub open spec fn records_view(v: Seq<UcsRecord>) -> Seq<UcsLine> {
    v.map_values(|r: UcsRecord| r@)
}

/// A printable byte: ASCII graphic or space, or Latin-1 upper half.
pub open spec fn printable(c: u8) -> bool {
    (0x20 <= c < 0x7f) || c >= 0xa0
}

/// A byte that may appear in a channel name.
pub open spec fn name_char(c: u8) -> bool {
    (0x30 <= c <= 0x39) || (0x41 <= c <= 0x5a) || (0x61 <= c <= 0x7a) || c == 0x5f
}

/// The payload with the self-synchronizing XOR removed: every byte from the
/// fourth on is XORed with the ciphertext four bytes earlier.
pub open spec fn deobfuscated(p: Seq<u8>) -> Seq<u8> {
    Seq::new(
        p.len(),
        |i: int|
            if i < 4 {
                p[i]
            } else {
                p[i] ^ p[i - 4]
            },
    )
}

/// How many bytes of `b` are printable.
pub open spec fn printable_count(b: Seq<u8>) -> nat
    decreases b.len(),
{
    if b.len() == 0 {
        0
    } else {
        printable_count(b.drop_last()) + if printable(b.last()) {
            1nat
        } else {
            0nat
        }
    }
}

/// Non-empty, and at least 85% printable bytes.
pub open spec fn mostly_printable(b: Seq<u8>) -> bool {
    b.len() > 0 && printable_count(b) * 100 >= b.len() * 85
}

/// Start of the NUL-delimited field ending at `end` (exclusive).
pub open spec fn field_start(b: Seq<u8>, end: int) -> int
    decreases end,
{
    if end <= 0 {
        end
    } else if b[end - 1] == 0 {
        end
    } else {
        field_start(b, end - 1)
    }
}

/// The record trailer's marker.
pub open spec fn spam_marker() -> Seq<u8> {
    seq![0x53u8, 0x50, 0x41, 0x4d, 0x3a]
}

/// `needle` occurs at `i` in `b`.
pub open spec fn occurs_at(b: Seq<u8>, needle: Seq<u8>, i: int) -> bool {
    0 <= i && i + needle.len() <= b.len() && b.subrange(i, i + needle.len()) == needle
}

/// First occurrence of `needle` at or after `i`.
pub open spec fn find_from(b: Seq<u8>, needle: Seq<u8>, i: int) -> Option<int>
    decreases b.len() - i,
{
    if i < 0 || i >= b.len() || i + needle.len() > b.len() {
        None
    } else if occurs_at(b, needle, i) {
        Some(i)
    } else {
        find_from(b, needle, i + 1)
    }
}

/// The characters after the last `.`, or all of them.
pub open spec fn after_last_dot(s: Seq<char>) -> Seq<char>
    decreases s.len(),
{
    if s.len() == 0 {
        s
    } else if s.last() == '.' {
        Seq::empty()
    } else {
        after_last_dot(s.drop_last()).push(s.last())
    }
}

/// Length of the run of bytes from `i` satisfying `name_char`.
pub open spec fn name_end(b: Seq<u8>, i: int) -> int
    decreases b.len() - i,
{
    if i < 0 || i >= b.len() || !name_char(b[i]) {
        i
    } else {
        name_end(b, i + 1)
    }
}

/// End of the run of printable bytes in `i..hi`.
pub open spec fn printable_end_in(b: Seq<u8>, i: int, hi: int) -> int
    decreases hi - i,
{
    if i < 0 || i >= hi || i >= b.len() || !printable(b[i]) {
        i
    } else {
        printable_end_in(b, i + 1, hi)
    }
}

/// Start of the printable suffix of `b[..hi]` that reaches `hi`.
pub open spec fn printable_run_start(b: Seq<u8>, lo: int, hi: int) -> int
    decreases hi - lo,
{
    if hi <= lo || !printable(b[hi - 1]) {
        hi
    } else {
        printable_run_start(b, lo, hi - 1)
    }
}

/// The spam score's digits from `q` hold a non-zero digit.
pub open spec fn nonzero_score(b: Seq<u8>, q: int) -> bool
    decreases b.len() - q,
{
    if q < 0 || q >= b.len() || !(0x30 <= b[q] <= 0x39) {
        false
    } else {
        b[q] != 0x30 || nonzero_score(b, q + 1)
    }
}

/// The record whose `SPAM:` anchor sits at `p` in the de-obfuscated
/// buffer, if its fields frame as a chat line.
pub open spec fn record_at(b: Seq<u8>, p: int) -> Option<UcsLine> {
    if p < 2 || b[p - 1] != 0 {
        None
    } else {
        let msg_end = p - 1;
        let msg_start = field_start(b, msg_end);
        if msg_start >= msg_end || msg_start < 2 {
            None
        } else {
            let ss_end = msg_start - 1;
            let ss_start = field_start(b, ss_end);
            if ss_start >= ss_end || ss_start < 2 {
                None
            } else {
                let ce_end = ss_start - 1;
                let ce_start = field_start(b, ce_end);
                if ce_end - ce_start < 5 {
                    None
                } else {
                    let message = clean(latin1_seq(b.subrange(msg_start, msg_end)));
                    let sender = after_last_dot(latin1_seq(b.subrange(ss_start, ss_end)));
                    if !mostly_printable(encode_utf8(sender)) || !mostly_printable(encode_utf8(message))
                        || encode_utf8(sender).len() > 32 {
                        None
                    } else {
                        let rest = ce_start + 5;
                        Some(
                            UcsLine {
                                channel_first: b[ce_start + 4],
                                channel_rest: latin1_seq(
                                    b.subrange(rest, printable_end_in(b, rest, ce_end)),
                                ),
                                channel_run: latin1_seq(
                                    b.subrange(printable_run_start(b, ce_start, ce_end), ce_end),
                                ),
                                sender,
                                message,
                                spam: nonzero_score(b, p + 5),
                            },
                        )
                    }
                }
            }
        }
    }
}

/// Every record from `scan` on, in order.
pub open spec fn records_from(b: Seq<u8>, scan: int) -> Seq<UcsLine>
    decreases b.len() - scan,
{
    if scan < 0 || scan + 5 > b.len() {
        Seq::empty()
    } else {
        match find_from(b, spam_marker(), scan) {
            None => Seq::empty(),
            Some(p) => {
                proof {
                    lemma_find_from_bounds(b, spam_marker(), scan);
                }
                (match record_at(b, p) {
                    Some(r) => seq![r],
                    None => Seq::empty(),
                }) + records_from(b, p + 5)
            },
        }
    }
}

/// Where a search result lies.
pub proof fn lemma_find_from_bounds(b: Seq<u8>, needle: Seq<u8>, i: int)
    ensures
        find_from(b, needle, i) matches Some(k) ==> i <= k && k + needle.len() <= b.len()
            && occurs_at(b, needle, k),
    decreases b.len() - i,
{
    if 0 <= i < b.len() && i + needle.len() <= b.len() && !occurs_at(b, needle, i) {
        lemma_find_from_bounds(b, needle, i + 1);
    }
}

/// The chat lines of a payload: none when it is under 12 bytes.
pub open spec fn ucs_chat_of(payload: Seq<u8>) -> Seq<UcsLine> {
    if payload.len() < 12 {
        Seq::empty()
    } else {
        records_from(deobfuscated(payload), 0)
    }
}

fn deobfuscate(payload: &[u8]) -> (r: Vec<u8>)
    ensures
        r@ == deobfuscated(payload@),
{
    let mut buf: Vec<u8> = Vec::new();
    let mut i: usize = 0;
    while i < payload.len()
        invariant
            i <= payload@.len(),
            buf@ == deobfuscated(payload@).take(i as int),
        decreases payload@.len() - i,
    {
        if i < 4 {
            buf.push(payload[i]);
        } else {
            buf.push(payload[i] ^ payload[i - 4]);
        }
        i = i + 1;
        assert(buf@ =~= deobfuscated(payload@).take(i as int));
    }
    assert(buf@ =~= deobfuscated(payload@));
    buf
}

fn is_printable(c: u8) -> (r: bool)
    ensures
        r == printable(c),
{
    (0x20 <= c && c < 0x7f) || c >= 0xa0
}

fn is_name_char(c: u8) -> (r: bool)
    ensures
        r == name_char(c),
{
    (0x30 <= c && c <= 0x39) || (0x41 <= c && c <= 0x5a) || (0x61 <= c && c <= 0x7a) || c == 0x5f
}

fn field_start_at(b: &[u8], end: usize) -> (r: usize)
    requires
        end <= b@.len(),
    ensures
        r == field_start(b@, end as int),
        r <= end,
{
    let mut s = end;
    while s > 0 && b[s - 1] != 0
        invariant
            s <= end <= b@.len(),
            field_start(b@, s as int) == field_start(b@, end as int),
        decreases s,
    {
        s = s - 1;
    }
    s
}

fn occurs_at_exec(b: &[u8], needle: &[u8], i: usize) -> (r: bool)
    requires
        i + needle@.len() <= b@.len(),
    ensures
        r == occurs_at(b@, needle@, i as int),
{
    let n = b.len();
    let mut k: usize = 0;
    while k < needle.len()
        invariant
            n == b@.len(),
            i + needle@.len() <= b@.len(),
            k <= needle@.len(),
            forall|j: int| 0 <= j < k ==> b@[i + j] == needle@[j],
        decreases needle@.len() - k,
    {
        if b[i + k] != needle[k] {
            assert(b@.subrange(i as int, i + needle@.len())[k as int] != needle@[k as int]);
            return false;
        }
        k = k + 1;
    }
    assert(b@.subrange(i as int, i + needle@.len()) =~= needle@);
    true
}

fn find_bytes(b: &[u8], needle: &[u8], from: usize) -> (r: Option<usize>)
    requires
        from <= b@.len(),
        needle@.len() > 0,
    ensures
        r matches Some(k) ==> find_from(b@, needle@, from as int) == Some(k as int),
        r is None ==> find_from(b@, needle@, from as int) is None,
{
    let n = b.len();
    if needle.len() > n - from {
        return None;
    }
    let mut i = from;
    while i <= n - needle.len()
        invariant
            from <= i,
            n == b@.len(),
            0 < needle@.len() <= n,
            find_from(b@, needle@, from as int) == find_from(b@, needle@, i as int),
        decreases n - i,
    {
        if occurs_at_exec(b, needle, i) {
            return Some(i);
        }
        i = i + 1;
    }
    None
}

/// Whether the bytes are non-empty and at least 85% printable.
fn is_mostly_printable(b: &[u8]) -> (r: bool)
    ensures
        r == mostly_printable(b@),
{
    let n = b.len();
    let mut count: usize = 0;
    let mut i: usize = 0;
    while i < n
        invariant
            i <= n,
            n == b@.len(),
            count <= i,
            count == printable_count(b@.take(i as int)),
        decreases n - i,
    {
        assert(b@.take(i + 1).drop_last() =~= b@.take(i as int));
        if is_printable(b[i]) {
            count = count + 1;
        }
        i = i + 1;
    }
    assert(b@.take(n as int) =~= b@);
    n > 0 && (count as u128) * 100 >= (n as u128) * 85
}

/// The characters after the last `.` of `s`.
fn sender_of(s: &str) -> (r: String)
    ensures
        r@ == after_last_dot(s@),
{
    let cs = chars_of(s);
    let mut k = cs.len();
    assert(cs@.take(k as int) =~= cs@);
    assert(cs@.subrange(k as int, k as int) =~= Seq::<char>::empty());
    while k > 0 && cs[k - 1] != '.'
        invariant
            k <= cs@.len(),
            after_last_dot(cs@) == after_last_dot(cs@.take(k as int)) + cs@.subrange(
                k as int,
                cs@.len() as int,
            ),
        decreases k,
    {
        let ghost t = cs@.take(k as int);
        assert(t.drop_last() =~= cs@.take(k - 1));
        assert(cs@.subrange(k - 1, cs@.len() as int) =~= seq![t.last()] + cs@.subrange(
            k as int,
            cs@.len() as int,
        ));
        assert(after_last_dot(t) =~= after_last_dot(t.drop_last()).push(t.last()));
        k = k - 1;
    }
    if k > 0 {
        assert(after_last_dot(cs@.take(k as int)) =~= Seq::<char>::empty());
    } else {
        assert(cs@.take(0) =~= Seq::<char>::empty());
    }
    assert(cs@.subrange(k as int, cs@.len() as int) =~= after_last_dot(cs@));
    let mut out: Vec<char> = Vec::new();
    let mut j = k;
    while j < cs.len()
        invariant
            k <= j <= cs@.len(),
            out@ == cs@.subrange(k as int, j as int),
        decreases cs@.len() - j,
    {
        out.push(cs[j]);
        j = j + 1;
        assert(out@ =~= cs@.subrange(k as int, j as int));
    }
    string_of(out.as_slice())
}

fn spam_score_nonzero(b: &[u8], q0: usize) -> (r: bool)
    requires
        q0 <= b@.len(),
    ensures
        r == nonzero_score(b@, q0 as int),
{
    let n = b.len();
    let mut q = q0;
    let mut score: u64 = 0;
    let mut have = false;
    while q < n && 0x30 <= b[q] && b[q] <= 0x39
        invariant
            q0 <= q <= n,
            n == b@.len(),
            nonzero_score(b@, q0 as int) == ((score > 0) || nonzero_score(b@, q as int)),
            have == (q > q0),
        decreases n - q,
    {
        let tens = match score.checked_mul(10) {
            Some(x) => x,
            None => u64::MAX,
        };
        score = tens.saturating_add((b[q] - 0x30) as u64);
        have = true;
        q = q + 1;
    }
    have && score > 0
}

fn record_at_exec(b: &[u8], p: usize) -> (r: Option<UcsRecord>)
    requires
        p + 5 <= b@.len(),
    ensures
        match record_at(b@, p as int) {
            Some(v) => r matches Some(x) && x@ == v,
            None => r is None,
        },
{
    if p < 2 || b[p - 1] != 0 {
        return None;
    }
    let msg_end = p - 1;
    let msg_start = field_start_at(b, msg_end);
    if msg_start >= msg_end || msg_start < 2 {
        return None;
    }
    let ss_end = msg_start - 1;
    let ss_start = field_start_at(b, ss_end);
    if ss_start >= ss_end || ss_start < 2 {
        return None;
    }
    let ce_end = ss_start - 1;
    let ce_start = field_start_at(b, ce_end);
    if ce_end - ce_start < 5 {
        return None;
    }
    let raw = latin1_range(b, msg_start, msg_end);
    let message = clean_links(raw.as_str());
    let server_sender = latin1_range(b, ss_start, ss_end);
    let sender = sender_of(server_sender.as_str());
    let sender_bytes = sender.as_str().as_bytes();
    let message_bytes = message.as_str().as_bytes();
    if !is_mostly_printable(sender_bytes) || !is_mostly_printable(message_bytes)
        || sender_bytes.len() > 32 {
        return None;
    }
    let spam = spam_score_nonzero(b, p + 5);
    let channel_first = b[ce_start + 4];
    let rest = ce_start + 5;
    let mut k = rest;
    while k < ce_end && is_printable(b[k])
        invariant
            rest <= k <= ce_end <= b@.len(),
            printable_end_in(b@, rest as int, ce_end as int) == printable_end_in(
                b@,
                k as int,
                ce_end as int,
            ),
        decreases ce_end - k,
    {
        k = k + 1;
    }
    let channel_rest = latin1_range(b, rest, k);
    let mut rs = ce_end;
    while rs > ce_start && is_printable(b[rs - 1])
        invariant
            ce_start <= rs <= ce_end <= b@.len(),
            printable_run_start(b@, ce_start as int, ce_end as int) == printable_run_start(
                b@,
                ce_start as int,
                rs as int,
            ),
        decreases rs,
    {
        rs = rs - 1;
    }
    let channel_run = latin1_range(b, rs, ce_end);
    Some(UcsRecord { channel_first, channel_rest, channel_run, sender, message, spam })
}

/// Decode every chat record of one server-to-client payload. Payloads under
/// 12 bytes, and noise without a `SPAM:` anchor, yield nothing.
pub fn parse_ucs_chat(payload: &[u8]) -> (r: Vec<UcsRecord>)
    ensures
        records_view(r@) == ucs_chat_of(payload@),
{
    if payload.len() < 12 {
        let v: Vec<UcsRecord> = Vec::new();
        assert(records_view(v@) =~= Seq::<UcsLine>::empty());
        return v;
    }
    let buf = deobfuscate(payload);
    let b = buf.as_slice();
    let n = b.len();
    let marker: [u8; 5] = [0x53, 0x50, 0x41, 0x4d, 0x3a];
    assert(marker@ =~= spam_marker());
    let mut out: Vec<UcsRecord> = Vec::new();
    let mut scan: usize = 0;
    assert(records_view(out@) =~= Seq::<UcsLine>::empty());
    while n - scan >= 5
        invariant
            scan <= n,
            n == b@.len(),
            b@ == deobfuscated(payload@),
            marker@ == spam_marker(),
            records_view(out@) + records_from(b@, scan as int) == records_from(b@, 0),
        decreases n - scan,
    {
        match find_bytes(b, marker.as_slice(), scan) {
            None => {
                // No anchor left: nothing more to read.
                assert(records_from(b@, scan as int) =~= Seq::<UcsLine>::empty());
                scan = n;
                assert(records_from(b@, scan as int) =~= Seq::<UcsLine>::empty());
            },
            Some(p) => {
                proof {
                    lemma_find_from_bounds(b@, spam_marker(), scan as int);
                }
                let ghost before = records_view(out@);
                let ghost at = scan as int;
                match record_at_exec(b, p) {
                    Some(rec) => {
                        out.push(rec);
                        assert(records_view(out@) =~= before.push(rec@));
                    },
                    None => {},
                }
                scan = p + 5;
                assert(records_view(out@) + records_from(b@, scan as int) =~= before
                    + records_from(b@, at));
            },
        }
    }
    assert(records_from(b@, scan as int) =~= Seq::<UcsLine>::empty());
    assert(records_view(out@) =~= records_from(b@, 0));
    out
}

/// `n=<name>(` roster entries of a `/list` reply, from `i` on.
pub open spec fn roster_names(b: Seq<u8>, i: int) -> Seq<Seq<u8>>
    decreases b.len() - i,
{
    if i < 0 || i >= b.len() {
        Seq::empty()
    } else if b[i] == 0x3d {
        let j = name_end(b, i + 1);
        proof {
            lemma_name_end_bounds(b, i + 1);
        }
        (if j < b.len() && b[j] == 0x28 && j > i + 1 {
            seq![b.subrange(i + 1, j)]
        } else {
            Seq::empty()
        }) + roster_names(b, j)
    } else {
        roster_names(b, i + 1)
    }
}

/// Where a name run from `i` ends.
pub proof fn lemma_name_end_bounds(b: Seq<u8>, i: int)
    ensures
        0 <= i <= b.len() ==> i <= name_end(b, i) <= b.len(),
    decreases b.len() - i,
{
    if 0 <= i < b.len() && name_char(b[i]) {
        lemma_name_end_bounds(b, i + 1);
    }
}

/// The join-notice keyword `channel `.
pub open spec fn channel_keyword() -> Seq<u8> {
    seq![0x63u8, 0x68, 0x61, 0x6e, 0x6e, 0x65, 0x6c, 0x20]
}

/// The join-notice keyword `joined `.
pub open spec fn joined_keyword() -> Seq<u8> {
    seq![0x6au8, 0x6f, 0x69, 0x6e, 0x65, 0x64, 0x20]
}

/// The name after the first occurrence of `kw`, when one follows.
pub open spec fn keyword_name(b: Seq<u8>, kw: Seq<u8>) -> Seq<Seq<u8>> {
    match find_from(b, kw, 0) {
        None => Seq::empty(),
        Some(p) => {
            let start = p + kw.len();
            let j = name_end(b, start);
            if j > start {
                seq![b.subrange(start, j)]
            } else {
                Seq::empty()
            }
        },
    }
}

/// Learn one candidate: names of two or more bytes, once each, in order.
pub open spec fn learn_one(acc: Seq<Seq<char>>, name: Seq<u8>) -> Seq<Seq<char>> {
    if name.len() >= 2 && !acc.contains(latin1_seq(name)) {
        acc.push(latin1_seq(name))
    } else {
        acc
    }
}

/// Learn every candidate in order.
pub open spec fn learned(acc: Seq<Seq<char>>, names: Seq<Seq<u8>>) -> Seq<Seq<char>>
    decreases names.len(),
{
    if names.len() == 0 {
        acc
    } else {
        learned(learn_one(acc, names[0]), names.drop_first())
    }
}

/// The channel names a payload teaches: roster entries, then the names
/// after `channel ` and after `joined `.
pub open spec fn ucs_channels_of(payload: Seq<u8>) -> Seq<Seq<char>> {
    if payload.len() < 12 {
        Seq::empty()
    } else {
        let b = deobfuscated(payload);
        learned(
            learned(learned(Seq::empty(), roster_names(b, 0)), keyword_name(b, channel_keyword())),
            keyword_name(b, joined_keyword()),
        )
    }
}

proof fn lemma_learned_cons(acc: Seq<Seq<char>>, x: Seq<u8>, rest: Seq<Seq<u8>>)
    ensures
        learned(acc, seq![x] + rest) == learned(learn_one(acc, x), rest),
{
    assert((seq![x] + rest).drop_first() =~= rest);
}

fn contains_string(out: &Vec<String>, s: &String) -> (r: bool)
    ensures
        r == strings_view(out@).contains(s@),
{
    let mut i: usize = 0;
    while i < out.len()
        invariant
            i <= out@.len(),
            forall|j: int| 0 <= j < i ==> out@[j]@ != s@,
        decreases out@.len() - i,
    {
        if crate::text::str_eq(out[i].as_str(), s.as_str()) {
            assert(strings_view(out@)[i as int] == s@);
            return true;
        }
        i = i + 1;
    }
    proof {
        if strings_view(out@).contains(s@) {
            let j = choose|j: int| 0 <= j < strings_view(out@).len() && strings_view(out@)[j] == s@;
            assert(out@[j]@ == s@);
        }
    }
    false
}

fn learn(out: &mut Vec<String>, b: &[u8], lo: usize, hi: usize)
    requires
        lo <= hi <= b@.len(),
    ensures
        strings_view(final(out)@) == learn_one(strings_view(old(out)@), b@.subrange(
            lo as int,
            hi as int,
        )),
{
    if hi - lo >= 2 {
        let s = latin1_range(b, lo, hi);
        if !contains_string(out, &s) {
            let ghost before = strings_view(out@);
            out.push(s);
            assert(strings_view(out@) =~= before.push(s@));
        }
    }
}

fn name_end_at(b: &[u8], i: usize) -> (r: usize)
    requires
        i <= b@.len(),
    ensures
        r == name_end(b@, i as int),
        i <= r <= b@.len(),
{
    let mut j = i;
    while j < b.len() && is_name_char(b[j])
        invariant
            i <= j <= b@.len(),
            name_end(b@, i as int) == name_end(b@, j as int),
        decreases b@.len() - j,
    {
        j = j + 1;
    }
    j
}

fn learn_keyword(out: &mut Vec<String>, b: &[u8], kw: &[u8])
    requires
        kw@.len() > 0,
    ensures
        strings_view(final(out)@) == learned(strings_view(old(out)@), keyword_name(b@, kw@)),
{
    let n = b.len();
    match find_bytes(b, kw, 0) {
        None => {
            assert(keyword_name(b@, kw@) =~= Seq::<Seq<u8>>::empty());
        },
        Some(p) => {
            proof {
                lemma_find_from_bounds(b@, kw@, 0);
            }
            assert(p + kw@.len() <= n);
            let start = p + kw.len();
            let j = name_end_at(b, start);
            if j > start {
                learn(out, b, start, j);
                proof {
                    lemma_learned_cons(strings_view(old(out)@), b@.subrange(start as int, j as int), Seq::empty());
                    assert(seq![b@.subrange(start as int, j as int)] + Seq::<Seq<u8>>::empty() =~= keyword_name(b@, kw@));
                }
            } else {
                assert(keyword_name(b@, kw@) =~= Seq::<Seq<u8>>::empty());
            }
        },
    }
}

/// Learn full channel names from one server-to-client payload's clear
/// text: `/list` rosters (`1=General2(400), 2=myraid(1)`) and join or invite
/// notices (`channel <name>` / `joined <name>`).
pub fn parse_ucs_channels(payload: &[u8]) -> (r: Vec<String>)
    ensures
        strings_view(r@) == ucs_channels_of(payload@),
{
    let mut out: Vec<String> = Vec::new();
    if payload.len() < 12 {
        assert(strings_view(out@) =~= Seq::<Seq<char>>::empty());
        return out;
    }
    let buf = deobfuscate(payload);
    let b = buf.as_slice();
    let n = b.len();
    let ghost all = roster_names(b@, 0);
    assert(strings_view(out@) =~= Seq::<Seq<char>>::empty());
    let mut i: usize = 0;
    while i < n
        invariant
            i <= n,
            n == b@.len(),
            learned(strings_view(out@), roster_names(b@, i as int)) == learned(
                Seq::empty(),
                all,
            ),
            all == roster_names(b@, 0),
        decreases n - i,
    {
        if b[i] == 0x3d {
            let start = i + 1;
            let j = name_end_at(b, start);
            let ghost acc = strings_view(out@);
            let ghost rest = roster_names(b@, j as int);
            if j < n && b[j] == 0x28 && j > start {
                learn(&mut out, b, start, j);
                proof {
                    lemma_learned_cons(acc, b@.subrange(start as int, j as int), rest);
                }
            } else {
                assert(Seq::<Seq<u8>>::empty() + rest =~= rest);
            }
            i = j;
        } else {
            i = i + 1;
        }
    }
    let kw_channel: [u8; 8] = [0x63, 0x68, 0x61, 0x6e, 0x6e, 0x65, 0x6c, 0x20];
    let kw_joined: [u8; 7] = [0x6a, 0x6f, 0x69, 0x6e, 0x65, 0x64, 0x20];
    assert(kw_channel@ =~= channel_keyword());
    assert(kw_joined@ =~= joined_keyword());
    learn_keyword(&mut out, b, kw_channel.as_slice());
    learn_keyword(&mut out, b, kw_joined.as_slice());
    out
}

proof fn lemma_learned_distinct(acc: Seq<Seq<char>>, names: Seq<Seq<u8>>)
    requires
        acc.no_duplicates(),
        forall|i: int| 0 <= i < acc.len() ==> (#[trigger] acc[i]).len() >= 2,
    ensures
        learned(acc, names).no_duplicates(),
        forall|i: int|
            0 <= i < learned(acc, names).len() ==> (#[trigger] learned(acc, names)[i]).len() >= 2,
    decreases names.len(),
{
    if names.len() > 0 {
        let next = learn_one(acc, names[0]);
        if names[0].len() >= 2 && !acc.contains(latin1_seq(names[0])) {
            assert forall|i: int, j: int|
                0 <= i < next.len() && 0 <= j < next.len() && i != j implies next[i] != next[j] by {
                if i == acc.len() {
                    assert(acc[j] == next[j]);
                } else if j == acc.len() {
                    assert(acc[i] == next[i]);
                }
            }
        }
        lemma_learned_distinct(next, names.drop_first());
    }
}

/// The channel names a payload teaches are distinct and at least two
/// characters long.
pub proof fn law_learned_channel_names_are_distinct(payload: Seq<u8>)
    ensures
        ucs_channels_of(payload).no_duplicates(),
        forall|i: int|
            0 <= i < ucs_channels_of(payload).len() ==> (#[trigger] ucs_channels_of(payload)[i]).len()
                >= 2,
{
    if payload.len() >= 12 {
        let b = deobfuscated(payload);
        let a0 = Seq::<Seq<char>>::empty();
        lemma_learned_distinct(a0, roster_names(b, 0));
        let a1 = learned(a0, roster_names(b, 0));
        lemma_learned_distinct(a1, keyword_name(b, channel_keyword()));
        let a2 = learned(a1, keyword_name(b, channel_keyword()));
        lemma_learned_distinct(a2, keyword_name(b, joined_keyword()));
    }
}

/// A channel-name character: an ASCII letter or digit, or `_`.
pub open spec fn channel_name_char(c: char) -> bool {
    let u = c as u32;
    (0x30 <= u <= 0x39) || (0x41 <= u <= 0x5a) || (0x61 <= u <= 0x7a) || u == 0x5f
}

/// Every character of `s` may appear in a channel name.
pub open spec fn channel_name_text(s: Seq<char>) -> bool {
    forall|k: int| 0 <= k < s.len() ==> channel_name_char(#[trigger] s[k])
}

/// Every byte of `n` may appear in a channel name.
pub open spec fn name_bytes(n: Seq<u8>) -> bool {
    forall|k: int| 0 <= k < n.len() ==> name_char(#[trigger] n[k])
}

proof fn lemma_name_end_chars(b: Seq<u8>, i: int)
    requires
        0 <= i <= b.len(),
    ensures
        name_bytes(b.subrange(i, name_end(b, i))),
    decreases b.len() - i,
{
    lemma_name_end_bounds(b, i);
    if i < b.len() && name_char(b[i]) {
        lemma_name_end_chars(b, i + 1);
        lemma_name_end_bounds(b, i + 1);
        let t = b.subrange(i + 1, name_end(b, i + 1));
        assert forall|k: int| 0 <= k < b.subrange(i, name_end(b, i)).len() implies name_char(
            #[trigger] b.subrange(i, name_end(b, i))[k],
        ) by {
            if k > 0 {
                assert(b.subrange(i, name_end(b, i))[k] == t[k - 1]);
            }
        }
    }
}

proof fn lemma_roster_names_chars(b: Seq<u8>, i: int)
    ensures
        forall|k: int|
            0 <= k < roster_names(b, i).len() ==> name_bytes(#[trigger] roster_names(b, i)[k]),
    decreases b.len() - i,
{
    if 0 <= i < b.len() {
        if b[i] == 0x3d {
            let j = name_end(b, i + 1);
            lemma_name_end_bounds(b, i + 1);
            lemma_name_end_chars(b, i + 1);
            lemma_roster_names_chars(b, j);
            let head: Seq<Seq<u8>> = if j < b.len() && b[j] == 0x28 && j > i + 1 {
                seq![b.subrange(i + 1, j)]
            } else {
                Seq::empty()
            };
            assert(roster_names(b, i) == head + roster_names(b, j));
            assert forall|k: int| 0 <= k < roster_names(b, i).len() implies name_bytes(
                #[trigger] roster_names(b, i)[k],
            ) by {
                if k >= head.len() {
                    assert(roster_names(b, i)[k] == roster_names(b, j)[k - head.len()]);
                } else {
                    assert(roster_names(b, i)[k] == head[k]);
                }
            }
        } else {
            lemma_roster_names_chars(b, i + 1);
            assert(roster_names(b, i) == roster_names(b, i + 1));
        }
    }
}

proof fn lemma_keyword_name_chars(b: Seq<u8>, kw: Seq<u8>)
    ensures
        forall|k: int|
            0 <= k < keyword_name(b, kw).len() ==> name_bytes(#[trigger] keyword_name(b, kw)[k]),
{
    match find_from(b, kw, 0) {
        None => {},
        Some(p) => {
            let start = p + kw.len();
            if name_end(b, start) > start {
                lemma_find_from_bounds(b, kw, 0);
                lemma_name_end_chars(b, start);
            }
        },
    }
}

proof fn lemma_learned_chars(acc: Seq<Seq<char>>, names: Seq<Seq<u8>>)
    requires
        forall|i: int| 0 <= i < acc.len() ==> channel_name_text(#[trigger] acc[i]),
        forall|i: int| 0 <= i < names.len() ==> name_bytes(#[trigger] names[i]),
    ensures
        forall|i: int|
            0 <= i < learned(acc, names).len() ==> channel_name_text(
                #[trigger] learned(acc, names)[i],
            ),
    decreases names.len(),
{
    if names.len() > 0 {
        let n = names[0];
        let next = learn_one(acc, n);
        assert(channel_name_text(latin1_seq(n))) by {
            assert forall|k: int| 0 <= k < latin1_seq(n).len() implies channel_name_char(
                #[trigger] latin1_seq(n)[k],
            ) by {
                assert(name_char(n[k]));
                assert(latin1_seq(n)[k] == latin1_char(n[k]));
            }
        }
        assert forall|i: int| 0 <= i < names.drop_first().len() implies name_bytes(
            #[trigger] names.drop_first()[i],
        ) by {
            assert(names.drop_first()[i] == names[i + 1]);
        }
        assert forall|i: int| 0 <= i < next.len() implies channel_name_text(#[trigger] next[i]) by {
            if i < acc.len() {
                assert(next[i] == acc[i]);
            }
        }
        lemma_learned_chars(next, names.drop_first());
        assert(learned(acc, names) == learned(next, names.drop_first()));
    }
}

/// Learned channel names use only ASCII letters, digits and `_`; a payload
/// under twelve bytes teaches none.
pub proof fn law_learned_channel_names_are_words(payload: Seq<u8>)
    ensures
        payload.len() < 12 ==> ucs_channels_of(payload).len() == 0,
        forall|i: int|
            0 <= i < ucs_channels_of(payload).len() ==> channel_name_text(
                #[trigger] ucs_channels_of(payload)[i],
            ),
{
    if payload.len() >= 12 {
        let b = deobfuscated(payload);
        let a0 = Seq::<Seq<char>>::empty();
        lemma_roster_names_chars(b, 0);
        lemma_learned_chars(a0, roster_names(b, 0));
        let a1 = learned(a0, roster_names(b, 0));
        lemma_keyword_name_chars(b, channel_keyword());
        lemma_learned_chars(a1, keyword_name(b, channel_keyword()));
        let a2 = learned(a1, keyword_name(b, channel_keyword()));
        lemma_keyword_name_chars(b, joined_keyword());
        lemma_learned_chars(a2, keyword_name(b, joined_keyword()));
    }
}

/// How many `SPAM:` markers a scan from `scan` finds.
pub open spec fn markers_from(b: Seq<u8>, scan: int) -> nat
    decreases b.len() - scan,
{
    if scan < 0 || scan + 5 > b.len() {
        0
    } else {
        match find_from(b, spam_marker(), scan) {
            None => 0,
            Some(p) => {
                proof {
                    lemma_find_from_bounds(b, spam_marker(), scan);
                }
                1 + markers_from(b, p + 5)
            },
        }
    }
}

/// What every chat line carries: a sender of one to 32 bytes with no `.`
/// left in it, and a message of at least one byte.
pub open spec fn well_framed(r: UcsLine) -> bool {
    &&& r.sender.len() > 0
    &&& encode_utf8(r.sender).len() <= 32
    &&& !r.sender.contains('.')
    &&& r.message.len() > 0
}

proof fn lemma_after_last_dot_has_no_dot(s: Seq<char>)
    ensures
        !after_last_dot(s).contains('.'),
    decreases s.len(),
{
    if s.len() > 0 && s.last() != '.' {
        lemma_after_last_dot_has_no_dot(s.drop_last());
        let t = after_last_dot(s.drop_last());
        assert forall|k: int| 0 <= k < t.push(s.last()).len() implies t.push(s.last())[k] != '.' by {
            if k < t.len() {
                assert(t.push(s.last())[k] == t[k]);
            }
        }
    }
}

proof fn lemma_encoded_empty(s: Seq<char>)
    requires
        encode_utf8(s).len() > 0,
    ensures
        s.len() > 0,
{
    if s.len() == 0 {
        vstd::utf8::encode_utf8_decode_utf8(s);
        assert(encode_utf8(s) =~= Seq::<u8>::empty()) by {
            vstd::utf8::encode_utf8_decode_utf8(s);
            if encode_utf8(s).len() > 0 {
                vstd::utf8::encode_utf8_first_scalar(s);
            }
        }
    }
}

proof fn lemma_record_at_framed(b: Seq<u8>, p: int)
    ensures
        record_at(b, p) matches Some(r) ==> well_framed(r),
{
    if let Some(r) = record_at(b, p) {
        let msg_end = p - 1;
        let msg_start = field_start(b, msg_end);
        let ss_end = msg_start - 1;
        let ss_start = field_start(b, ss_end);
        lemma_after_last_dot_has_no_dot(latin1_seq(b.subrange(ss_start, ss_end)));
        lemma_encoded_empty(r.sender);
        lemma_encoded_empty(r.message);
    }
}

proof fn lemma_records_from_framed(b: Seq<u8>, scan: int)
    ensures
        records_from(b, scan).len() <= markers_from(b, scan),
        forall|i: int|
            0 <= i < records_from(b, scan).len() ==> well_framed(
                #[trigger] records_from(b, scan)[i],
            ),
    decreases b.len() - scan,
{
    if 0 <= scan && scan + 5 <= b.len() {
        if let Some(p) = find_from(b, spam_marker(), scan) {
            lemma_find_from_bounds(b, spam_marker(), scan);
            lemma_record_at_framed(b, p);
            lemma_records_from_framed(b, p + 5);
            let head: Seq<UcsLine> = match record_at(b, p) {
                Some(r) => seq![r],
                None => Seq::empty(),
            };
            let tail = records_from(b, p + 5);
            assert(records_from(b, scan) == head + tail);
            assert forall|i: int| 0 <= i < records_from(b, scan).len() implies well_framed(
                #[trigger] records_from(b, scan)[i],
            ) by {
                if i < head.len() {
                    assert(records_from(b, scan)[i] == head[i]);
                } else {
                    assert(records_from(b, scan)[i] == tail[i - head.len()]);
                }
            }
        }
    }
}

/// A payload under twelve bytes holds no chat; otherwise there is at most one
/// line per `SPAM:` marker of the de-obfuscated payload, and every line has a
/// sender of one to 32 bytes with no `.` in it and a non-empty message.
pub proof fn law_chat_lines_are_well_framed(payload: Seq<u8>)
    ensures
        payload.len() < 12 ==> ucs_chat_of(payload).len() == 0,
        payload.len() >= 12 ==> ucs_chat_of(payload).len() <= markers_from(
            deobfuscated(payload),
            0,
        ),
        forall|i: int|
            0 <= i < ucs_chat_of(payload).len() ==> well_framed(#[trigger] ucs_chat_of(payload)[i]),
{
    if payload.len() >= 12 {
        lemma_records_from_framed(deobfuscated(payload), 0);
    }
}

} // verus!
