//! `OP_PlayerProfile` on EQ Legends: the player's own record, about 40 KB.
//!
//! Four parts, each read only as far as the payload carries it:
//!
//! 1. Identity at fixed offsets: gender `u8`@20, race `u32`@21, class
//!    `u32`@25, multiclass bitmask `u32`@29, level `u8`@33; base stats (the
//!    loadout roll, not gear totals) as seven `u32` from @962.
//! 2. A walk from @35 through every count-prefixed section to the AA array
//!    and the skill array (every count varies per character, so nothing past
//!    @34 sits at a fixed offset).
//! 3. The name block, found by its signature — `u32 == 64`, a 64-byte
//!    NUL-terminated capitalised printable name, `u32 == 32`, a 32-byte last
//!    name — and the positional tail after it (birthday, expansions,
//!    languages, zone, position, guild).
//! 4. Stance and invocation @33777/@33781 and the carried and cursor purses
//!    @33687/@33703 in the fixed prefix; the inventory and bank purses follow
//!    the inventory mirror of the carried purse, found by its value.
//!
//! The position is IEEE `f32` on the wire and is surfaced as raw bits.
use vstd::prelude::*;

use crate::decode::DecodeError;
use crate::text::latin1_seq;
use crate::wire::{be_u16, le_u16, le_u32, nul_in, rd_u16, rd_u16_be, rd_u32};

verus! {

/// The fields of a player profile this decoder fills.
#[derive(Debug, Clone, PartialEq, Eq, Default)]
pub struct PlayerProfile {
    pub gender: u8,
    pub race: u32,
    pub class_: u32,
    /// Multiclass bitmask (bit N = class N).
    pub class_mask: u32,
    pub level: u8,
    pub str_: u32,
    pub sta: u32,
    pub cha: u32,
    pub dex: u32,
    pub int_: u32,
    pub agi: u32,
    pub wis: u32,
    /// At most the first hundred skill values.
    pub skills: Vec<u32>,
    pub aa_ids: Vec<u32>,
    pub aa_values: Vec<u32>,
    /// The AA values summed, wrapping at 32 bits.
    pub aa_spent: u32,
    pub name: String,
    pub last_name: String,
    pub birthday_time: u32,
    pub account_create_date: u32,
    pub last_save_time: u32,
    pub time_played_min: u32,
    pub expansions: u32,
    pub languages: Vec<u8>,
    pub zone_id: u16,
    pub zone_instance: u16,
    /// Bits of the `f32` position, y then x then z, and heading.
    pub y_bits: u32,
    pub x_bits: u32,
    pub z_bits: u32,
    pub heading_bits: u32,
    pub stand_state: u16,
    pub anon: u16,
    pub guild_id: u32,
    pub guild_server_id: u32,
    pub stance: u32,
    pub invocation: u32,
    pub platinum: u32,
    pub gold: u32,
    pub silver: u32,
    pub copper: u32,
    pub platinum_cursor: u32,
    pub gold_cursor: u32,
    pub silver_cursor: u32,
    pub copper_cursor: u32,
    pub platinum_inventory: u32,
    pub gold_inventory: u32,
    pub silver_inventory: u32,
    pub copper_inventory: u32,
    pub platinum_bank: u32,
    pub gold_bank: u32,
    pub silver_bank: u32,
    pub copper_bank: u32,
}

/// Bytes the skill array is stored up to.
pub const MAX_KNOWN_SKILLS: usize = 100;

// ---- the count-prefixed walk ------------------------------------------------

/// A `u32` count at `p` followed by `count` entries of `k` bytes: the cursor
/// after them, or `None` when the payload ends first.
pub open spec fn counted(b: Seq<u8>, p: int, k: int) -> Option<int> {
    if p + 4 > b.len() {
        None
    } else {
        let q = p + 4 + k * le_u32(b, p);
        if q > b.len() {
            None
        } else {
            Some(q)
        }
    }
}

/// Where the AA array's count sits: past bind points, deity and
/// intoxication, spell refresh, equipment, three unknown arrays and 119
/// fixed bytes; `None` on an underflow.
pub open spec fn aa_count_pos(b: Seq<u8>) -> Option<int> {
    match counted(b, 35, 20) {
        None => None,
        Some(p1) => if p1 + 8 > b.len() {
            None
        } else {
            match counted(b, p1 + 8, 4) {
                None => None,
                Some(p3) => match counted(b, p3, 20) {
                    None => None,
                    Some(p4) => match counted(b, p4, 20) {
                        None => None,
                        Some(p5) => match counted(b, p5, 4) {
                            None => None,
                            Some(p6) => match counted(b, p6, 4) {
                                None => None,
                                Some(p7) => if p7 + 119 > b.len() {
                                    None
                                } else {
                                    Some(p7 + 119)
                                },
                            },
                        },
                    },
                },
            }
        },
    }
}

/// The `u32` words of `count` strided records from `start`.
pub open spec fn words(b: Seq<u8>, start: int, stride: int, count: nat) -> Seq<u32> {
    Seq::new(count, |k: int| le_u32(b, start + stride * k))
}

/// The values summed, wrapping at 32 bits.
pub open spec fn wrapping_sum(v: Seq<u32>) -> u32
    decreases v.len(),
{
    if v.len() == 0 {
        0
    } else {
        wrapping_sum(v.drop_last()).wrapping_add(v.last())
    }
}

/// What the walk yields: AA ids, AA values, AA points spent, skills.
pub struct SkillWalk {
    pub aa_ids: Seq<u32>,
    pub aa_values: Seq<u32>,
    pub aa_spent: u32,
    pub skills: Seq<u32>,
}

/// The walk over a profile: nothing when the AA array does not fit, the AA
/// fields alone when the skill array does not.
pub open spec fn skill_walk(b: Seq<u8>) -> SkillWalk {
    let none = SkillWalk {
        aa_ids: Seq::empty(),
        aa_values: Seq::empty(),
        aa_spent: 0,
        skills: Seq::empty(),
    };
    match aa_count_pos(b) {
        None => none,
        Some(pc) => if pc + 4 > b.len() {
            none
        } else {
            let count = le_u32(b, pc) as nat;
            let pa = pc + 4;
            if pa + 12 * count > b.len() {
                none
            } else {
                let values = words(b, pa + 4, 12, count);
                let ps = pa + 12 * count;
                let with_aa = SkillWalk {
                    aa_ids: words(b, pa, 12, count),
                    aa_values: values,
                    aa_spent: wrapping_sum(values),
                    skills: Seq::empty(),
                };
                if ps + 4 > b.len() {
                    with_aa
                } else {
                    let sc = le_u32(b, ps) as nat;
                    if ps + 4 + 4 * sc > b.len() {
                        with_aa
                    } else {
                        let stored = if sc < MAX_KNOWN_SKILLS {
                            sc
                        } else {
                            MAX_KNOWN_SKILLS as nat
                        };
                        SkillWalk { skills: words(b, ps + 4, 4, stored), ..with_aa }
                    }
                }
            }
        },
    }
}

// ---- the name block ---------------------------------------------------------

/// From `i`, a run of printable bytes ends in a NUL before `hi`.
pub open spec fn printable_then_nul(b: Seq<u8>, i: int, hi: int) -> bool
    decreases hi - i,
{
    if i < 0 || i >= hi || i >= b.len() {
        false
    } else if b[i] == 0 {
        true
    } else if 0x20 <= b[i] <= 0x7e {
        printable_then_nul(b, i + 1, hi)
    } else {
        false
    }
}

/// The name-block signature at `p`: `u32 == 64`, a capitalised printable
/// NUL-terminated name, `u32 == 32`.
pub open spec fn name_block_at(b: Seq<u8>, p: int) -> bool {
    &&& b[p] == 0x40 && b[p + 1] == 0 && b[p + 2] == 0 && b[p + 3] == 0
    &&& b[p + 68] == 0x20 && b[p + 69] == 0 && b[p + 70] == 0 && b[p + 71] == 0
    &&& 0x41 <= b[p + 4] <= 0x5a
    &&& printable_then_nul(b, p + 4, p + 68)
}

/// The first name block at or after `p`.
pub open spec fn name_block_from(b: Seq<u8>, p: int) -> Option<int>
    decreases b.len() - p,
{
    if b.len() < 104 || p < 0 || p > b.len() - 104 {
        None
    } else if name_block_at(b, p) {
        Some(p)
    } else {
        name_block_from(b, p + 1)
    }
}

/// NUL-terminated latin-1 text of the fixed field `lo..hi`.
pub open spec fn field_text(b: Seq<u8>, lo: int, hi: int) -> Seq<char> {
    match nul_in(b, lo, hi) {
        Some(e) => latin1_seq(b.subrange(lo, e)),
        None => latin1_seq(b.subrange(lo, hi)),
    }
}

/// A `u32` field ending at `end`, when the payload reaches it.
pub open spec fn u32_if(b: Seq<u8>, at: int) -> u32 {
    if at + 4 <= b.len() {
        le_u32(b, at)
    } else {
        0
    }
}

/// What the name block at `p0` and the tail after it carry.
pub struct NameTail {
    pub name: Seq<char>,
    pub last_name: Seq<char>,
    pub birthday_time: u32,
    pub account_create_date: u32,
    pub last_save_time: u32,
    pub time_played_min: u32,
    pub expansions: u32,
    pub languages: Seq<u8>,
    pub zone_id: u16,
    pub zone_instance: u16,
    pub y_bits: u32,
    pub x_bits: u32,
    pub z_bits: u32,
    pub heading_bits: u32,
    pub stand_state: u16,
    pub anon: u16,
    pub guild_id: u32,
    pub guild_server_id: u32,
}

/// Name, last name and the tail fields, each read only if the payload
/// reaches its end; the language list is cut where the payload ends.
pub open spec fn name_tail(b: Seq<u8>, p0: int) -> NameTail {
    let n = b.len() as int;
    let t = p0 + 104;
    let lang_at = t + 32;
    let lc = if t + 32 <= n {
        le_u32(b, t + 28) as int
    } else {
        0
    };
    let lang_end = if lang_at + lc <= n {
        lang_at + lc
    } else {
        n
    };
    let q = lang_at + lc;
    let langs_ok = t + 32 <= n && lang_at + lc <= n;
    NameTail {
        name: field_text(b, p0 + 4, p0 + 68),
        last_name: field_text(b, p0 + 72, p0 + 104),
        birthday_time: u32_if(b, t),
        account_create_date: u32_if(b, t + 4),
        last_save_time: u32_if(b, t + 8),
        time_played_min: u32_if(b, t + 12),
        expansions: u32_if(b, t + 20),
        languages: if t + 32 <= n {
            b.subrange(lang_at, lang_end)
        } else {
            Seq::empty()
        },
        zone_id: if langs_ok && q + 2 <= n {
            le_u16(b, q)
        } else {
            0
        },
        zone_instance: if langs_ok && q + 4 <= n {
            le_u16(b, q + 2)
        } else {
            0
        },
        y_bits: if langs_ok {
            u32_if(b, q + 4)
        } else {
            0
        },
        x_bits: if langs_ok {
            u32_if(b, q + 8)
        } else {
            0
        },
        z_bits: if langs_ok {
            u32_if(b, q + 12)
        } else {
            0
        },
        heading_bits: if langs_ok {
            u32_if(b, q + 16)
        } else {
            0
        },
        stand_state: if langs_ok && q + 22 <= n {
            be_u16(b, q + 20)
        } else {
            0
        },
        anon: if langs_ok && q + 24 <= n {
            be_u16(b, q + 22)
        } else {
            0
        },
        guild_id: if langs_ok {
            u32_if(b, q + 24)
        } else {
            0
        },
        guild_server_id: if langs_ok {
            u32_if(b, q + 28)
        } else {
            0
        },
    }
}

/// No name block: every name and tail field at its default.
pub open spec fn no_name_tail() -> NameTail {
    NameTail {
        name: Seq::empty(),
        last_name: Seq::empty(),
        birthday_time: 0,
        account_create_date: 0,
        last_save_time: 0,
        time_played_min: 0,
        expansions: 0,
        languages: Seq::empty(),
        zone_id: 0,
        zone_instance: 0,
        y_bits: 0,
        x_bits: 0,
        z_bits: 0,
        heading_bits: 0,
        stand_state: 0,
        anon: 0,
        guild_id: 0,
        guild_server_id: 0,
    }
}

// ---- the purses ---------------------------------------------------------------

/// The carried purse recurs at `i` (platinum, gold, silver, copper).
pub open spec fn purse_at(b: Seq<u8>, i: int, c: (u32, u32, u32, u32)) -> bool {
    le_u32(b, i) == c.0 && le_u32(b, i + 4) == c.1 && le_u32(b, i + 8) == c.2 && le_u32(
        b,
        i + 12,
    ) == c.3
}

/// The first recurrence of the carried purse at or after `i`.
pub open spec fn purse_from(b: Seq<u8>, i: int, c: (u32, u32, u32, u32)) -> Option<int>
    decreases b.len() - i,
{
    if i < 0 || i + 16 > b.len() {
        None
    } else if purse_at(b, i, c) {
        Some(i)
    } else {
        purse_from(b, i + 1, c)
    }
}

/// Where the inventory mirror of the carried purse sits, when the payload
/// reaches the bank after it; never for an empty purse, which would match
/// padding anywhere.
pub open spec fn mirror_at(b: Seq<u8>) -> Option<int> {
    if b.len() < 36277 {
        None
    } else {
        let c = (le_u32(b, 33687), le_u32(b, 33691), le_u32(b, 33695), le_u32(b, 33699));
        if c == (0u32, 0u32, 0u32, 0u32) {
            None
        } else {
            match purse_from(b, 33703, c) {
                Some(off) => if off + 32 <= b.len() {
                    Some(off)
                } else {
                    None
                },
                None => None,
            }
        }
    }
}

// ---- executable -----------------------------------------------------------------

fn counted_at(b: &[u8], p: usize, k: u64) -> (r: Option<usize>)
    requires
        p <= b@.len(),
        k <= 20,
    ensures
        match r {
            Some(q) => counted(b@, p as int, k as int) == Some(q as int),
            None => counted(b@, p as int, k as int) is None,
        },
{
    let n = b.len();
    if n - p < 4 {
        return None;
    }
    let count = rd_u32(b, p) as u64;
    assert(k * count <= 20 * 0x1_0000_0000) by (nonlinear_arith)
        requires
            k <= 20,
            count < 0x1_0000_0000,
    ;
    let need = k * count;
    if need > (n - p - 4) as u64 {
        return None;
    }
    Some(p + 4 + need as usize)
}

fn aa_count_pos_exec(b: &[u8]) -> (r: Option<usize>)
    ensures
        match r {
            Some(q) => aa_count_pos(b@) == Some(q as int),
            None => aa_count_pos(b@) is None,
        },
{
    let n = b.len();
    if n < 35 {
        return None;
    }
    // bind points: count, then 20 bytes each.
    let p1 = match counted_at(b, 35, 20) {
        Some(q) => q,
        None => return None,
    };
    // deity, intoxication.
    if n - p1 < 8 {
        return None;
    }
    // spell-slot refresh: count, then a u32 each.
    let p3 = match counted_at(b, p1 + 8, 4) {
        Some(q) => q,
        None => return None,
    };
    // equipment: count, then 20 bytes each.
    let p4 = match counted_at(b, p3, 20) {
        Some(q) => q,
        None => return None,
    };
    // three unknown count-prefixed arrays: 20, 4 and 4 bytes per entry.
    let p5 = match counted_at(b, p4, 20) {
        Some(q) => q,
        None => return None,
    };
    let p6 = match counted_at(b, p5, 4) {
        Some(q) => q,
        None => return None,
    };
    let p7 = match counted_at(b, p6, 4) {
        Some(q) => q,
        None => return None,
    };
    // appearance (51), ten vitals and stats (40), padding (28).
    if n - p7 < 119 {
        return None;
    }
    Some(p7 + 119)
}

/// The profile's walk: AA ids and values, AA points spent and skills.
fn walk_profile_skills(b: &[u8]) -> (r: (Vec<u32>, Vec<u32>, u32, Vec<u32>))
    ensures
        r.0@ == skill_walk(b@).aa_ids,
        r.1@ == skill_walk(b@).aa_values,
        r.2 == skill_walk(b@).aa_spent,
        r.3@ == skill_walk(b@).skills,
{
    let n = b.len();
    let mut aa_ids: Vec<u32> = Vec::new();
    let mut aa_values: Vec<u32> = Vec::new();
    let mut skills: Vec<u32> = Vec::new();
    let pc = match aa_count_pos_exec(b) {
        Some(q) => q,
        None => {
            assert(aa_ids@ =~= Seq::<u32>::empty());
            return (aa_ids, aa_values, 0, skills);
        },
    };
    if n - pc < 4 {
        return (aa_ids, aa_values, 0, skills);
    }
    let count = rd_u32(b, pc) as u64;
    let pa = pc + 4;
    if 12 * count > (n - pa) as u64 {
        return (aa_ids, aa_values, 0, skills);
    }
    let count = count as usize;
    let ghost ids = words(b@, pa as int, 12, count as nat);
    let ghost values = words(b@, pa + 4, 12, count as nat);
    let mut aa_spent: u32 = 0;
    let mut i: usize = 0;
    while i < count
        invariant
            n == b@.len(),
            pa + 12 * count <= n,
            i <= count,
            ids == words(b@, pa as int, 12, count as nat),
            values == words(b@, pa + 4, 12, count as nat),
            aa_ids@ == ids.take(i as int),
            aa_values@ == values.take(i as int),
            aa_spent == wrapping_sum(values.take(i as int)),
        decreases count - i,
    {
        let at = pa + 12 * i;
        let id = rd_u32(b, at);
        let val = rd_u32(b, at + 4);
        aa_spent = aa_spent.wrapping_add(val);
        aa_ids.push(id);
        aa_values.push(val);
        proof {
            assert(values.take(i + 1).drop_last() =~= values.take(i as int));
            assert(aa_ids@ =~= ids.take(i + 1));
            assert(aa_values@ =~= values.take(i + 1));
        }
        i = i + 1;
    }
    assert(ids.take(count as int) =~= ids);
    assert(values.take(count as int) =~= values);
    let ps = pa + 12 * count;
    if n - ps < 4 {
        return (aa_ids, aa_values, aa_spent, skills);
    }
    let sc = rd_u32(b, ps) as u64;
    if 4 * sc > (n - ps - 4) as u64 {
        return (aa_ids, aa_values, aa_spent, skills);
    }
    let stored: usize = if sc < MAX_KNOWN_SKILLS as u64 {
        sc as usize
    } else {
        MAX_KNOWN_SKILLS
    };
    let ghost sk = words(b@, ps + 4, 4, stored as nat);
    let mut j: usize = 0;
    while j < stored
        invariant
            n == b@.len(),
            ps + 4 + 4 * stored <= n,
            j <= stored,
            sk == words(b@, ps + 4, 4, stored as nat),
            skills@ == sk.take(j as int),
        decreases stored - j,
    {
        skills.push(rd_u32(b, ps + 4 + 4 * j));
        proof {
            assert(skills@ =~= sk.take(j + 1));
        }
        j = j + 1;
    }
    assert(sk.take(stored as int) =~= sk);
    (aa_ids, aa_values, aa_spent, skills)
}

fn printable_then_nul_exec(b: &[u8], lo: usize, hi: usize) -> (r: bool)
    requires
        lo <= hi <= b@.len(),
    ensures
        r == printable_then_nul(b@, lo as int, hi as int),
{
    let mut i = lo;
    while i < hi
        invariant
            lo <= i <= hi <= b@.len(),
            printable_then_nul(b@, lo as int, hi as int) == printable_then_nul(
                b@,
                i as int,
                hi as int,
            ),
        decreases hi - i,
    {
        let c = b[i];
        if c == 0 {
            return true;
        }
        if !(0x20 <= c && c <= 0x7e) {
            return false;
        }
        i = i + 1;
    }
    false
}

/// The offset of the name block's leading `u32 == 64`: the first spot whose
/// bytes carry the block's signature and spell a capitalised, printable,
/// NUL-terminated name (binary that happens to carry the two length words
/// will not also spell a name).
fn find_profile_name_block(b: &[u8]) -> (r: Option<usize>)
    ensures
        match r {
            Some(p) => name_block_from(b@, 0) == Some(p as int),
            None => name_block_from(b@, 0) is None,
        },
{
    let n = b.len();
    if n < 104 {
        return None;
    }
    let mut p: usize = 0;
    while p <= n - 104
        invariant
            n == b@.len(),
            n >= 104,
            name_block_from(b@, 0) == name_block_from(b@, p as int),
        decreases n - p,
    {
        let sig = b[p] == 0x40 && b[p + 1] == 0 && b[p + 2] == 0 && b[p + 3] == 0 && b[p + 68]
            == 0x20 && b[p + 69] == 0 && b[p + 70] == 0 && b[p + 71] == 0;
        if sig && 0x41 <= b[p + 4] && b[p + 4] <= 0x5a && printable_then_nul_exec(b, p + 4, p + 68) {
            return Some(p);
        }
        p = p + 1;
    }
    None
}

/// NUL-terminated latin-1 text of the fixed field `lo..hi`.
fn field_text_exec(b: &[u8], lo: usize, hi: usize) -> (s: String)
    requires
        lo <= hi <= b@.len(),
    ensures
        s@ == field_text(b@, lo as int, hi as int),
{
    match crate::wire::find_nul_in(b, lo, hi) {
        Some(e) => crate::wire::latin1_range(b, lo, e),
        None => crate::wire::latin1_range(b, lo, hi),
    }
}

/// `u32` at `base + off` when the payload reaches it, else 0.
fn u32_if_exec(b: &[u8], base: usize, off: usize) -> (r: u32)
    requires
        base <= b@.len(),
        off <= 64,
    ensures
        r == u32_if(b@, base + off),
{
    if b.len() - base >= off + 4 {
        rd_u32(b, base + off)
    } else {
        0
    }
}

/// Name, last name and the positional tail after the block at `p0`. Byte
/// orders follow the tail's: stand state and anon big-endian, the rest
/// little-endian. A truncated tail leaves the fields past the cut at their
/// defaults.
fn read_profile_name_and_tail(b: &[u8], p0: usize, prof: &mut PlayerProfile)
    requires
        p0 + 104 <= b@.len(),
    ensures
        profile_has_tail(*final(prof), name_tail(b@, p0 as int)),
        same_outside_tail(*old(prof), *final(prof)),
{
    let n = b.len();
    prof.name = field_text_exec(b, p0 + 4, p0 + 68);
    prof.last_name = field_text_exec(b, p0 + 72, p0 + 104);
    let t = p0 + 104;
    prof.birthday_time = u32_if_exec(b, t, 0);
    prof.account_create_date = u32_if_exec(b, t, 4);
    prof.last_save_time = u32_if_exec(b, t, 8);
    prof.time_played_min = u32_if_exec(b, t, 12);
    prof.expansions = u32_if_exec(b, t, 20);
    prof.languages = Vec::new();
    prof.zone_id = 0;
    prof.zone_instance = 0;
    prof.y_bits = 0;
    prof.x_bits = 0;
    prof.z_bits = 0;
    prof.heading_bits = 0;
    prof.stand_state = 0;
    prof.anon = 0;
    prof.guild_id = 0;
    prof.guild_server_id = 0;
    if n - t < 32 {
        assert(prof.languages@ =~= Seq::<u8>::empty());
        return;
    }
    let lc = rd_u32(b, t + 28) as usize;
    let lang_at = t + 32;
    let lang_end = if lc <= n - lang_at {
        lang_at + lc
    } else {
        n
    };
    let mut langs: Vec<u8> = Vec::new();
    let mut k = lang_at;
    while k < lang_end
        invariant
            lang_at <= k <= lang_end <= n,
            n == b@.len(),
            langs@ == b@.subrange(lang_at as int, k as int),
        decreases lang_end - k,
    {
        langs.push(b[k]);
        k = k + 1;
        assert(langs@ =~= b@.subrange(lang_at as int, k as int));
    }
    prof.languages = langs;
    if lc > n - lang_at {
        return;
    }
    let q = lang_at + lc;
    if n - q >= 2 {
        prof.zone_id = rd_u16(b, q);
    }
    if n - q >= 4 {
        prof.zone_instance = rd_u16(b, q + 2);
    }
    // Position wire order is y, x, z, heading.
    prof.y_bits = u32_if_exec(b, q, 4);
    prof.x_bits = u32_if_exec(b, q, 8);
    prof.z_bits = u32_if_exec(b, q, 12);
    prof.heading_bits = u32_if_exec(b, q, 16);
    if n - q >= 22 {
        prof.stand_state = rd_u16_be(b, q + 20);
    }
    if n - q >= 24 {
        prof.anon = rd_u16_be(b, q + 22);
    }
    prof.guild_id = u32_if_exec(b, q, 24);
    prof.guild_server_id = u32_if_exec(b, q, 28);
}

/// The profile's name and tail fields are those of `nt`.
pub open spec fn profile_has_tail(p: PlayerProfile, nt: NameTail) -> bool {
    &&& p.name@ == nt.name
    &&& p.last_name@ == nt.last_name
    &&& p.birthday_time == nt.birthday_time
    &&& p.account_create_date == nt.account_create_date
    &&& p.last_save_time == nt.last_save_time
    &&& p.time_played_min == nt.time_played_min
    &&& p.expansions == nt.expansions
    &&& p.languages@ == nt.languages
    &&& p.zone_id == nt.zone_id
    &&& p.zone_instance == nt.zone_instance
    &&& p.y_bits == nt.y_bits
    &&& p.x_bits == nt.x_bits
    &&& p.z_bits == nt.z_bits
    &&& p.heading_bits == nt.heading_bits
    &&& p.stand_state == nt.stand_state
    &&& p.anon == nt.anon
    &&& p.guild_id == nt.guild_id
    &&& p.guild_server_id == nt.guild_server_id
}

/// Two profiles agree on every field the name block does not carry.
pub open spec fn same_outside_tail(a: PlayerProfile, b: PlayerProfile) -> bool {
    &&& a.gender == b.gender && a.race == b.race && a.class_ == b.class_
    &&& a.class_mask == b.class_mask && a.level == b.level
    &&& a.str_ == b.str_ && a.sta == b.sta && a.cha == b.cha && a.dex == b.dex
    &&& a.int_ == b.int_ && a.agi == b.agi && a.wis == b.wis
    &&& a.skills@ == b.skills@ && a.aa_ids@ == b.aa_ids@ && a.aa_values@ == b.aa_values@
    &&& a.aa_spent == b.aa_spent && a.stance == b.stance && a.invocation == b.invocation
    &&& a.platinum == b.platinum && a.gold == b.gold && a.silver == b.silver
    &&& a.copper == b.copper
    &&& a.platinum_cursor == b.platinum_cursor && a.gold_cursor == b.gold_cursor
    &&& a.silver_cursor == b.silver_cursor && a.copper_cursor == b.copper_cursor
    &&& a.platinum_inventory == b.platinum_inventory && a.gold_inventory == b.gold_inventory
    &&& a.silver_inventory == b.silver_inventory && a.copper_inventory == b.copper_inventory
    &&& a.platinum_bank == b.platinum_bank && a.gold_bank == b.gold_bank
    &&& a.silver_bank == b.silver_bank && a.copper_bank == b.copper_bank
}

fn find_purse(b: &[u8], from: usize, c: (u32, u32, u32, u32)) -> (r: Option<usize>)
    requires
        from <= b@.len(),
    ensures
        match r {
            Some(i) => purse_from(b@, from as int, c) == Some(i as int) && i + 16 <= b@.len(),
            None => purse_from(b@, from as int, c) is None,
        },
{
    let n = b.len();
    let mut i = from;
    while i <= n && n - i >= 16
        invariant
            from <= i,
            n == b@.len(),
            purse_from(b@, from as int, c) == purse_from(b@, i as int, c),
        decreases n - i,
    {
        if rd_u32(b, i) == c.0 && rd_u32(b, i + 4) == c.1 && rd_u32(b, i + 8) == c.2 && rd_u32(
            b,
            i + 12,
        ) == c.3 {
            return Some(i);
        }
        i = i + 1;
    }
    None
}

/// Everything a profile payload of at least 34 bytes decodes to.
pub open spec fn profile_fields(b: Seq<u8>, p: PlayerProfile) -> bool {
    let n = b.len();
    let w = skill_walk(b);
    let nt = match name_block_from(b, 0) {
        Some(p0) => name_tail(b, p0),
        None => no_name_tail(),
    };
    let stats = n >= 990;
    let money = n >= 33719;
    let mirror = mirror_at(b);
    &&& p.gender == b[20] && p.race == le_u32(b, 21) && p.class_ == le_u32(b, 25)
    &&& p.class_mask == le_u32(b, 29) && p.level == b[33]
    &&& p.str_ == (if stats { le_u32(b, 962) } else { 0 })
    &&& p.sta == (if stats { le_u32(b, 966) } else { 0 })
    &&& p.cha == (if stats { le_u32(b, 970) } else { 0 })
    &&& p.dex == (if stats { le_u32(b, 974) } else { 0 })
    &&& p.int_ == (if stats { le_u32(b, 978) } else { 0 })
    &&& p.agi == (if stats { le_u32(b, 982) } else { 0 })
    &&& p.wis == (if stats { le_u32(b, 986) } else { 0 })
    &&& p.aa_ids@ == w.aa_ids && p.aa_values@ == w.aa_values && p.aa_spent == w.aa_spent
    &&& p.skills@ == w.skills
    &&& profile_has_tail(p, nt)
    &&& p.stance == (if n >= 33785 { le_u32(b, 33777) } else { 0 })
    &&& p.invocation == (if n >= 33785 { le_u32(b, 33781) } else { 0 })
    &&& p.platinum == (if money { le_u32(b, 33687) } else { 0 })
    &&& p.gold == (if money { le_u32(b, 33691) } else { 0 })
    &&& p.silver == (if money { le_u32(b, 33695) } else { 0 })
    &&& p.copper == (if money { le_u32(b, 33699) } else { 0 })
    &&& p.platinum_cursor == (if money { le_u32(b, 33703) } else { 0 })
    &&& p.gold_cursor == (if money { le_u32(b, 33707) } else { 0 })
    &&& p.silver_cursor == (if money { le_u32(b, 33711) } else { 0 })
    &&& p.copper_cursor == (if money { le_u32(b, 33715) } else { 0 })
    &&& p.platinum_inventory == (match mirror { Some(o) => le_u32(b, o), None => 0 })
    &&& p.gold_inventory == (match mirror { Some(o) => le_u32(b, o + 4), None => 0 })
    &&& p.silver_inventory == (match mirror { Some(o) => le_u32(b, o + 8), None => 0 })
    &&& p.copper_inventory == (match mirror { Some(o) => le_u32(b, o + 12), None => 0 })
    &&& p.platinum_bank == (match mirror { Some(o) => le_u32(b, o + 16), None => 0 })
    &&& p.gold_bank == (match mirror { Some(o) => le_u32(b, o + 20), None => 0 })
    &&& p.silver_bank == (match mirror { Some(o) => le_u32(b, o + 24), None => 0 })
    &&& p.copper_bank == (match mirror { Some(o) => le_u32(b, o + 28), None => 0 })
}

/// Decode the player's own profile. Only a payload under 34 bytes is an
/// error; every later part degrades to its defaults where the payload ends.
pub fn parse_player_profile(b: &[u8]) -> (r: Result<PlayerProfile, DecodeError>)
    ensures
        b@.len() < 34 ==> r == Err::<PlayerProfile, DecodeError>(
            DecodeError::Short(b@.len() as usize),
        ),
        b@.len() >= 34 ==> (r matches Ok(p) && profile_fields(b@, p)),
{
    let n = b.len();
    if n < 34 {
        return Err(DecodeError::Short(n));
    }
    let (aa_ids, aa_values, aa_spent, skills) = walk_profile_skills(b);
    let mut prof = PlayerProfile {
        gender: b[20],
        race: rd_u32(b, 21),
        class_: rd_u32(b, 25),
        class_mask: rd_u32(b, 29),
        level: b[33],
        str_: 0,
        sta: 0,
        cha: 0,
        dex: 0,
        int_: 0,
        agi: 0,
        wis: 0,
        skills,
        aa_ids,
        aa_values,
        aa_spent,
        name: String::new(),
        last_name: String::new(),
        birthday_time: 0,
        account_create_date: 0,
        last_save_time: 0,
        time_played_min: 0,
        expansions: 0,
        languages: Vec::new(),
        zone_id: 0,
        zone_instance: 0,
        y_bits: 0,
        x_bits: 0,
        z_bits: 0,
        heading_bits: 0,
        stand_state: 0,
        anon: 0,
        guild_id: 0,
        guild_server_id: 0,
        stance: 0,
        invocation: 0,
        platinum: 0,
        gold: 0,
        silver: 0,
        copper: 0,
        platinum_cursor: 0,
        gold_cursor: 0,
        silver_cursor: 0,
        copper_cursor: 0,
        platinum_inventory: 0,
        gold_inventory: 0,
        silver_inventory: 0,
        copper_inventory: 0,
        platinum_bank: 0,
        gold_bank: 0,
        silver_bank: 0,
        copper_bank: 0,
    };
    assert(prof.languages@ =~= Seq::<u8>::empty());
    assert(prof.name@ =~= Seq::<char>::empty());
    assert(prof.last_name@ =~= Seq::<char>::empty());
    // Base stats, in wire order STR/STA/CHA/DEX/INT/AGI/WIS.
    if n >= 990 {
        prof.str_ = rd_u32(b, 962);
        prof.sta = rd_u32(b, 966);
        prof.cha = rd_u32(b, 970);
        prof.dex = rd_u32(b, 974);
        prof.int_ = rd_u32(b, 978);
        prof.agi = rd_u32(b, 982);
        prof.wis = rd_u32(b, 986);
    }
    // Name and tail by the absolute anchor scan; without a block the
    // identity above still stands.
    match find_profile_name_block(b) {
        Some(p0) => {
            proof {
                lemma_name_block_bounds(b@, 0);
            }
            read_profile_name_and_tail(b, p0, &mut prof);
        },
        None => {},
    }
    // Stance and invocation, in the fixed prefix.
    if n >= 33785 {
        prof.stance = rd_u32(b, 33777);
        prof.invocation = rd_u32(b, 33781);
    }
    // Carried and cursor purses, in the fixed prefix. Denominations are not
    // normalised on the wire.
    if n >= 33719 {
        prof.platinum = rd_u32(b, 33687);
        prof.gold = rd_u32(b, 33691);
        prof.silver = rd_u32(b, 33695);
        prof.copper = rd_u32(b, 33699);
        prof.platinum_cursor = rd_u32(b, 33703);
        prof.gold_cursor = rd_u32(b, 33707);
        prof.silver_cursor = rd_u32(b, 33711);
        prof.copper_cursor = rd_u32(b, 33715);
    }
    // The bank follows the inventory mirror of the carried purse, located by
    // its value past the carried block.
    if n >= 36277 {
        let carried = (prof.platinum, prof.gold, prof.silver, prof.copper);
        if !(carried.0 == 0 && carried.1 == 0 && carried.2 == 0 && carried.3 == 0) {
            match find_purse(b, 33703, carried) {
                Some(off) => {
                    if n - off >= 32 {
                        prof.platinum_inventory = rd_u32(b, off);
                        prof.gold_inventory = rd_u32(b, off + 4);
                        prof.silver_inventory = rd_u32(b, off + 8);
                        prof.copper_inventory = rd_u32(b, off + 12);
                        prof.platinum_bank = rd_u32(b, off + 16);
                        prof.gold_bank = rd_u32(b, off + 20);
                        prof.silver_bank = rd_u32(b, off + 24);
                        prof.copper_bank = rd_u32(b, off + 28);
                    }
                },
                None => {},
            }
        }
    }
    Ok(prof)
}

/// Where a found name block lies.
proof fn lemma_name_block_bounds(b: Seq<u8>, p: int)
    ensures
        name_block_from(b, p) matches Some(q) ==> p <= q && q + 104 <= b.len(),
    decreases b.len() - p,
{
    if b.len() >= 104 && 0 <= p <= b.len() - 104 && !name_block_at(b, p) {
        lemma_name_block_bounds(b, p + 1);
    }
}

} // verus!
