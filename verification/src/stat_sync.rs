//! `OP_HPUpdate` on EQ Legends: the multiplexed stat-sync channel.
//!
//! Layout: `u32 spawnId | u8 flags | per-stat payload | [optional u32 tail]`.
//! `flags`: bit0 = wide form; bit1 = HP; bit2 = mana; bit3 = endurance. The
//! per-stat payload appears in bit order: the wide form carries
//! `{i64 cur, i64 max}` per set stat bit, the narrow form one `u8` percent
//! (max 100). `flags 0x31` with no stat bits is the keepalive.
use vstd::prelude::*;

use crate::decode::DecodeError;
use crate::wire::{le_i64, le_u32, rd_i64, rd_u32};

verus! {

/// One decoded stat-sync packet. `wide` packets carry real cur/max pairs,
/// narrow ones a percentage against a max of 100.
#[derive(Debug, Clone, Copy, PartialEq, Eq, Default)]
pub struct StatSync {
    pub spawn_id: u32,
    pub wide: bool,
    pub has_hp: bool,
    pub hp_cur: i64,
    pub hp_max: i64,
    pub has_mana: bool,
    pub mana_cur: i64,
    pub mana_max: i64,
    pub has_end: bool,
    pub end_cur: i64,
    pub end_max: i64,
}

/// Whether bit `k` (0..=7) of the flags byte is set.
pub open spec fn flag_bit(f: u8, k: nat) -> bool {
    (f as nat / vstd::arithmetic::power2::pow2(k)) % 2 == 1
}

/// Payload bytes one stat takes: a cur/max pair of `i64`, or a percent byte.
pub open spec fn stat_width(wide: bool) -> int {
    if wide {
        16
    } else {
        1
    }
}

/// The exact payload length the flags announce (without the optional tail).
pub open spec fn stat_sync_expected_len(f: u8) -> int {
    5 + stat_width(flag_bit(f, 0)) * ((if flag_bit(f, 1) {
        1int
    } else {
        0
    }) + (if flag_bit(f, 2) {
        1int
    } else {
        0
    }) + (if flag_bit(f, 3) {
        1int
    } else {
        0
    }))
}

/// The stat read at `pos`: a wide cur/max pair, or a narrow percent out of
/// 100 that is dropped when above 100.
pub open spec fn stat_at(b: Seq<u8>, wide: bool, pos: int) -> Option<(i64, i64)> {
    if wide {
        Some((le_i64(b, pos), le_i64(b, pos + 8)))
    } else if b[pos] > 100 {
        None
    } else {
        Some((b[pos] as i64, 100i64))
    }
}

/// Where the mana stat sits, after HP when HP is present.
pub open spec fn mana_pos(f: u8) -> int {
    5 + if flag_bit(f, 1) {
        stat_width(flag_bit(f, 0))
    } else {
        0
    }
}

/// Where the endurance stat sits, after HP and mana when present.
pub open spec fn end_pos(f: u8) -> int {
    mana_pos(f) + if flag_bit(f, 2) {
        stat_width(flag_bit(f, 0))
    } else {
        0
    }
}

/// A stat's presence and value: absent when its bit is clear or its narrow
/// percent is out of range.
pub open spec fn stat_field(b: Seq<u8>, f: u8, k: nat, pos: int) -> (bool, i64, i64) {
    if flag_bit(f, k) {
        match stat_at(b, flag_bit(f, 0), pos) {
            Some(p) => (true, p.0, p.1),
            None => (false, 0, 0),
        }
    } else {
        (false, 0, 0)
    }
}

/// The packet a well-sized stat-sync payload decodes to.
pub open spec fn stat_sync_of(b: Seq<u8>) -> StatSync {
    let f = b[4];
    let hp = stat_field(b, f, 1, 5);
    let mana = stat_field(b, f, 2, mana_pos(f));
    let end = stat_field(b, f, 3, end_pos(f));
    StatSync {
        spawn_id: le_u32(b, 0),
        wide: flag_bit(f, 0),
        has_hp: hp.0,
        hp_cur: hp.1,
        hp_max: hp.2,
        has_mana: mana.0,
        mana_cur: mana.1,
        mana_max: mana.2,
        has_end: end.0,
        end_cur: end.1,
        end_max: end.2,
    }
}

proof fn lemma_flag_bits(f: u8)
    ensures
        flag_bit(f, 0) == (f & 0x01 != 0),
        flag_bit(f, 1) == (f & 0x02 != 0),
        flag_bit(f, 2) == (f & 0x04 != 0),
        flag_bit(f, 3) == (f & 0x08 != 0),
{
    vstd::arithmetic::power2::lemma2_to64();
    assert((f & 0x01 != 0) == (f % 2 == 1)) by (bit_vector);
    assert((f & 0x02 != 0) == ((f / 2) % 2 == 1)) by (bit_vector);
    assert((f & 0x04 != 0) == ((f / 4) % 2 == 1)) by (bit_vector);
    assert((f & 0x08 != 0) == ((f / 8) % 2 == 1)) by (bit_vector);
}

/// One stat at `pos`, wide or narrow.
fn read_stat(b: &[u8], wide: bool, pos: usize) -> (r: Option<(i64, i64)>)
    requires
        pos + stat_width(wide) <= b@.len(),
    ensures
        r == stat_at(b@, wide, pos as int),
{
    let n: usize = b.len();
    if wide {
        Some((rd_i64(b, pos), rd_i64(b, pos + 8)))
    } else {
        let c = b[pos];
        if c > 100 {
            None
        } else {
            Some((c as i64, 100))
        }
    }
}

/// Decode an `OP_HPUpdate`. The length must be exactly what the flags
/// announce, optionally plus a trailing `u32`; anything else means the layout
/// shifted and the packet is rejected.
pub fn parse_stat_sync(b: &[u8]) -> (r: Result<StatSync, DecodeError>)
    ensures
        b@.len() < 5 ==> r == Err::<StatSync, DecodeError>(DecodeError::Short(b@.len() as usize)),
        b@.len() >= 5 ==> {
            let e = stat_sync_expected_len(b@[4]);
            if b@.len() != e && b@.len() != e + 4 {
                r == Err::<StatSync, DecodeError>(DecodeError::BadLength(b@.len() as usize))
            } else {
                r == Ok::<StatSync, DecodeError>(stat_sync_of(b@))
            }
        },
{
    if b.len() < 5 {
        return Err(DecodeError::Short(b.len()));
    }
    let flags = b[4];
    proof {
        lemma_flag_bits(flags);
    }
    let wide = flags & 0x01 != 0;
    let has1 = flags & 0x02 != 0;
    let has2 = flags & 0x04 != 0;
    let has3 = flags & 0x08 != 0;
    let nstats: usize = (if has1 {
        1
    } else {
        0
    }) + (if has2 {
        1
    } else {
        0
    }) + (if has3 {
        1
    } else {
        0
    });
    let stat_sz: usize = if wide {
        16
    } else {
        1
    };
    let expect = 5 + stat_sz * nstats;
    if b.len() != expect && b.len() != expect + 4 {
        return Err(DecodeError::BadLength(b.len()));
    }
    let spawn_id = rd_u32(b, 0);
    let mut out = StatSync {
        spawn_id,
        wide,
        has_hp: false,
        hp_cur: 0,
        hp_max: 0,
        has_mana: false,
        mana_cur: 0,
        mana_max: 0,
        has_end: false,
        end_cur: 0,
        end_max: 0,
    };
    let mut pos: usize = 5;
    if has1 {
        if let Some((c, m)) = read_stat(b, wide, pos) {
            out.has_hp = true;
            out.hp_cur = c;
            out.hp_max = m;
        }
        pos = pos + stat_sz;
    }
    assert(pos == mana_pos(flags));
    if has2 {
        if let Some((c, m)) = read_stat(b, wide, pos) {
            out.has_mana = true;
            out.mana_cur = c;
            out.mana_max = m;
        }
        pos = pos + stat_sz;
    }
    assert(pos == end_pos(flags));
    if has3 {
        if let Some((c, m)) = read_stat(b, wide, pos) {
            out.has_end = true;
            out.end_cur = c;
            out.end_max = m;
        }
    }
    Ok(out)
}

} // verus!
