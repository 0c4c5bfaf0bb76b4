//! `OP_BuffList` on EQ Legends: one spawn's authoritative active-buff list,
//! sent at zone-in and on every buff change, with real remaining durations.
//!
//! ```text
//! u32 spawnId | u32 (seq/timestamp) | u8 flag=1 | u8 count | u8[5] pad
//! then `count` records, each:
//!   { u32 spellId, u32 =1, i32 remainingTicks, u32 =0 }   (16 fixed bytes)
//!   + NUL-terminated caster name (empty for self-cast)
//!   + slot: u32 BETWEEN records, u16 on the FINAL record.
//! ```
//!
//! `remainingTicks <= 0` is permanent. The walk must land exactly on the
//! end of the packet: anything else means the layout drifted, and the whole
//! packet is rejected.
use vstd::prelude::*;

use crate::decode::DecodeError;
use crate::text::{utf8_lossy, utf8_lossy_range};
use crate::wire::{find_nul, le_u16, le_u32, nul_from, nul_in, rd_u16, rd_u32};

verus! {

/// One buff: `remaining_ticks <= 0` is permanent; `slot` is the buff-window
/// slot index.
#[derive(Debug, Clone, PartialEq, Eq)]
pub struct BuffListEntry {
    pub spell_id: u32,
    pub remaining_ticks: i32,
    pub slot: u32,
    /// Who cast it, as spelled on the wire (empty when the name field is).
    /// A non-self owner's list mixes the spawn's own buffs with the ones the
    /// player put on it; only the caster tells them apart.
    pub caster: String,
}

/// The abstract content of a [`BuffListEntry`].
pub struct BuffView {
    pub spell_id: u32,
    pub remaining_ticks: i32,
    pub slot: u32,
    pub caster: Seq<char>,
}

impl View for BuffListEntry {
    type V = BuffView;

    open spec fn view(&self) -> BuffView {
        BuffView {
            spell_id: self.spell_id,
            remaining_ticks: self.remaining_ticks,
            slot: self.slot,
            caster: self.caster@,
        }
    }
}

/// One spawn's active buffs.
#[derive(Debug, Clone, PartialEq, Eq)]
pub struct BuffList {
    pub spawn_id: u32,
    pub entries: Vec<BuffListEntry>,
}

/// The views of a list of buffs.
pub open spec fn buffs_view(v: Seq<BuffListEntry>) -> Seq<BuffView> {
    v.map_values(|e: BuffListEntry| e@)
}

/// The records from `pos`, the `i`-th of `count` first; the buffs and the
/// cursor after them, or `None` when one overruns the packet.
pub open spec fn buff_records(b: Seq<u8>, pos: int, i: nat, count: nat) -> Option<
    (Seq<BuffView>, int),
>
    decreases count - i,
{
    if i >= count {
        Some((Seq::empty(), pos))
    } else if pos + 16 > b.len() {
        None
    } else {
        let name_at = pos + 16;
        match nul_from(b, name_at) {
            None => None,
            Some(off) => {
                let after = off + 1;
                let last = i + 1 == count;
                let width = if last {
                    2int
                } else {
                    4int
                };
                if after + width > b.len() {
                    None
                } else {
                    let e = BuffView {
                        spell_id: le_u32(b, pos),
                        remaining_ticks: le_u32(b, pos + 8) as i32,
                        slot: if last {
                            le_u16(b, after) as u32
                        } else {
                            le_u32(b, after)
                        },
                        caster: utf8_lossy(b.subrange(name_at, off)),
                    };
                    match buff_records(b, after + width, i + 1, count) {
                        None => None,
                        Some(rest) => Some((seq![e] + rest.0, rest.1)),
                    }
                }
            },
        }
    }
}

/// What a buff-list payload decodes to: the spawn id and its buffs.
pub open spec fn buff_list_of(b: Seq<u8>) -> Result<(u32, Seq<BuffView>), DecodeError> {
    if b.len() < 15 {
        Err(DecodeError::Short(b.len() as usize))
    } else {
        match buff_records(b, 15, 0, b[9] as nat) {
            Some((es, end)) => if end == b.len() {
                Ok((le_u32(b, 0), es))
            } else {
                Err(DecodeError::BadLength(b.len() as usize))
            },
            None => Err(DecodeError::BadLength(b.len() as usize)),
        }
    }
}

/// Decode a buff list.
pub fn parse_buff_list(b: &[u8]) -> (r: Result<BuffList, DecodeError>)
    ensures
        match buff_list_of(b@) {
            Ok((id, es)) => r matches Ok(l) && l.spawn_id == id && buffs_view(l.entries@) == es,
            Err(e) => r == Err::<BuffList, DecodeError>(e),
        },
{
    let n = b.len();
    if n < 15 {
        return Err(DecodeError::Short(n));
    }
    let spawn_id = rd_u32(b, 0);
    let count = b[9] as usize;
    let mut pos: usize = 15;
    let mut entries: Vec<BuffListEntry> = Vec::new();
    let mut i: usize = 0;
    let ghost total = buff_records(b@, 15, 0, count as nat);
    assert(buffs_view(entries@) =~= Seq::<BuffView>::empty());
    while i < count
        invariant
            n == b@.len(),
            n >= 15,
            count == b@[9] as usize,
            i <= count <= 255,
            pos <= n,
            total == buff_records(b@, 15, 0, count as nat),
            total == match buff_records(b@, pos as int, i as nat, count as nat) {
                None => None,
                Some(rest) => Some((buffs_view(entries@) + rest.0, rest.1)),
            },
        decreases count - i,
    {
        if n - pos < 16 {
            return Err(DecodeError::BadLength(n));
        }
        let spell_id = rd_u32(b, pos);
        let remaining_ticks = rd_u32(b, pos + 8) as i32;
        let name_at = pos + 16;
        let off = match find_nul(b, name_at) {
            Some(k) => k,
            None => return Err(DecodeError::BadLength(n)),
        };
        let caster = utf8_lossy_range(b, name_at, off);
        let after = off + 1;
        let slot = if i + 1 == count {
            if n - after < 2 {
                return Err(DecodeError::BadLength(n));
            }
            pos = after + 2;
            rd_u16(b, after) as u32
        } else {
            if n - after < 4 {
                return Err(DecodeError::BadLength(n));
            }
            pos = after + 4;
            rd_u32(b, after)
        };
        let e = BuffListEntry { spell_id, remaining_ticks, slot, caster };
        let ghost before = buffs_view(entries@);
        entries.push(e);
        proof {
            assert(buffs_view(entries@) =~= before.push(e@));
            let rest = buff_records(b@, pos as int, (i + 1) as nat, count as nat);
            if let Some(r2) = rest {
                assert(before + (seq![e@] + r2.0) =~= buffs_view(entries@) + r2.0);
            }
        }
        i = i + 1;
    }
    if pos != n {
        return Err(DecodeError::BadLength(n));
    }
    assert(buffs_view(entries@) + Seq::<BuffView>::empty() =~= buffs_view(entries@));
    Ok(BuffList { spawn_id, entries })
}

/// `c` starts with the bytes of `b`.
pub open spec fn extends(b: Seq<u8>, c: Seq<u8>) -> bool {
    b.len() <= c.len() && forall|j: int| 0 <= j < b.len() ==> c[j] == b[j]
}

proof fn lemma_nul_extends(b: Seq<u8>, c: Seq<u8>, i: int)
    requires
        extends(b, c),
        nul_in(b, i, b.len() as int) is Some,
    ensures
        nul_in(c, i, c.len() as int) == nul_in(b, i, b.len() as int),
        i <= nul_in(b, i, b.len() as int)->0 < b.len(),
    decreases b.len() - i,
{
    if 0 <= i < b.len() && b[i] != 0 {
        lemma_nul_extends(b, c, i + 1);
    }
}

proof fn lemma_records_extend(b: Seq<u8>, c: Seq<u8>, pos: int, i: nat, count: nat)
    requires
        extends(b, c),
        0 <= pos,
        buff_records(b, pos, i, count) is Some,
    ensures
        buff_records(c, pos, i, count) == buff_records(b, pos, i, count),
        buff_records(b, pos, i, count) matches Some(x) ==> (x.1 <= b.len() || (i >= count && x.1
            == pos)),
    decreases count - i,
{
    if i < count {
        let name_at = pos + 16;
        lemma_nul_extends(b, c, name_at);
        let off = nul_from(b, name_at)->0;
        let after = off + 1;
        let last = i + 1 == count;
        let width = if last {
            2int
        } else {
            4int
        };
        assert(b.subrange(name_at, off) =~= c.subrange(name_at, off));
        assert(c[pos] == b[pos] && c[pos + 1] == b[pos + 1] && c[pos + 2] == b[pos + 2] && c[pos
            + 3] == b[pos + 3]);
        assert(c[pos + 8] == b[pos + 8] && c[pos + 9] == b[pos + 9] && c[pos + 10] == b[pos + 10]
            && c[pos + 11] == b[pos + 11]);
        assert(c[after] == b[after] && c[after + 1] == b[after + 1]);
        if !last {
            assert(c[after + 2] == b[after + 2] && c[after + 3] == b[after + 3]);
        }
        lemma_records_extend(b, c, after + width, i + 1, count);
    }
}

/// A decodable buff list decodes at its exact length only: bytes added after
/// it make it a bad length, and cutting any bytes from its end makes it fail.
pub proof fn law_buff_list_ends_exactly(b: Seq<u8>, s: Seq<u8>, k: int)
    requires
        buff_list_of(b) is Ok,
        s.len() > 0,
        1 <= k <= b.len(),
    ensures
        buff_list_of(b + s) == Err::<(u32, Seq<BuffView>), DecodeError>(
            DecodeError::BadLength((b + s).len() as usize),
        ),
        buff_list_of(b.take(b.len() - k)) is Err,
{
    let count = b[9] as nat;
    let c = b + s;
    assert(extends(b, c));
    lemma_records_extend(b, c, 15, 0, count);
    assert(c[9] == b[9]);
    let t = b.take(b.len() - k);
    if t.len() >= 15 {
        assert(t[9] == b[9]);
        if buff_records(t, 15, 0, count) is Some {
            assert(extends(t, b));
            lemma_records_extend(t, b, 15, 0, count);
        }
    }
}

} // verus!
