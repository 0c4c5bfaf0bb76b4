//! EQ Legends' own fixed-offset decoders and the payload sizes its size gate
//! checks, sourced from the pinned records so a size and its decoder move
//! together.
use vstd::prelude::*;

use crate::bindings::{
    action2Struct, actionAltStruct, actionStruct, clientTargetStruct, considerStruct,
    deleteSpawnStruct, expUpdateStruct, manaDecrementStruct, newCorpseStruct, remDropStruct,
    simpleMessageStruct, skillIncStruct, spawnIllusionStruct, spawnPositionUpdate, staminaStruct,
    startCastStruct,
};
use crate::wire::{le_u16, le_u32, rd_u16, rd_u32};

verus! {

/// Why a fixed-layout payload was rejected; each carries the payload length.
#[derive(Debug, Clone, Copy, PartialEq, Eq, Structural)]
pub enum DecodeError {
    /// The payload is shorter than the fields it must carry.
    Short(usize),
    /// The payload length does not match the layout.
    BadLength(usize),
}


/// A consider exchange: who asked, about whom, and the friendliness word.
/// The level is not on the EQ Legends wire and reads 0.
#[derive(Debug, Clone, Copy, PartialEq, Eq, Structural)]
pub struct Consider {
    pub player_id: u32,
    pub target_id: u32,
    pub faction: i32,
    pub level: i32,
}

/// Bytes of an EQ Legends consider record, both directions.
pub const CONSIDER_LEN: usize = 24;

/// `OP_Consider` (24 bytes): `{u32 self, u32 target, u32 faction, u32 =7,
/// pad, pad}`. The request carries faction 0, the reply the friendliness
/// word.
pub fn parse_consider(b: &[u8]) -> (r: Result<Consider, DecodeError>)
    ensures
        b@.len() != CONSIDER_LEN ==> r == Err::<Consider, DecodeError>(
            DecodeError::BadLength(b@.len() as usize),
        ),
        b@.len() == CONSIDER_LEN ==> r == Ok::<Consider, DecodeError>(
            Consider {
                player_id: le_u32(b@, 0),
                target_id: le_u32(b@, 4),
                faction: le_u32(b@, 8) as i32,
                level: 0,
            },
        ),
{
    if b.len() != CONSIDER_LEN {
        return Err(DecodeError::BadLength(b.len()));
    }
    Ok(Consider {
        player_id: rd_u32(b, 0),
        target_id: rd_u32(b, 4),
        faction: rd_u32(b, 8) as i32,
        level: 0,
    })
}

/// A spawn started casting: spell id `u32`@0, caster `u16`@4, cast time in
/// milliseconds `u16`@6 (the trailing bytes are flags).
#[derive(Debug, Clone, Copy, PartialEq, Eq)]
pub struct BeginCast {
    pub caster_id: u32,
    pub spell_id: u32,
    pub cast_time_ms: u32,
}

/// `OP_BeginCast` (19 bytes on the wire; only the first eight are read).
pub fn parse_begin_cast(b: &[u8]) -> (r: Result<BeginCast, DecodeError>)
    ensures
        b@.len() < 8 ==> r == Err::<BeginCast, DecodeError>(DecodeError::Short(b@.len() as usize)),
        b@.len() >= 8 ==> r == Ok::<BeginCast, DecodeError>(
            BeginCast {
                spell_id: le_u32(b@, 0),
                caster_id: le_u16(b@, 4) as u32,
                cast_time_ms: le_u16(b@, 6) as u32,
            },
        ),
{
    if b.len() < 8 {
        return Err(DecodeError::Short(b.len()));
    }
    Ok(BeginCast {
        spell_id: rd_u32(b, 0),
        caster_id: rd_u16(b, 4) as u32,
        cast_time_ms: rd_u16(b, 6) as u32,
    })
}

/// One AA ability-rank definition: the per-rank id and the string id of the
/// ability's title.
#[derive(Debug, Clone, Copy, PartialEq, Eq)]
pub struct AaTableEntry {
    pub desc_id: u32,
    pub title_sid: u32,
}

/// `OP_SendAATable`: only the fixed 37-byte head is read (`descID`@0,
/// `titleSID`@13); the variable tail is skipped.
pub fn parse_aa_table_entry(b: &[u8]) -> (r: Result<AaTableEntry, DecodeError>)
    ensures
        b@.len() < 37 ==> r == Err::<AaTableEntry, DecodeError>(
            DecodeError::Short(b@.len() as usize),
        ),
        b@.len() >= 37 ==> r == Ok::<AaTableEntry, DecodeError>(
            AaTableEntry { desc_id: le_u32(b@, 0), title_sid: le_u32(b@, 13) },
        ),
{
    if b.len() < 37 {
        return Err(DecodeError::Short(b.len()));
    }
    Ok(AaTableEntry { desc_id: rd_u32(b, 0), title_sid: rd_u32(b, 13) })
}

/// `OP_Stance` / `OP_Invocation`: a single `u32` ability id @0.
pub fn parse_activate_ability(b: &[u8]) -> (r: Result<u32, DecodeError>)
    ensures
        b@.len() < 4 ==> r == Err::<u32, DecodeError>(DecodeError::Short(b@.len() as usize)),
        b@.len() >= 4 ==> r == Ok::<u32, DecodeError>(le_u32(b@, 0)),
{
    if b.len() < 4 {
        Err(DecodeError::Short(b.len()))
    } else {
        Ok(rd_u32(b, 0))
    }
}

/// Bytes of the self-position report (`OP_ClientUpdate` client to server).
pub const PLAYER_SELF_POS_LEN: usize = 42;

/// Bytes of one door row.
pub const DOOR_LEN: usize = 132;

/// Bytes of an appearance change: `{u32 spawnId, u32 type, u32 value}` and
/// twelve bytes of zeros.
pub const SPAWN_APPEARANCE_LEN: usize = 24;

/// The size gate's table: `(record name, payload bytes)`, in order.
pub open spec fn size_table() -> Seq<(&'static str, u32)> {
    seq![
        ("considerStruct", 24u32),
        ("startCastStruct", 44u32),
        ("playerSpawnPosStruct", 28u32),
        ("spawnPositionUpdate", 18u32),
        ("clientTargetStruct", 4u32),
        ("manaDecrementStruct", 20u32),
        ("expUpdateStruct", 16u32),
        ("skillIncStruct", 12u32),
        ("staminaStruct", 8u32),
        ("spawnIllusionStruct", 332u32),
        ("timeOfDayStruct", 8u32),
        ("inspectDataStruct", 1956u32),
        ("deleteSpawnStruct", 4u32),
        ("newCorpseStruct", 40u32),
        ("remDropStruct", 12u32),
        ("action2Struct", 48u32),
        ("actionStruct", 64u32),
        ("actionAltStruct", 88u32),
        ("simpleMessageStruct", 12u32),
        ("playerSelfPosStruct", 42u32),
        ("altExpUpdateStruct", 12u32),
        ("doorStruct", 132u32),
        ("timeOfDayStruct", 8u32),
        ("zoneServerInfoStruct", 130u32),
        ("spawnAppearance2Struct", 24u32),
        ("spawnAppearanceStruct", 24u32),
        ("inspectDataStruct", 1956u32),
        ("randomStruct", 76u32),
        ("tradeSpellBookSlotsStruct", 8u32),
        ("buffWindowSlotStruct", 12u32),
        ("beginCastStruct", 19u32),
        ("consentResponseStruct", 193u32),
        ("GuildMemberUpdate", 88u32),
        ("activateAbilityStruct", 4u32),
    ]
}

/// Payload sizes for the size gate, by record name, where the EQ Legends
/// wire size is its own. Each entry is sourced from the pinned record or the
/// decoder that reads it; the few with neither carry the captured size.
pub fn size_overrides() -> (r: Vec<(&'static str, u32)>)
    ensures
        r@ == size_table(),
{
    let mut v: Vec<(&'static str, u32)> = Vec::new();
    // /consider is 24 bytes both ways.
    v.push(("considerStruct", considerStruct::WIRE_SIZE as u32));
    // The cast request is a fixed 44 bytes; the record grew at the tail.
    v.push(("startCastStruct", startCastStruct::WIRE_SIZE as u32));
    // Other-spawn position broadcast, decoded by `parse_player_spawn_pos`.
    v.push(("playerSpawnPosStruct", crate::player_spawn_pos::PAYLOAD_LEN as u32));
    v.push(("spawnPositionUpdate", spawnPositionUpdate::WIRE_SIZE as u32));
    v.push(("clientTargetStruct", clientTargetStruct::WIRE_SIZE as u32));
    v.push(("manaDecrementStruct", manaDecrementStruct::WIRE_SIZE as u32));
    v.push(("expUpdateStruct", expUpdateStruct::WIRE_SIZE as u32));
    v.push(("skillIncStruct", skillIncStruct::WIRE_SIZE as u32));
    // Food and water, ticking down together.
    v.push(("staminaStruct", staminaStruct::WIRE_SIZE as u32));
    v.push(("spawnIllusionStruct", spawnIllusionStruct::WIRE_SIZE as u32));
    // No pinned record: the captured sizes.
    v.push(("timeOfDayStruct", 8));
    v.push(("inspectDataStruct", 1956));
    v.push(("deleteSpawnStruct", deleteSpawnStruct::WIRE_SIZE as u32));
    v.push(("newCorpseStruct", newCorpseStruct::WIRE_SIZE as u32));
    v.push(("remDropStruct", remDropStruct::WIRE_SIZE as u32));
    v.push(("action2Struct", action2Struct::WIRE_SIZE as u32));
    v.push(("actionStruct", actionStruct::WIRE_SIZE as u32));
    v.push(("actionAltStruct", actionAltStruct::WIRE_SIZE as u32));
    v.push(("simpleMessageStruct", simpleMessageStruct::WIRE_SIZE as u32));
    v.push(("playerSelfPosStruct", PLAYER_SELF_POS_LEN as u32));
    // Alternate experience: u32 altexp, u32 aaUnspent, u32 tail.
    v.push(("altExpUpdateStruct", 12));
    // Door rows are 132 bytes; the size gate strides on it.
    v.push(("doorStruct", DOOR_LEN as u32));
    v.push(("timeOfDayStruct", 8));
    v.push(("zoneServerInfoStruct", crate::zone_server_info::PAYLOAD_LEN as u32));
    v.push(("spawnAppearance2Struct", 24));
    // The wide appearance record; there is one appearance opcode here.
    v.push(("spawnAppearanceStruct", SPAWN_APPEARANCE_LEN as u32));
    v.push(("inspectDataStruct", 1956));
    v.push(("randomStruct", 76));
    v.push(("tradeSpellBookSlotsStruct", 8));
    v.push(("buffWindowSlotStruct", 12));
    // Begin-cast is 19 bytes on the wire, not the stock 15.
    v.push(("beginCastStruct", 19));
    v.push(("consentResponseStruct", 193));
    v.push(("GuildMemberUpdate", 88));
    // Stance and invocation share one 4-byte record.
    v.push(("activateAbilityStruct", 4));
    v
}

/// What tells the size table's names apart: length, first and sixth
/// character.
spec fn name_key(n: Seq<char>) -> (nat, char, char) {
    (n.len(), n[0], n[5])
}

/// The size the table gives a name, by its key.
spec fn size_by_key(k: (nat, char, char)) -> u32 {
    if k.0 == 14 && k.1 == 'c' && k.2 == 'd' {
        24
    } else if k.0 == 15 && k.1 == 's' && k.2 == 'C' {
        44
    } else if k.0 == 20 && k.1 == 'p' && k.2 == 'r' {
        28
    } else if k.0 == 19 && k.1 == 's' && k.2 == 'P' {
        18
    } else if k.0 == 18 && k.1 == 'c' && k.2 == 't' {
        4
    } else if k.0 == 19 && k.1 == 'm' && k.2 == 'e' {
        20
    } else if k.0 == 15 && k.1 == 'e' && k.2 == 'd' {
        16
    } else if k.0 == 14 && k.1 == 's' && k.2 == 'I' {
        12
    } else if k.0 == 13 && k.1 == 's' && k.2 == 'n' {
        8
    } else if k.0 == 19 && k.1 == 's' && k.2 == 'I' {
        332
    } else if k.0 == 15 && k.1 == 't' && k.2 == 'f' {
        8
    } else if k.0 == 17 && k.1 == 'i' && k.2 == 'c' {
        1956
    } else if k.0 == 17 && k.1 == 'd' && k.2 == 'e' {
        4
    } else if k.0 == 15 && k.1 == 'n' && k.2 == 'r' {
        40
    } else if k.0 == 13 && k.1 == 'r' && k.2 == 'o' {
        12
    } else if k.0 == 13 && k.1 == 'a' && k.2 == 'n' {
        48
    } else if k.0 == 12 && k.1 == 'a' && k.2 == 'n' {
        64
    } else if k.0 == 15 && k.1 == 'a' && k.2 == 'n' {
        88
    } else if k.0 == 19 && k.1 == 's' && k.2 == 'e' {
        12
    } else if k.0 == 19 && k.1 == 'p' && k.2 == 'r' {
        42
    } else if k.0 == 18 && k.1 == 'a' && k.2 == 'p' {
        12
    } else if k.0 == 10 && k.1 == 'd' && k.2 == 't' {
        132
    } else if k.0 == 20 && k.1 == 'z' && k.2 == 'e' {
        130
    } else if k.0 == 22 && k.1 == 's' && k.2 == 'A' {
        24
    } else if k.0 == 21 && k.1 == 's' && k.2 == 'A' {
        24
    } else if k.0 == 12 && k.1 == 'r' && k.2 == 'm' {
        76
    } else if k.0 == 25 && k.1 == 't' && k.2 == 'S' {
        8
    } else if k.0 == 20 && k.1 == 'b' && k.2 == 'i' {
        12
    } else if k.0 == 15 && k.1 == 'b' && k.2 == 'C' {
        19
    } else if k.0 == 21 && k.1 == 'c' && k.2 == 'n' {
        193
    } else if k.0 == 17 && k.1 == 'G' && k.2 == 'M' {
        88
    } else if k.0 == 21 && k.1 == 'a' && k.2 == 'a' {
        4
    } else {
        0
    }
}

/// The size table is a table: a name that appears twice carries one size,
/// and every size is positive. The sizes it gives the consider, other-spawn
/// position and ability records are the lengths their decoders take:
/// exactly [`CONSIDER_LEN`] and exactly the position payload, and at least
/// four bytes.
pub proof fn law_size_table_agrees_with_decoders()
    ensures
        forall|i: int, j: int|
            0 <= i < size_table().len() && 0 <= j < size_table().len() && (#[trigger] size_table()[i]).0@
                == (#[trigger] size_table()[j]).0@ ==> size_table()[i].1 == size_table()[j].1,
        forall|i: int| 0 <= i < size_table().len() ==> (#[trigger] size_table()[i]).1 > 0,
        size_table()[0] == ("considerStruct", CONSIDER_LEN as u32),
        size_table()[2] == ("playerSpawnPosStruct", crate::player_spawn_pos::PAYLOAD_LEN as u32),
        size_table()[33] == ("activateAbilityStruct", 4u32),
{
    reveal_strlit("GuildMemberUpdate");
    reveal_strlit("action2Struct");
    reveal_strlit("actionAltStruct");
    reveal_strlit("actionStruct");
    reveal_strlit("activateAbilityStruct");
    reveal_strlit("altExpUpdateStruct");
    reveal_strlit("beginCastStruct");
    reveal_strlit("buffWindowSlotStruct");
    reveal_strlit("clientTargetStruct");
    reveal_strlit("consentResponseStruct");
    reveal_strlit("considerStruct");
    reveal_strlit("deleteSpawnStruct");
    reveal_strlit("doorStruct");
    reveal_strlit("expUpdateStruct");
    reveal_strlit("inspectDataStruct");
    reveal_strlit("manaDecrementStruct");
    reveal_strlit("newCorpseStruct");
    reveal_strlit("playerSelfPosStruct");
    reveal_strlit("playerSpawnPosStruct");
    reveal_strlit("randomStruct");
    reveal_strlit("remDropStruct");
    reveal_strlit("simpleMessageStruct");
    reveal_strlit("skillIncStruct");
    reveal_strlit("spawnAppearance2Struct");
    reveal_strlit("spawnAppearanceStruct");
    reveal_strlit("spawnIllusionStruct");
    reveal_strlit("spawnPositionUpdate");
    reveal_strlit("staminaStruct");
    reveal_strlit("startCastStruct");
    reveal_strlit("timeOfDayStruct");
    reveal_strlit("tradeSpellBookSlotsStruct");
    reveal_strlit("zoneServerInfoStruct");
    let t = size_table();
    assert forall|i: int| 0 <= i < t.len() implies size_by_key(name_key((#[trigger] t[i]).0@))
        == t[i].1 by {
        if i == 0 {
            assert(size_by_key(name_key(t[0].0@)) == t[0].1);
        } else if i == 1 {
            assert(size_by_key(name_key(t[1].0@)) == t[1].1);
        } else if i == 2 {
            assert(size_by_key(name_key(t[2].0@)) == t[2].1);
        } else if i == 3 {
            assert(size_by_key(name_key(t[3].0@)) == t[3].1);
        } else if i == 4 {
            assert(size_by_key(name_key(t[4].0@)) == t[4].1);
        } else if i == 5 {
            assert(size_by_key(name_key(t[5].0@)) == t[5].1);
        } else if i == 6 {
            assert(size_by_key(name_key(t[6].0@)) == t[6].1);
        } else if i == 7 {
            assert(size_by_key(name_key(t[7].0@)) == t[7].1);
        } else if i == 8 {
            assert(size_by_key(name_key(t[8].0@)) == t[8].1);
        } else if i == 9 {
            assert(size_by_key(name_key(t[9].0@)) == t[9].1);
        } else if i == 10 {
            assert(size_by_key(name_key(t[10].0@)) == t[10].1);
        } else if i == 11 {
            assert(size_by_key(name_key(t[11].0@)) == t[11].1);
        } else if i == 12 {
            assert(size_by_key(name_key(t[12].0@)) == t[12].1);
        } else if i == 13 {
            assert(size_by_key(name_key(t[13].0@)) == t[13].1);
        } else if i == 14 {
            assert(size_by_key(name_key(t[14].0@)) == t[14].1);
        } else if i == 15 {
            assert(size_by_key(name_key(t[15].0@)) == t[15].1);
        } else if i == 16 {
            assert(size_by_key(name_key(t[16].0@)) == t[16].1);
        } else if i == 17 {
            assert(size_by_key(name_key(t[17].0@)) == t[17].1);
        } else if i == 18 {
            assert(size_by_key(name_key(t[18].0@)) == t[18].1);
        } else if i == 19 {
            assert(size_by_key(name_key(t[19].0@)) == t[19].1);
        } else if i == 20 {
            assert(size_by_key(name_key(t[20].0@)) == t[20].1);
        } else if i == 21 {
            assert(size_by_key(name_key(t[21].0@)) == t[21].1);
        } else if i == 22 {
            assert(size_by_key(name_key(t[22].0@)) == t[22].1);
        } else if i == 23 {
            assert(size_by_key(name_key(t[23].0@)) == t[23].1);
        } else if i == 24 {
            assert(size_by_key(name_key(t[24].0@)) == t[24].1);
        } else if i == 25 {
            assert(size_by_key(name_key(t[25].0@)) == t[25].1);
        } else if i == 26 {
            assert(size_by_key(name_key(t[26].0@)) == t[26].1);
        } else if i == 27 {
            assert(size_by_key(name_key(t[27].0@)) == t[27].1);
        } else if i == 28 {
            assert(size_by_key(name_key(t[28].0@)) == t[28].1);
        } else if i == 29 {
            assert(size_by_key(name_key(t[29].0@)) == t[29].1);
        } else if i == 30 {
            assert(size_by_key(name_key(t[30].0@)) == t[30].1);
        } else if i == 31 {
            assert(size_by_key(name_key(t[31].0@)) == t[31].1);
        } else if i == 32 {
            assert(size_by_key(name_key(t[32].0@)) == t[32].1);
        } else if i == 33 {
            assert(size_by_key(name_key(t[33].0@)) == t[33].1);
        }
    }
}

} // verus!
