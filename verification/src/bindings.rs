//! The pinned wire records of EQ Legends, one struct per record with the
//! field layout of the wire, and the record's size on the wire. Records are
//! packed: the size is the sum of the field widths, with no padding.
#![allow(non_camel_case_types)]
#![allow(non_snake_case)]
use vstd::prelude::*;

use crate::wire::{le_u16, le_u64};

verus! {
#[derive(Debug, Clone, Copy, PartialEq, Eq)]
pub struct spawnPositionUpdate {
    /// int16_t spawnId
    pub spawnId: i16,
    /// uint8_t unk1[6] — grew 2 -> 6 on the 08/25 patch, moving the block to byte 8
    pub unk1: [u8; 6],
    /// packed bitfield: y:19 z:19 u3:7 x:19 unused2:4 heading:12
    pub _bits: [u8; 10],
}

impl spawnPositionUpdate {
    /// Bytes the record occupies on the wire.
    pub const WIRE_SIZE: usize = 2 + 6 + 10;
}

#[derive(Debug, Clone, Copy, PartialEq, Eq)]
pub struct deleteSpawnStruct {
    /// uint32_t spawnId
    pub spawnId: u32,
}

impl deleteSpawnStruct {
    /// Bytes the record occupies on the wire.
    pub const WIRE_SIZE: usize = 4;
}

#[derive(Debug, Clone, Copy, PartialEq, Eq)]
pub struct removeSpawnStruct {
    /// uint32_t spawnId
    pub spawnId: u32,
    /// uint8_t removeSpawn
    pub removeSpawn: u8,
}

impl removeSpawnStruct {
    /// Bytes the record occupies on the wire.
    pub const WIRE_SIZE: usize = 4 + 1;
}

#[derive(Debug, Clone, Copy, PartialEq, Eq)]
pub struct hpNpcUpdateStruct {
    /// uint16_t spawnId
    pub spawnId: u16,
    /// int32_t curHP
    pub curHP: i32,
    /// uint32_t unknown0006
    pub unknown0006: u32,
    /// int32_t maxHP
    pub maxHP: i32,
    /// uint32_t unknown0014
    pub unknown0014: u32,
}

impl hpNpcUpdateStruct {
    /// Bytes the record occupies on the wire.
    pub const WIRE_SIZE: usize = 2 + 4 + 4 + 4 + 4;
}

#[derive(Debug, Clone, Copy, PartialEq, Eq)]
pub struct mobHealthStruct {
    /// uint16_t spawnId
    pub spawnId: u16,
    /// int32_t hpPercent
    pub hpPercent: i32,
}

impl mobHealthStruct {
    /// Bytes the record occupies on the wire.
    pub const WIRE_SIZE: usize = 2 + 4;
}

#[derive(Debug, Clone, Copy, PartialEq, Eq)]
pub struct spawnAppearanceStruct {
    /// uint16_t spawnId
    pub spawnId: u16,
    /// uint16_t type
    pub type_: u16,
    /// uint32_t parameter
    pub parameter: u32,
}

impl spawnAppearanceStruct {
    /// Bytes the record occupies on the wire.
    pub const WIRE_SIZE: usize = 2 + 2 + 4;
}

#[derive(Debug, Clone, Copy, PartialEq, Eq)]
pub struct expUpdateStruct {
    /// uint32_t exp
    pub exp: u32,
    /// uint32_t unknown0004
    pub unknown0004: u32,
    /// uint32_t type
    pub type_: u32,
    /// uint32_t unknown0012
    pub unknown0012: u32,
}

impl expUpdateStruct {
    /// Bytes the record occupies on the wire.
    pub const WIRE_SIZE: usize = 4 + 4 + 4 + 4;
}

#[derive(Debug, Clone, Copy, PartialEq, Eq)]
pub struct levelUpUpdateStruct {
    /// uint32_t level
    pub level: u32,
    /// uint32_t levelOld
    pub levelOld: u32,
    /// uint32_t exp
    pub exp: u32,
    /// uint32_t unknown0012
    pub unknown0012: u32,
    /// uint32_t unknown0016
    pub unknown0016: u32,
    /// uint32_t unknown0020
    pub unknown0020: u32,
}

impl levelUpUpdateStruct {
    /// Bytes the record occupies on the wire.
    pub const WIRE_SIZE: usize = 4 + 4 + 4 + 4 + 4 + 4;
}

#[derive(Debug, Clone, Copy, PartialEq, Eq)]
pub struct skillIncStruct {
    /// uint32_t skillId
    pub skillId: u32,
    /// int32_t value
    pub value: i32,
    /// uint8_t unknown0008[4]
    pub unknown0008: [u8; 4],
}

impl skillIncStruct {
    /// Bytes the record occupies on the wire.
    pub const WIRE_SIZE: usize = 4 + 4 + 4;
}

#[derive(Debug, Clone, Copy, PartialEq, Eq)]
pub struct manaDecrementStruct {
    /// int32_t newMana
    pub newMana: i32,
    /// int32_t curEndurance
    pub curEndurance: i32,
    /// int32_t spellId
    pub spellId: i32,
    /// uint8_t unknown0012[4]
    pub unknown0012: [u8; 4],
    /// uint8_t unknown0016[4]
    pub unknown0016: [u8; 4],
}

impl manaDecrementStruct {
    /// Bytes the record occupies on the wire.
    pub const WIRE_SIZE: usize = 4 + 4 + 4 + 4 + 4;
}

#[derive(Debug, Clone, Copy, PartialEq, Eq)]
pub struct staminaStruct {
    /// uint32_t food
    pub food: u32,
    /// uint32_t water
    pub water: u32,
}

impl staminaStruct {
    /// Bytes the record occupies on the wire.
    pub const WIRE_SIZE: usize = 4 + 4;
}

#[derive(Debug, Clone, Copy, PartialEq, Eq)]
pub struct endUpdateStruct {
    /// uint16_t spawn_id
    pub spawn_id: u16,
    /// uint32_t cur
    pub cur: u32,
    /// uint32_t max
    pub max: u32,
}

impl endUpdateStruct {
    /// Bytes the record occupies on the wire.
    pub const WIRE_SIZE: usize = 2 + 4 + 4;
}

/// EQ Legends' /consider record is 24 bytes in both directions, not Live's
/// 32. Decoded by `parse_consider`; its size is what the size gate checks,
/// listed by `size_overrides`.
#[derive(Debug, Clone, Copy, PartialEq, Eq)]
pub struct considerStruct {
    /// uint32_t playerid
    pub playerid: u32,
    /// uint32_t targetid
    pub targetid: u32,
    /// int32_t faction — 0 on the C>S request; friendliness word on the S>C
    /// reply (2=warmly, 4=amiably). level is NOT here (read from the spawn).
    pub faction: i32,
    /// int32_t unknown0012 (observed = 7)
    pub unknown0012: i32,
    /// int32_t unknown0016
    pub unknown0016: i32,
    /// int32_t unknown0020
    pub unknown0020: i32,
}

impl considerStruct {
    /// Bytes the record occupies on the wire.
    pub const WIRE_SIZE: usize = 4 + 4 + 4 + 4 + 4 + 4;
}

#[derive(Debug, Clone, Copy, PartialEq, Eq)]
pub struct spawnRenameStruct {
    /// char old_name[64]
    pub old_name: [u8; 64],
    /// char old_name_again[64]
    pub old_name_again: [u8; 64],
    /// char new_name[64]
    pub new_name: [u8; 64],
    /// uint8_t unknown0192[3]
    pub unknown0192: [u8; 3],
}

impl spawnRenameStruct {
    /// Bytes the record occupies on the wire.
    pub const WIRE_SIZE: usize = 64 + 64 + 64 + 3;
}

#[derive(Debug, Clone, Copy, PartialEq, Eq)]
pub struct clientTargetStruct {
    /// uint32_t newTarget
    pub newTarget: u32,
}

impl clientTargetStruct {
    /// Bytes the record occupies on the wire.
    pub const WIRE_SIZE: usize = 4;
}

#[derive(Debug, Clone, Copy, PartialEq, Eq)]
pub struct newCorpseStruct {
    /// uint32_t spawnId
    pub spawnId: u32,
    /// uint32_t killerId
    pub killerId: u32,
    /// uint32_t corpseid
    pub corpseid: u32,
    /// int32_t type
    pub type_: i32,
    /// uint32_t spellId
    pub spellId: u32,
    /// uint16_t zoneId
    pub zoneId: u16,
    /// uint16_t zoneInstance
    pub zoneInstance: u16,
    /// uint32_t damage
    pub damage: u32,
    /// uint8_t unknown0028[12]
    pub unknown0028: [u8; 12],
}

impl newCorpseStruct {
    /// Bytes the record occupies on the wire.
    pub const WIRE_SIZE: usize = 4 + 4 + 4 + 4 + 4 + 2 + 2 + 4 + 12;
}

#[derive(Debug, Clone, Copy, PartialEq, Eq)]
pub struct remDropStruct {
    /// uint16_t dropId
    pub dropId: u16,
    /// uint8_t unknown0002[2]
    pub unknown0002: [u8; 2],
    /// uint16_t spawnId
    pub spawnId: u16,
    /// uint8_t unknown0006[2]
    pub unknown0006: [u8; 2],
    /// uint8_t unknown0008[4]
    pub unknown0008: [u8; 4],
}

impl remDropStruct {
    /// Bytes the record occupies on the wire.
    pub const WIRE_SIZE: usize = 2 + 2 + 2 + 2 + 4;
}

#[derive(Debug, Clone, Copy, PartialEq, Eq)]
pub struct spawnIllusionStruct {
    /// uint32_t spawnId
    pub spawnId: u32,
    /// char name[64]
    pub name: [u8; 64],
    /// uint32_t race
    pub race: u32,
    /// uint8_t gender
    pub gender: u8,
    /// uint8_t texture
    pub texture: u8,
    /// uint8_t helm
    pub helm: u8,
    /// uint8_t unknown0075
    pub unknown0075: u8,
    /// uint32_t unknown0076
    pub unknown0076: u32,
    /// uint32_t face
    pub face: u32,
    /// uint8_t unknown0084[248]
    pub unknown0084: [u8; 248],
}

impl spawnIllusionStruct {
    /// Bytes the record occupies on the wire.
    pub const WIRE_SIZE: usize = 4 + 64 + 4 + 1 + 1 + 1 + 1 + 4 + 4 + 248;
}

#[derive(Debug, Clone, Copy, PartialEq, Eq)]
pub struct action2Struct {
    /// uint16_t target
    pub target: u16,
    /// uint16_t source
    pub source: u16,
    /// uint8_t unknown0004[4]
    pub unknown0004: [u8; 4],
    /// int32_t damage
    pub damage: i32,
    /// int8_t unknown0012[8]
    pub unknown0012: [i8; 8],
    /// int32_t spell
    pub spell: i32,
    /// uint8_t uknown0024[16]
    pub uknown0024: [u8; 16],
    /// uint8_t type
    pub type_: u8,
    /// uint8_t unknown0042[7]
    pub unknown0042: [u8; 7],
}

impl action2Struct {
    /// Bytes the record occupies on the wire.
    pub const WIRE_SIZE: usize = 2 + 2 + 4 + 4 + 8 + 4 + 16 + 1 + 7;
}

#[derive(Debug, Clone, Copy, PartialEq, Eq)]
pub struct SpawnUpdateStruct {
    /// uint16_t spawnId
    pub spawnId: u16,
    /// uint16_t subcommand
    pub subcommand: u16,
    /// int16_t arg1
    pub arg1: i16,
    /// int16_t arg2
    pub arg2: i16,
    /// uint8_t arg3
    pub arg3: u8,
    /// uint8_t unknown0009[23]
    pub unknown0009: [u8; 23],
}

impl SpawnUpdateStruct {
    /// Bytes the record occupies on the wire.
    pub const WIRE_SIZE: usize = 2 + 2 + 2 + 2 + 1 + 23;
}

#[derive(Debug, Clone, Copy, PartialEq, Eq)]
pub struct zoneChangeStruct {
    /// char name[64]
    pub name: [u8; 64],
    /// uint16_t zoneId
    pub zoneId: u16,
    /// uint16_t zoneInstance
    pub zoneInstance: u16,
    /// uint8_t unknown0068[8]
    pub unknown0068: [u8; 8],
    /// uint8_t unknown0076[12]
    pub unknown0076: [u8; 12],
    /// uint8_t unknown0088[4]
    pub unknown0088: [u8; 4],
    /// uint8_t unknown0092[8]
    pub unknown0092: [u8; 8],
}

impl zoneChangeStruct {
    /// Bytes the record occupies on the wire.
    pub const WIRE_SIZE: usize = 64 + 2 + 2 + 8 + 12 + 4 + 8;
}

#[derive(Debug, Clone, Copy, PartialEq, Eq)]
pub struct dzInfo {
    /// uint32_t unknown0000
    pub unknown0000: u32,
    /// uint32_t unknown0004
    pub unknown0004: u32,
    /// uint8_t newDZ
    pub newDZ: u8,
    /// uint8_t padding0009[3]
    pub padding0009: [u8; 3],
    /// uint32_t maxPlayers
    pub maxPlayers: u32,
    /// char dzName[128]
    pub dzName: [u8; 128],
    /// char name[64]
    pub name: [u8; 64],
    /// uint32_t unknown0208
    pub unknown0208: u32,
}

impl dzInfo {
    /// Bytes the record occupies on the wire.
    pub const WIRE_SIZE: usize = 4 + 4 + 1 + 3 + 4 + 128 + 64 + 4;
}

/// EQ Legends' cast request is 44 bytes where Live's is 39: the three read
/// fields kept their offsets and the tail grew. Validated on ten captured
/// casts.
#[derive(Debug, Clone, Copy, PartialEq, Eq)]
pub struct startCastStruct {
    /// int32_t slot
    pub slot: i32,
    /// uint32_t spellId
    pub spellId: u32,
    /// uint8_t unknown0008[10] — reads 0xff on every capture
    pub unknown0008: [u8; 10],
    /// uint32_t targetId — 0 when cast with no target
    pub targetId: u32,
    /// uint32_t unknown0022 — per-spell constant, role unmapped
    pub unknown0022: u32,
    /// uint8_t unknown0026[18] — zero except a 1 at offset 31
    pub unknown0026: [u8; 18],
}

impl startCastStruct {
    /// Bytes the record occupies on the wire.
    pub const WIRE_SIZE: usize = 4 + 4 + 10 + 4 + 4 + 18;
}

#[derive(Debug, Clone, Copy, PartialEq, Eq)]
pub struct actionStruct {
    /// uint16_t target
    pub target: u16,
    /// uint16_t source
    pub source: u16,
    /// uint16_t spell
    pub spell: u16,
    /// uint8_t unknown0006[6]
    pub unknown0006: [u8; 6],
    /// uint8_t level
    pub level: u8,
    /// uint8_t unknown0013[43]
    pub unknown0013: [u8; 43],
    /// uint8_t type
    pub type_: u8,
    /// uint8_t unknown0057[7]
    pub unknown0057: [u8; 7],
}

impl actionStruct {
    /// Bytes the record occupies on the wire.
    pub const WIRE_SIZE: usize = 2 + 2 + 2 + 6 + 1 + 43 + 1 + 7;
}

#[derive(Debug, Clone, Copy, PartialEq, Eq)]
pub struct actionAltStruct {
    /// uint16_t target
    pub target: u16,
    /// uint16_t source
    pub source: u16,
    /// uint16_t spell
    pub spell: u16,
    /// uint8_t unknown0006[6]
    pub unknown0006: [u8; 6],
    /// uint8_t level
    pub level: u8,
    /// uint8_t unknown0013[43]
    pub unknown0013: [u8; 43],
    /// uint8_t type
    pub type_: u8,
    /// uint8_t unknown0057[31]
    pub unknown0057: [u8; 31],
}

impl actionAltStruct {
    /// Bytes the record occupies on the wire.
    pub const WIRE_SIZE: usize = 2 + 2 + 2 + 6 + 1 + 43 + 1 + 31;
}

#[derive(Debug, Clone, Copy, PartialEq, Eq)]
pub struct groupDisbandStruct {
    /// char yourname[64]
    pub yourname: [u8; 64],
    /// char membername[64]
    pub membername: [u8; 64],
    /// uint8_t unknown0128[24]
    pub unknown0128: [u8; 24],
}

impl groupDisbandStruct {
    /// Bytes the record occupies on the wire.
    pub const WIRE_SIZE: usize = 64 + 64 + 24;
}

#[derive(Debug, Clone, Copy, PartialEq, Eq)]
pub struct simpleMessageStruct {
    /// uint32_t messageFormat
    pub messageFormat: u32,
    /// ChatColor messageColor
    pub messageColor: u32,
    /// uint32_t unknown
    pub unknown: u32,
}

impl simpleMessageStruct {
    /// Bytes the record occupies on the wire.
    pub const WIRE_SIZE: usize = 4 + 4 + 4;
}

#[derive(Debug, Clone, Copy, PartialEq, Eq)]
pub struct formattedMessageStruct {
    /// uint8_t unknown0000
    pub unknown0000: u8,
    /// uint8_t unknown0001[4]
    pub unknown0001: [u8; 4],
    /// uint32_t messageFormat
    pub messageFormat: u32,
    /// ChatColor messageColor
    pub messageColor: u32,
    /// char messages[0]
    pub messages: [u8; 0],
}

impl formattedMessageStruct {
    /// Bytes the record occupies on the wire.
    pub const WIRE_SIZE: usize = 1 + 4 + 4 + 4 + 0;
}

/// The packed 64-bit word that leads a position update's bitfield block.
pub open spec fn spawn_pos_lo64(bits: Seq<u8>) -> u64 {
    le_u64(bits, 0)
}

/// The trailing 16-bit word of a position update's bitfield block.
pub open spec fn spawn_pos_hi16(bits: Seq<u8>) -> u16 {
    le_u16(bits, 8)
}

impl spawnPositionUpdate {
    fn lo64(&self) -> (r: u64)
        ensures
            r == spawn_pos_lo64(self._bits@),
    {
        let b = &self._bits;
        let lo: u64 = b[0] as u64 + 0x100 * (b[1] as u64) + 0x1_0000 * (b[2] as u64) + 0x100_0000 * (
        b[3] as u64);
        let hi: u64 = b[4] as u64 + 0x100 * (b[5] as u64) + 0x1_0000 * (b[6] as u64) + 0x100_0000 * (
        b[7] as u64);
        lo + 0x1_0000_0000 * hi
    }

    fn hi16(&self) -> (r: u16)
        ensures
            r == spawn_pos_hi16(self._bits@),
    {
        self._bits[8] as u16 + 256 * (self._bits[9] as u16)
    }

    /// Low 19 bits of the packed word: the Y coordinate (unsigned; the
    /// consumer sign-extends).
    pub fn y(&self) -> (r: u64)
        ensures
            r == spawn_pos_lo64(self._bits@) % 0x8_0000,
    {
        let v = self.lo64();
        assert(v & 0x7_FFFF == v % 0x8_0000) by (bit_vector);
        v & 0x7_FFFF
    }

    /// Bits 19..38 of the packed word: the Z coordinate.
    pub fn z(&self) -> (r: u64)
        ensures
            r == (spawn_pos_lo64(self._bits@) / 0x8_0000) % 0x8_0000,
    {
        let v = self.lo64();
        assert((v >> 19u64) & 0x7_FFFF == (v / 0x8_0000) % 0x8_0000) by (bit_vector);
        (v >> 19u64) & 0x7_FFFF
    }

    /// Bits 38..45 of the packed word: an unknown 7-bit field.
    pub fn u3(&self) -> (r: u64)
        ensures
            r == (spawn_pos_lo64(self._bits@) / 0x40_0000_0000) % 0x80,
    {
        let v = self.lo64();
        assert((v >> 38u64) & 0x7F == (v / 0x40_0000_0000) % 0x80) by (bit_vector);
        (v >> 38u64) & 0x7F
    }

    /// Bits 45..64 of the packed word: the X coordinate.
    pub fn x(&self) -> (r: u64)
        ensures
            r == spawn_pos_lo64(self._bits@) / 0x2000_0000_0000,
    {
        let v = self.lo64();
        assert((v >> 45u64) & 0x7_FFFF == v / 0x2000_0000_0000) by (bit_vector);
        (v >> 45u64) & 0x7_FFFF
    }

    /// High 12 bits of the trailing word: the heading. The four unused bits
    /// lead the word.
    pub fn heading(&self) -> (r: u64)
        ensures
            r == spawn_pos_hi16(self._bits@) / 16,
    {
        let h = self.hi16();
        assert((h >> 4u16) & 0xFFF == h / 16) by (bit_vector);
        ((h >> 4u16) & 0xFFF) as u64
    }

    /// Low 4 bits of the trailing word, the unused field that leads the
    /// heading, read as a signed 4-bit field.
    pub fn unused2(&self) -> (r: i64)
        ensures
            ({
                let v = spawn_pos_hi16(self._bits@) % 16;
                r == if v >= 8 {
                    v - 16
                } else {
                    v as int
                }
            }),
    {
        let h = self.hi16();
        assert(h & 0xF == h % 16) by (bit_vector);
        let v = (h & 0xF) as i64;
        if v & 0x8 != 0 {
            assert(v & 0x8 != 0 ==> v >= 8) by (bit_vector)
                requires
                    0 <= v < 16,
            ;
            v - 0x10
        } else {
            assert(v & 0x8 == 0 ==> v < 8) by (bit_vector)
                requires
                    0 <= v < 16,
            ;
            v
        }
    }
}

} // verus!
