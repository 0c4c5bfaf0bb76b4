#![allow(non_snake_case)]

use seq_backend_eql::bindings::{
    spawnPositionUpdate, deleteSpawnStruct, removeSpawnStruct, hpNpcUpdateStruct, mobHealthStruct, spawnAppearanceStruct, expUpdateStruct, levelUpUpdateStruct, skillIncStruct, manaDecrementStruct, staminaStruct, endUpdateStruct, considerStruct, spawnRenameStruct, clientTargetStruct, newCorpseStruct, remDropStruct, spawnIllusionStruct, action2Struct, SpawnUpdateStruct, zoneChangeStruct, dzInfo, startCastStruct, actionStruct, actionAltStruct, groupDisbandStruct, simpleMessageStruct, formattedMessageStruct,
};
use seq_backend_eql::eqstructs::sign_extend;

#[test]
fn spawnPositionUpdate_size() {
    assert_eq!(spawnPositionUpdate::WIRE_SIZE, 18);
}

#[test]
fn deleteSpawnStruct_size() {
    assert_eq!(deleteSpawnStruct::WIRE_SIZE, 4);
}

#[test]
fn removeSpawnStruct_size() {
    assert_eq!(removeSpawnStruct::WIRE_SIZE, 5);
}

#[test]
fn hpNpcUpdateStruct_size() {
    assert_eq!(hpNpcUpdateStruct::WIRE_SIZE, 18);
}

#[test]
fn mobHealthStruct_size() {
    assert_eq!(mobHealthStruct::WIRE_SIZE, 6);
}

#[test]
fn spawnAppearanceStruct_size() {
    assert_eq!(spawnAppearanceStruct::WIRE_SIZE, 8);
}

#[test]
fn expUpdateStruct_size() {
    assert_eq!(expUpdateStruct::WIRE_SIZE, 16);
}

#[test]
fn levelUpUpdateStruct_size() {
    assert_eq!(levelUpUpdateStruct::WIRE_SIZE, 24);
}

#[test]
fn skillIncStruct_size() {
    assert_eq!(skillIncStruct::WIRE_SIZE, 12);
}

#[test]
fn manaDecrementStruct_size() {
    assert_eq!(manaDecrementStruct::WIRE_SIZE, 20);
}

#[test]
fn staminaStruct_size() {
    assert_eq!(staminaStruct::WIRE_SIZE, 8);
}

#[test]
fn endUpdateStruct_size() {
    assert_eq!(endUpdateStruct::WIRE_SIZE, 10);
}

#[test]
fn considerStruct_size() {
    assert_eq!(considerStruct::WIRE_SIZE, 24);
}

#[test]
fn spawnRenameStruct_size() {
    assert_eq!(spawnRenameStruct::WIRE_SIZE, 195);
}

#[test]
fn clientTargetStruct_size() {
    assert_eq!(clientTargetStruct::WIRE_SIZE, 4);
}

#[test]
fn newCorpseStruct_size() {
    assert_eq!(newCorpseStruct::WIRE_SIZE, 40);
}

#[test]
fn remDropStruct_size() {
    assert_eq!(remDropStruct::WIRE_SIZE, 12);
}

#[test]
fn spawnIllusionStruct_size() {
    assert_eq!(spawnIllusionStruct::WIRE_SIZE, 332);
}

#[test]
fn action2Struct_size() {
    assert_eq!(action2Struct::WIRE_SIZE, 48);
}

#[test]
fn SpawnUpdateStruct_size() {
    assert_eq!(SpawnUpdateStruct::WIRE_SIZE, 32);
}

#[test]
fn zoneChangeStruct_size() {
    assert_eq!(zoneChangeStruct::WIRE_SIZE, 100);
}

#[test]
fn dzInfo_size() {
    assert_eq!(dzInfo::WIRE_SIZE, 212);
}

#[test]
fn startCastStruct_size() {
    assert_eq!(startCastStruct::WIRE_SIZE, 44);
}

#[test]
fn actionStruct_size() {
    assert_eq!(actionStruct::WIRE_SIZE, 64);
}

#[test]
fn actionAltStruct_size() {
    assert_eq!(actionAltStruct::WIRE_SIZE, 88);
}

#[test]
fn groupDisbandStruct_size() {
    assert_eq!(groupDisbandStruct::WIRE_SIZE, 152);
}

#[test]
fn simpleMessageStruct_size() {
    assert_eq!(simpleMessageStruct::WIRE_SIZE, 12);
}

#[test]
fn formattedMessageStruct_size() {
    assert_eq!(formattedMessageStruct::WIRE_SIZE, 13);
}

#[test]
fn sign_extend_19_bit() {
    assert_eq!(sign_extend(0, 19), 0);
    assert_eq!(sign_extend(1, 19), 1);
    assert_eq!(sign_extend(0x3_FFFF, 19), 0x3_FFFF);
    assert_eq!(sign_extend(0x4_0000, 19), -262_144);
    assert_eq!(sign_extend(0x7_FFFF, 19), -1);
}

#[test]
fn spawn_position_update_layout() {
    // The pinned record matches the 18-byte payload the wire gives us.
    assert_eq!(spawnPositionUpdate::WIRE_SIZE, 18);
}

#[test]
fn delete_spawn_struct_layout() {
    // 4-byte fixed payload, single u32 spawnId.
    assert_eq!(deleteSpawnStruct::WIRE_SIZE, 4);
}

#[test]
fn small_fixed_struct_layouts() {
    assert_eq!(removeSpawnStruct::WIRE_SIZE, 5);
    assert_eq!(hpNpcUpdateStruct::WIRE_SIZE, 18);
    assert_eq!(mobHealthStruct::WIRE_SIZE, 6);
    assert_eq!(spawnAppearanceStruct::WIRE_SIZE, 8);
    assert_eq!(expUpdateStruct::WIRE_SIZE, 16);
    assert_eq!(levelUpUpdateStruct::WIRE_SIZE, 24);
    assert_eq!(skillIncStruct::WIRE_SIZE, 12);
}

#[test]
fn stage_a4_struct_layouts() {
    assert_eq!(manaDecrementStruct::WIRE_SIZE, 20);
    assert_eq!(staminaStruct::WIRE_SIZE, 8);
    // 2-byte spawn_id + two u32, packed without alignment padding.
    assert_eq!(endUpdateStruct::WIRE_SIZE, 10);
    assert_eq!(considerStruct::WIRE_SIZE, 24);
    assert_eq!(spawnRenameStruct::WIRE_SIZE, 195);
    assert_eq!(clientTargetStruct::WIRE_SIZE, 4);
    assert_eq!(newCorpseStruct::WIRE_SIZE, 40);
}

#[test]
fn sign_extend_other_widths() {
    assert_eq!(sign_extend(0x8, 4), -8);
    assert_eq!(sign_extend(0x7, 4), 7);
    assert_eq!(sign_extend(0xFFFF_FFFF, 32), -1);
}

fn position_update(bits: [u8; 10]) -> spawnPositionUpdate {
    spawnPositionUpdate { spawnId: 7, unk1: [0; 6], _bits: bits }
}

#[test]
fn position_update_fields_read_their_own_bits() {
    // y = 0x12345 in bits 0..19, z = 0x54321 in 19..38, u3 = 0x55 in 38..45,
    // x = 0x2ABCD in 45..64; heading 0xABC over the low 4-bit pad 0x3.
    let lo: u64 = 0x12345 | (0x54321u64 << 19) | (0x55u64 << 38) | (0x2ABCDu64 << 45);
    let hi: u16 = (0xABC << 4) | 0x3;
    let mut bits = [0u8; 10];
    bits[..8].copy_from_slice(&lo.to_le_bytes());
    bits[8..].copy_from_slice(&hi.to_le_bytes());
    let p = position_update(bits);
    assert_eq!(p.y(), 0x12345);
    assert_eq!(p.z(), 0x54321);
    assert_eq!(p.u3(), 0x55);
    assert_eq!(p.x(), 0x2ABCD);
    assert_eq!(p.heading(), 0xABC);
    assert_eq!(p.unused2(), 3); // the low 4-bit pad, apart from the heading
}

#[test]
fn position_update_unused2_is_the_low_nibble() {
    let mut bits = [0u8; 10];
    bits[8..].copy_from_slice(&0xC35Au16.to_le_bytes());
    let p = position_update(bits);
    assert_eq!(p.unused2(), -6);
    assert_eq!(p.heading(), 0xC35);
}

#[test]
fn position_update_unused2_positive() {
    let mut bits = [0u8; 10];
    bits[8..].copy_from_slice(&0x7007u16.to_le_bytes());
    assert_eq!(position_update(bits).unused2(), 7);
    assert_eq!(position_update(bits).heading(), 0x700);
}
