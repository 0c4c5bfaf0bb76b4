//! EQ Legends' 28-byte `playerSpawnPosStruct` (`OP_ClientUpdate`, server to
//! client only): the position broadcast for spawns other than the player.
//!
//! The fields are not word aligned. Coordinates are signed 19-bit ×8
//! fixed-point values: map X at bit 74, Z at bit 128, map Y at bit 172; the
//! facing is an 11-bit field at bit 160 on a 2048-step circle. The raw
//! sign-extended coordinates are surfaced; the consumer shifts them by 3.
use vstd::prelude::*;

use crate::eqstructs::{sign_extend, sign_extended};
use crate::wire::{le_u16, le_u64, rd_u16, rd_u64};

verus! {

/// Bytes of the broadcast.
pub const PAYLOAD_LEN: usize = 28;

/// Full circle in wire units for [`PlayerSpawnPos::heading`].
pub const HEADING_UNITS: u16 = 2048;

/// One decoded broadcast. Deltas, pitch and animation have no located
/// field and read 0.
#[derive(Debug, Clone, Copy, PartialEq, Eq, Structural)]
pub struct PlayerSpawnPos {
    pub spawn_id: u16,
    pub spawn_id2: u16,
    /// Raw 19-bit signed; the consumer applies `>> 3`.
    pub x: i32,
    pub y: i32,
    pub z: i32,
    pub delta_x: i32,
    pub delta_y: i32,
    pub delta_z: i32,
    /// Compass value (0..2047); 0 = N, increasing clockwise.
    pub heading: u16,
    pub delta_heading: i16,
    pub animation: i16,
    pub pitch: u16,
}

/// Why a broadcast was rejected.
#[derive(Debug, Clone, Copy, PartialEq, Eq, Structural)]
pub enum PlayerSpawnPosError {
    /// The payload is not exactly [`PAYLOAD_LEN`] bytes.
    BadLength(usize),
}


/// The broadcast a 28-byte payload decodes to.
pub open spec fn spawn_pos_of(b: Seq<u8>) -> PlayerSpawnPos {
    let hi = le_u64(b, 16);
    PlayerSpawnPos {
        spawn_id: le_u16(b, 0),
        spawn_id2: le_u16(b, 2),
        x: sign_extended(((le_u64(b, 8) / 0x400) % 0x8_0000) as u32, 19) as i32,
        y: sign_extended(((hi / 0x1000_0000_0000) % 0x8_0000) as u32, 19) as i32,
        z: sign_extended((hi % 0x8_0000) as u32, 19) as i32,
        delta_x: 0,
        delta_y: 0,
        delta_z: 0,
        heading: ((hi / 0x1_0000_0000) % 0x800) as u16,
        delta_heading: 0,
        animation: 0,
        pitch: 0,
    }
}

/// Decode a position broadcast of exactly [`PAYLOAD_LEN`] bytes.
pub fn parse_player_spawn_pos(bytes: &[u8]) -> (r: Result<PlayerSpawnPos, PlayerSpawnPosError>)
    ensures
        bytes@.len() != PAYLOAD_LEN ==> r == Err::<PlayerSpawnPos, PlayerSpawnPosError>(
            PlayerSpawnPosError::BadLength(bytes@.len() as usize),
        ),
        bytes@.len() == PAYLOAD_LEN ==> r == Ok::<PlayerSpawnPos, PlayerSpawnPosError>(
            spawn_pos_of(bytes@),
        ),
{
    if bytes.len() != PAYLOAD_LEN {
        return Err(PlayerSpawnPosError::BadLength(bytes.len()));
    }
    let spawn_id = rd_u16(bytes, 0);
    let spawn_id2 = rd_u16(bytes, 2);
    let lo = rd_u64(bytes, 8);
    let hi = rd_u64(bytes, 16);
    assert((lo >> 10u64) & 0x7_FFFF == (lo / 0x400) % 0x8_0000) by (bit_vector);
    assert(hi & 0x7_FFFF == hi % 0x8_0000) by (bit_vector);
    assert((hi >> 44u64) & 0x7_FFFF == (hi / 0x1000_0000_0000) % 0x8_0000) by (bit_vector);
    assert((hi >> 32u64) & 0x7FF == (hi / 0x1_0000_0000) % 0x800) by (bit_vector);
    let x = sign_extend(((lo >> 10u64) & 0x7_FFFF) as u32, 19);
    let z = sign_extend((hi & 0x7_FFFF) as u32, 19);
    let y = sign_extend(((hi >> 44u64) & 0x7_FFFF) as u32, 19);
    let heading = ((hi >> 32u64) & 0x7FF) as u16;
    Ok(PlayerSpawnPos {
        spawn_id,
        spawn_id2,
        x,
        y,
        z,
        delta_x: 0,
        delta_y: 0,
        delta_z: 0,
        heading,
        delta_heading: 0,
        animation: 0,
        pitch: 0,
    })
}

/// A decoded facing lies on the 2048-step circle.
pub proof fn law_heading_within_circle(b: Seq<u8>)
    requires
        b.len() == PAYLOAD_LEN,
    ensures
        spawn_pos_of(b).heading < HEADING_UNITS,
{
}

} // verus!
