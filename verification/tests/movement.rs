use seq_backend_eql::npc_move_update::{parse_npc_move_update, BitStream, NpcMoveUpdateError};
use seq_backend_eql::player_spawn_pos::{
    parse_player_spawn_pos, PlayerSpawnPosError, HEADING_UNITS, PAYLOAD_LEN,
};

#[test]
fn npc_move_update_rejects_wrong_length() {
    assert!(parse_npc_move_update(&[0; 12]).is_err());
    assert!(parse_npc_move_update(&[0; 25]).is_err());
}

#[test]
fn read_uint_byte_aligned() {
    // 0x12 0x34 → readUInt(16) should be 0x1234 (big-endian).
    let mut s = BitStream::new(&[0x12, 0x34]);
    assert_eq!(s.read_uint(16), 0x1234);
}

#[test]
fn read_uint_sub_byte() {
    // 0xF0 → readUInt(4) should be 0x0F (top nibble first).
    let mut s = BitStream::new(&[0xF0]);
    assert_eq!(s.read_uint(4), 0xF);
    assert_eq!(s.read_uint(4), 0x0);
}

#[test]
fn read_int_sign_magnitude() {
    // sign=1, mag=5 in 4 bits → readInt(4) = -5
    let mut s = BitStream::new(&[0xD0]);
    assert_eq!(s.read_int(4), -5);
}

#[test]
fn parses_minimum_packet_no_optional_fields() {
    // 16+16+6+19+19+19+12 = 107 bits → 14 bytes.
    let mut buf = [0u8; 14];
    buf[0] = 0x43;
    buf[1] = 0x21;
    let r = parse_npc_move_update(&buf).unwrap();
    assert_eq!(r.spawn_id, 0x4321);
    assert_eq!(r.x, 0);
    assert_eq!(r.y, 0);
    assert_eq!(r.z, 0);
    assert_eq!(r.heading, 0);
    assert_eq!(r.delta_x, 0);
    assert!(!r.has_delta_x);
    assert!(!r.has_delta_y);
    assert!(!r.has_delta_z);
    assert!(!r.has_delta_heading);
    assert!(!r.has_animation);
}

#[test]
fn an_under_read_yields_zero_and_consumes_nothing() {
    let mut s = BitStream::new(&[0xFF]);
    assert_eq!(s.read_uint(9), 0);
    assert_eq!(s.cur, 0);
    assert_eq!(s.read_uint(3), 0b111);
    assert_eq!(s.cur, 3);
}

/// Pack `(value, width)` fields MSB-first into bytes.
fn pack(fields: &[(u32, usize)], len: usize) -> Vec<u8> {
    let mut out = vec![0u8; len];
    let mut bit = 0usize;
    for &(v, w) in fields {
        for i in 0..w {
            if (v >> (w - 1 - i)) & 1 == 1 {
                out[(bit + i) / 8] |= 0x80 >> ((bit + i) % 8);
            }
        }
        bit += w;
    }
    out
}

fn sm(v: i32, w: usize) -> (u32, usize) {
    let mag = v.unsigned_abs();
    let sign = if v < 0 { 1u32 << (w - 1) } else { 0 };
    (sign | mag, w)
}

#[test]
fn coordinates_shift_by_three_and_deltas_by_two() {
    let fields = [
        (0x1234, 16),
        (0, 16),
        (0x02 | 0x08 | 0x20, 6),
        sm(-803, 19), // y
        sm(800, 19),  // x
        sm(-7, 19),   // z: floor(-7 / 8) = -1
        sm(-100, 12), // heading
        sm(-9, 10),   // delta heading: floor(-9 / 4) = -3
        sm(40, 13),   // delta y
        sm(-13, 13),  // delta z
    ];
    let buf = pack(&fields, 22);
    let r = parse_npc_move_update(&buf).unwrap();
    assert_eq!(r.spawn_id, 0x1234);
    assert_eq!((r.x, r.y, r.z), (100, -101, -1));
    assert_eq!(r.heading, -100);
    assert_eq!(r.delta_heading, -3);
    assert!(r.has_delta_heading && r.has_delta_y && r.has_delta_z);
    assert!(!r.has_delta_x && !r.has_animation);
    assert_eq!((r.delta_y, r.delta_z, r.delta_x), (10, -4, 0));
}

#[test]
fn npc_move_update_length_error_carries_the_length() {
    assert_eq!(
        parse_npc_move_update(&[0; 30]),
        Err(NpcMoveUpdateError::BadLength(30))
    );
}

#[test]
fn player_spawn_pos_rejects_wrong_length() {
    assert!(parse_player_spawn_pos(&[0; 24]).is_err());
    assert!(parse_player_spawn_pos(&[0; 27]).is_err());
    assert!(parse_player_spawn_pos(&[0; 29]).is_err());
    assert_eq!(
        parse_player_spawn_pos(&[0; 24]),
        Err(PlayerSpawnPosError::BadLength(24))
    );
}

#[test]
fn zero_payload_is_zero() {
    let p = parse_player_spawn_pos(&[0u8; PAYLOAD_LEN]).unwrap();
    assert_eq!(p.spawn_id, 0);
    assert_eq!((p.x, p.y, p.z), (0, 0, 0));
    assert_eq!(p.heading, 0);
}

#[test]
fn each_coordinate_reads_from_its_own_field() {
    let mut buf = [0u8; PAYLOAD_LEN];
    buf[0..2].copy_from_slice(&0x1151u16.to_le_bytes()); // spawnId 4433
    // Every bit outside the three coordinate fields is set.
    let lo = !(0x7_FFFFu64 << 10);
    buf[8..16].copy_from_slice(&(lo | (300u64 << 10)).to_le_bytes()); // x = 300
    let hi = !(0x7_FFFFu64 | (0x7_FFFFu64 << 44));
    buf[16..24].copy_from_slice(&(hi | 42u64 | (0x0004_0000u64 << 44)).to_le_bytes());
    let p = parse_player_spawn_pos(&buf).unwrap();
    assert_eq!(p.spawn_id, 0x1151);
    assert_eq!(p.x, 300);
    assert_eq!(p.z, 42);
    assert_eq!(p.y, -262_144); // 19-bit signed minimum
}

#[test]
fn decodes_a_captured_broadcast() {
    let bytes: [u8; PAYLOAD_LEN] = [
        0x92, 0x63, 0x00, 0x00, 0x00, 0x00, 0x00, 0x00, 0x00, 0xB0, 0x58, 0x00, 0x00, 0x00,
        0x00, 0x00, 0x51, 0xFF, 0x87, 0x07, 0xE8, 0xC5, 0xEB, 0x7D, 0x00, 0x00, 0x00, 0x00,
    ];
    let p = parse_player_spawn_pos(&bytes).unwrap();
    assert_eq!(p.spawn_id, 25490);
    // raw 19-bit values; the consumer applies >> 3
    assert_eq!((p.x >> 3, p.y >> 3, p.z >> 3), (709, -1065, -22));
    assert_eq!(p.heading, 1512);
}

#[test]
fn heading_is_eleven_bits_between_z_and_y() {
    let mut buf = [0u8; PAYLOAD_LEN];
    let quarter = u64::from(HEADING_UNITS) / 4;
    let hi = !(0x7FFu64 << 32) | (quarter << 32);
    buf[16..24].copy_from_slice(&hi.to_le_bytes());
    let p = parse_player_spawn_pos(&buf).unwrap();
    assert_eq!(p.heading, HEADING_UNITS / 4);
    assert!(p.heading < HEADING_UNITS);
}
