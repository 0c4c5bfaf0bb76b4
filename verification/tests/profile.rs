use seq_backend_eql::player_profile::parse_player_profile;
use seq_backend_eql::DecodeError;

#[test]
fn profile_reads_identity() {
    let mut b = [0u8; 34];
    b[21..25].copy_from_slice(&6u32.to_le_bytes()); // race
    b[25..29].copy_from_slice(&5u32.to_le_bytes()); // class
    b[33] = 42; // level
    let p = parse_player_profile(&b).unwrap();
    assert_eq!(p.race, 6);
    assert_eq!(p.class_, 5);
    assert_eq!(p.level, 42);
    // A 34-byte identity-only buffer has no name slot: empty, no panic.
    assert_eq!(p.name, "");
}

#[test]
fn profile_reads_base_stats() {
    // Seven distinct values, so a permuted field mapping cannot pass.
    let mut b = vec![0u8; 990];
    for (i, v) in [11u32, 22, 33, 44, 55, 66, 77].iter().enumerate() {
        b[962 + 4 * i..966 + 4 * i].copy_from_slice(&v.to_le_bytes());
    }
    let p = parse_player_profile(&b).unwrap();
    // Wire order is STR/STA/CHA/DEX/INT/AGI/WIS.
    assert_eq!(
        (p.str_, p.sta, p.cha, p.dex, p.int_, p.agi, p.wis),
        (11, 22, 33, 44, 55, 66, 77)
    );
}

#[test]
fn profile_short_buffer_leaves_base_stats_zero() {
    // One byte short of the block: the read is skipped, not partial.
    let p = parse_player_profile(&vec![0u8; 989]).unwrap();
    assert_eq!(
        (p.str_, p.sta, p.cha, p.dex, p.int_, p.agi, p.wis),
        (0, 0, 0, 0, 0, 0, 0)
    );
}

/// Synthetic profile: 34-byte identity header, then unmapped-middle zeros
/// (no 0x40, so no false name-block match), then the name block and the
/// positional tail.
fn profile_with_name_block(name: &str, last: &str) -> Vec<u8> {
    let mut b = vec![0u8; 34];
    b[20] = 1; // gender
    b[21..25].copy_from_slice(&6u32.to_le_bytes()); // race
    b[25..29].copy_from_slice(&5u32.to_le_bytes()); // class (primary)
    b[29..33].copy_from_slice(&0b111u32.to_le_bytes()); // classMask
    b[33] = 12; // level
    b.extend_from_slice(&[0u8; 200]); // unmapped middle

    // name block
    b.extend_from_slice(&64u32.to_le_bytes());
    let mut nbuf = [0u8; 64];
    nbuf[..name.len()].copy_from_slice(name.as_bytes());
    b.extend_from_slice(&nbuf);
    b.extend_from_slice(&32u32.to_le_bytes());
    let mut lbuf = [0u8; 32];
    lbuf[..last.len()].copy_from_slice(last.as_bytes());
    b.extend_from_slice(&lbuf);

    // tail
    for v in [111u32, 222, 333, 444] {
        b.extend_from_slice(&v.to_le_bytes()); // birthday/create/save/played
    }
    b.extend_from_slice(&[0u8; 4]); // unknown
    b.extend_from_slice(&0xFFu32.to_le_bytes()); // expansions
    b.extend_from_slice(&[0u8; 4]); // unknown
    b.extend_from_slice(&1u32.to_le_bytes()); // langCount
    b.push(100); // one language
    b.extend_from_slice(&55u16.to_le_bytes()); // zoneId (LE)
    b.extend_from_slice(&0u16.to_le_bytes()); // zoneInstance (LE)
    b.extend_from_slice(&(-12.5f32).to_le_bytes()); // y
    b.extend_from_slice(&34.5f32.to_le_bytes()); // x
    b.extend_from_slice(&7.0f32.to_le_bytes()); // z
    b.extend_from_slice(&90.0f32.to_le_bytes()); // heading
    b.extend_from_slice(&100u16.to_be_bytes()); // standState (BE)
    b.extend_from_slice(&0u16.to_be_bytes()); // anon (BE)
    b.extend_from_slice(&999u32.to_le_bytes()); // guildID
    b.extend_from_slice(&1u32.to_le_bytes()); // guildServerID
    b.extend_from_slice(&[0u8; 2]); // 2 unknown
    for v in [10u32, 20, 30, 40] {
        b.extend_from_slice(&v.to_le_bytes()); // carried P/G/S/C
    }
    for v in [50u32, 60, 70, 80] {
        b.extend_from_slice(&v.to_le_bytes()); // bank P/G/S/C
    }
    b
}

#[test]
fn profile_anchor_scans_name_surname_and_tail() {
    let b = profile_with_name_block("Testchar", "Surname");
    let p = parse_player_profile(&b).unwrap();
    // identity header (fixed offsets)
    assert_eq!(p.gender, 1);
    assert_eq!(p.race, 6);
    assert_eq!(p.class_, 5);
    assert_eq!(p.level, 12);
    // name block reached by the anchor scan, not a fixed offset
    assert_eq!(p.name, "Testchar");
    assert_eq!(p.last_name, "Surname");
    // positional tail
    assert_eq!(p.expansions, 0xFF);
    assert_eq!(p.languages, vec![100]);
    assert_eq!(p.zone_id, 55);
    assert_eq!(f32::from_bits(p.x_bits), 34.5);
    assert_eq!(f32::from_bits(p.y_bits), -12.5);
    assert_eq!(f32::from_bits(p.z_bits), 7.0);
    assert_eq!(f32::from_bits(p.heading_bits), 90.0);
    assert_eq!(p.stand_state, 100);
    assert_eq!(p.guild_id, 999);
    assert_eq!(p.guild_server_id, 1);
    // Money is read from fixed offsets, so a short synthetic profile carries
    // none.
    assert_eq!(p.platinum, 0);
    assert_eq!(p.copper, 0);
}

#[test]
fn money_at_fixed_offsets() {
    // Carried coin at 33687 and cursor at 33703; the bank follows the
    // inventory mirror of the carried purse, located by value.
    let mut b = vec![0u8; 40000];
    let put = |b: &mut Vec<u8>, off: usize, v: u32| {
        b[off..off + 4].copy_from_slice(&v.to_le_bytes());
    };
    for (i, v) in [9275u32, 10, 25, 47].iter().enumerate() {
        put(&mut b, 33687 + i * 4, *v); // carried
        put(&mut b, 36245 + i * 4, *v); // inventory mirror
    }
    for (i, v) in [1234u32, 5, 3, 5].iter().enumerate() {
        put(&mut b, 36261 + i * 4, *v); // bank, right after the mirror
    }
    let p = parse_player_profile(&b).unwrap();
    assert_eq!((p.platinum, p.gold, p.silver, p.copper), (9275, 10, 25, 47));
    assert_eq!(
        (p.platinum_bank, p.gold_bank, p.silver_bank, p.copper_bank),
        (1234, 5, 3, 5)
    );
    // Nothing on the cursor in this fixture.
    assert_eq!((p.platinum_cursor, p.copper_cursor), (0, 0));
}

#[test]
fn empty_purse_leaves_bank_unread() {
    // An all-zero carried purse would match padding anywhere, so the mirror
    // scan is skipped.
    let b = vec![0u8; 40000];
    let p = parse_player_profile(&b).unwrap();
    assert_eq!((p.platinum, p.platinum_bank), (0, 0));
}

#[test]
fn profile_without_name_block_keeps_identity_only() {
    let mut b = vec![0u8; 500];
    b[21..25].copy_from_slice(&6u32.to_le_bytes());
    b[33] = 12;
    let p = parse_player_profile(&b).unwrap();
    assert_eq!(p.name, "");
    assert_eq!(p.last_name, "");
    assert_eq!(p.race, 6);
    assert_eq!(p.level, 12);
}

#[test]
fn profile_truncated_tail_still_yields_name() {
    // Name block intact but the tail cut off: name and last name still land.
    let mut b = profile_with_name_block("Halfway", "");
    b.truncate(b.len() - 30);
    let p = parse_player_profile(&b).unwrap();
    assert_eq!(p.name, "Halfway");
}

#[test]
fn profile_under_the_identity_header_is_short() {
    assert_eq!(parse_player_profile(&[0u8; 33]), Err(DecodeError::Short(33)));
}

#[test]
fn profile_walk_reads_aa_and_skills() {
    // Every count zero up to the AA array: 35 + 4 + 8 + 4 + 4 + 4 + 4 + 4
    // bytes of counts and fixed words, then 119 fixed bytes.
    let mut b = vec![0u8; 35];
    b.extend_from_slice(&0u32.to_le_bytes()); // bind points
    b.extend_from_slice(&[0u8; 8]); // deity, intoxication
    for _ in 0..5 {
        b.extend_from_slice(&0u32.to_le_bytes()); // refresh, equipment, 3 unknown
    }
    b.extend_from_slice(&[0u8; 119]);
    b.extend_from_slice(&2u32.to_le_bytes()); // two AAs
    for (id, val) in [(7u32, 3u32), (9, u32::MAX)] {
        b.extend_from_slice(&id.to_le_bytes());
        b.extend_from_slice(&val.to_le_bytes());
        b.extend_from_slice(&[0u8; 4]);
    }
    b.extend_from_slice(&3u32.to_le_bytes()); // three skills
    for v in [5u32, 6, 7] {
        b.extend_from_slice(&v.to_le_bytes());
    }
    let p = parse_player_profile(&b).unwrap();
    assert_eq!(p.aa_ids, vec![7, 9]);
    assert_eq!(p.aa_values, vec![3, u32::MAX]);
    assert_eq!(p.aa_spent, 2); // wraps at 32 bits
    assert_eq!(p.skills, vec![5, 6, 7]);
}
