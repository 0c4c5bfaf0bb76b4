use seq_backend_eql::backend::{
    invocation_name, is_echoed_channel, is_player_channel, resolve_ability, stance_name, tail_of,
    AbilityKind,
};
use seq_backend_eql::buff_list::{parse_buff_list, BuffListEntry};
use seq_backend_eql::decode::{
    parse_aa_table_entry, parse_activate_ability, parse_begin_cast, parse_consider,
    size_overrides, DecodeError,
};
use seq_backend_eql::spawn::parse_spawn;
use seq_backend_eql::stat_sync::parse_stat_sync;

/// A game-unit coordinate as a wire position word: signed 19-bit ×8
/// fixed-point in the low bits.
fn pos_word(game_units: i32) -> [u8; 4] {
    (((game_units * 8) as u32) & 0x7FFFF).to_le_bytes()
}

fn text(b: &mut Vec<u8>, s: &str) {
    b.extend_from_slice(s.as_bytes());
    b.push(0);
}

fn u32le(b: &mut Vec<u8>, v: u32) {
    b.extend_from_slice(&v.to_le_bytes());
}

#[allow(clippy::too_many_arguments)]
fn build_spawn(
    name: &str,
    id: u32,
    level: u8,
    cur_hp: u8,
    race: u32,
    deity: u32,
    class_: u32,
    z: i32,
    y: i32,
    x: i32,
    heading: u16,
    last: &str,
    title: &str,
    suffix: &str,
) -> Vec<u8> {
    let mut b = Vec::new();
    text(&mut b, name);
    u32le(&mut b, id);
    b.push(level);
    b.extend_from_slice(&[0u8; 16]);
    b.push(1); // npc
    u32le(&mut b, 0); // miscData
    b.push(0); // otherData
    b.extend_from_slice(&[0u8; 8]);
    b.push(0); // charProperties = 0 (no bodytype loop)
    b.extend_from_slice(&[0u8; 3]);
    b.push(0); // appearanceCount = 0
    b.extend_from_slice(&[0u8; 4]);
    b.push(cur_hp);
    b.extend_from_slice(&[0u8; 33]);
    u32le(&mut b, race);
    b.push(0); // holding
    u32le(&mut b, deity);
    u32le(&mut b, 0); // guildID
    u32le(&mut b, 0); // guildServerID
    u32le(&mut b, class_);
    u32le(&mut b, 0); // classMask
    b.push(0); // skip1
    b.push(0); // state
    b.push(0); // light
    b.push(0); // skip1
    text(&mut b, last); // lastName
    b.extend_from_slice(&[0u8; 2]);
    u32le(&mut b, 0); // petOwnerId
    b.extend_from_slice(&[0u8; 49]); // npc==1 extra
    b.extend_from_slice(&[0u8; 60]); // equipment (else branch: 20 + 2*5*4)
    b.extend_from_slice(&(0x1234_5678u32).to_le_bytes()); // w0: pad — deliberately not zero
    b.extend_from_slice(&pos_word(z)); // w1: Z in the low 19
    u32le(&mut b, u32::from(heading) & 0xFFF); // w2: heading word (not decoded yet)
    b.extend_from_slice(&pos_word(x)); // w3: X in the low 19
    b.extend_from_slice(&pos_word(y)); // w4: Y in the low 19
    u32le(&mut b, 0); // w5
    text(&mut b, title);
    text(&mut b, suffix);
    text(&mut b, ""); // string 3
    text(&mut b, ""); // string 4
    b.extend_from_slice(&[0u8; 4]); // 4 fixed
    b.push(0); // isMercenary
    text(&mut b, "0"); // ASCII digit string
    b.extend_from_slice(&[0u8; 53]); // 53 fixed tail
    b
}

#[test]
fn spawn_full_walk_reads_all_fields() {
    let b = build_spawn(
        "a guard",
        4242,
        55,
        90,
        14,
        396,
        3,
        80,
        -15,
        10,
        1234,
        "",
        "Protector",
        "of Qeynos",
    );
    let s = parse_spawn(&b).unwrap();
    assert_eq!(s.id, 4242);
    assert_eq!(s.name, "a guard");
    assert_eq!(s.level, 55);
    assert_eq!(s.cur_hp, 90);
    assert_eq!(s.max_hp, 100);
    assert_eq!(s.race, 14);
    assert_eq!(s.deity, 396);
    assert_eq!(s.class_, 3);
    assert_eq!(s.npc, 1);
    assert_eq!(s.x, 10);
    assert_eq!(s.y, -15);
    assert_eq!(s.z, 80);
    assert_eq!(s.heading, 0);
    assert_eq!(s.title, "Protector");
    assert_eq!(s.suffix, "of Qeynos");
}

#[test]
fn spawn_last_name_and_position_past_i16_window() {
    let b = build_spawn(
        "Grarf",
        7,
        60,
        100,
        14,
        0,
        5,
        12,
        -4700,
        5200,
        0,
        "Ironforge",
        "",
        "",
    );
    let s = parse_spawn(&b).unwrap();
    assert_eq!(s.y, -4700);
    assert_eq!(s.x, 5200);
    assert_eq!(s.last_name, "Ironforge");
    assert_eq!(s.title, "");
    assert_eq!(s.suffix, "");
}

#[test]
fn spawn_rejects_truncated() {
    let mut b = Vec::new();
    b.extend_from_slice(b"orc\0");
    b.extend_from_slice(&[0u8; 40]); // walk overruns the header
    assert!(parse_spawn(&b).is_err());
}

#[test]
fn spawn_errors_distinguish_a_nameless_record() {
    assert_eq!(parse_spawn(b"\0abc"), Err(DecodeError::Short(4)));
    assert_eq!(parse_spawn(b"orc"), Err(DecodeError::BadLength(3)));
    let mut b = Vec::new();
    b.extend_from_slice(b"orc\0");
    b.extend_from_slice(&[0u8; 40]);
    assert_eq!(parse_spawn(&b), Err(DecodeError::BadLength(44)));
}

#[test]
fn spawn_reads_body_type_and_full_equipment() {
    // A player (npc 0) with two character properties and one appearance entry.
    let mut b = Vec::new();
    text(&mut b, "Hero");
    u32le(&mut b, 77);
    b.push(10);
    b.extend_from_slice(&[0u8; 16]);
    b.push(0); // npc: a player
    u32le(&mut b, 0);
    b.push(0);
    b.extend_from_slice(&[0u8; 8]);
    b.push(2); // two character properties
    u32le(&mut b, 21); // body type
    u32le(&mut b, 99);
    b.extend_from_slice(&[0u8; 3]);
    b.push(1); // one appearance entry
    b.extend_from_slice(&[0u8; 4]);
    b.push(42); // cur hp
    b.extend_from_slice(&[0u8; 33 + 4]);
    u32le(&mut b, 1); // race
    b.push(3); // holding
    u32le(&mut b, 4); // deity
    u32le(&mut b, 5); // guild
    u32le(&mut b, 6); // guild server
    u32le(&mut b, 7); // class
    u32le(&mut b, 0x88); // class mask
    b.push(0);
    b.push(9); // state
    b.push(10); // light
    b.push(0);
    text(&mut b, "Doe");
    b.extend_from_slice(&[0u8; 2]);
    u32le(&mut b, 1234); // pet owner
    b.extend_from_slice(&[0u8; 37]); // not an NPC
    b.extend_from_slice(&[0u8; 216]); // full equipment
    u32le(&mut b, 0);
    b.extend_from_slice(&pos_word(-1));
    u32le(&mut b, 0);
    b.extend_from_slice(&pos_word(2));
    b.extend_from_slice(&pos_word(-3));
    u32le(&mut b, 0);
    let s = parse_spawn(&b).unwrap();
    assert_eq!(s.body_type, 21);
    assert_eq!(s.cur_hp, 42);
    assert_eq!(s.holding, 3);
    assert_eq!(s.guild_id, 5);
    assert_eq!(s.guild_server_id, 6);
    assert_eq!(s.class_mask, 0x88);
    assert_eq!((s.state, s.light), (9, 10));
    assert_eq!(s.last_name, "Doe");
    assert_eq!(s.pet_owner_id, 1234);
    assert_eq!((s.x, s.y, s.z), (2, -3, -1));
    assert_eq!(s.npc, 0);
}

#[test]
fn consider_reads_self_target_faction() {
    let mut b = [0u8; 24];
    b[0..4].copy_from_slice(&27090u32.to_le_bytes()); // self
    b[4..8].copy_from_slice(&11626u32.to_le_bytes()); // target
    b[8..12].copy_from_slice(&4u32.to_le_bytes()); // faction (amiably)
    let c = parse_consider(&b).unwrap();
    assert_eq!(c.player_id, 27090);
    assert_eq!(c.target_id, 11626);
    assert_eq!(c.faction, 4);
    assert_eq!(c.level, 0);
    assert!(parse_consider(&[0u8; 23]).is_err());
}

#[test]
fn consider_faction_is_signed_and_length_exact() {
    let mut b = [0u8; 24];
    b[8..12].copy_from_slice(&(-2i32).to_le_bytes());
    assert_eq!(parse_consider(&b).unwrap().faction, -2);
    assert_eq!(parse_consider(&[0u8; 25]), Err(DecodeError::BadLength(25)));
}

#[test]
fn begin_cast_reads_spell_caster_and_time() {
    let mut b = [0u8; 19];
    b[0..4].copy_from_slice(&74023u32.to_le_bytes());
    b[4..6].copy_from_slice(&513u16.to_le_bytes());
    b[6..8].copy_from_slice(&4500u16.to_le_bytes());
    let c = parse_begin_cast(&b).unwrap();
    assert_eq!((c.spell_id, c.caster_id, c.cast_time_ms), (74023, 513, 4500));
    assert_eq!(parse_begin_cast(&b[..7]).err(), Some(DecodeError::Short(7)));
}

#[test]
fn aa_table_entry_reads_the_fixed_head() {
    let mut b = [0u8; 40];
    b[0..4].copy_from_slice(&1234u32.to_le_bytes());
    b[13..17].copy_from_slice(&5678u32.to_le_bytes());
    let e = parse_aa_table_entry(&b).unwrap();
    assert_eq!((e.desc_id, e.title_sid), (1234, 5678));
    assert_eq!(parse_aa_table_entry(&b[..36]).err(), Some(DecodeError::Short(36)));
}

#[test]
fn activate_ability_reads_one_word() {
    assert_eq!(parse_activate_ability(&120u32.to_le_bytes()), Ok(120));
    assert_eq!(parse_activate_ability(&[1, 2, 3]), Err(DecodeError::Short(3)));
}

#[test]
fn stances_and_invocations_resolve_by_id() {
    assert_eq!(stance_name(117), Some("Offense"));
    assert_eq!(stance_name(135), Some("Channeler"));
    assert_eq!(stance_name(125), None);
    assert_eq!(invocation_name(128), Some("Spell Blade"));
    assert_eq!(invocation_name(117), None);
    assert_eq!(
        resolve_ability(&121u32.to_le_bytes(), AbilityKind::Stance),
        Some("Mage Hunter".to_string())
    );
    assert_eq!(
        resolve_ability(&999u32.to_le_bytes(), AbilityKind::Invocation),
        Some("#999".to_string())
    );
    assert_eq!(resolve_ability(&[0u8; 2], AbilityKind::Stance), None);
}

#[test]
fn player_channels_and_echoes() {
    for c in [0, 2, 3, 4, 5, 7, 15] {
        assert!(is_player_channel(c) && is_echoed_channel(c));
    }
    assert!(is_player_channel(8) && !is_echoed_channel(8));
    for c in [1, 6, 9, 14, 16] {
        assert!(!is_player_channel(c) && !is_echoed_channel(c));
    }
}

#[test]
fn a_self_loadout_swap_also_yields_its_item_set() {
    // A payload longer than innerLen has a tail, a broadcast does not.
    let mut p = vec![0u8; 64];
    p[5..7].copy_from_slice(&64u16.to_le_bytes());
    assert!(tail_of(&p).is_empty(), "broadcast: no tail");

    let mut p2 = vec![0u8; 200];
    p2[5..7].copy_from_slice(&64u16.to_le_bytes());
    assert_eq!(tail_of(&p2).len(), 136, "self: tail present");
}

#[test]
fn a_runt_loadout_swap_has_no_tail() {
    assert!(tail_of(&[0u8; 6]).is_empty());
    let mut p = vec![0u8; 10];
    p[5..7].copy_from_slice(&8u16.to_le_bytes());
    assert_eq!(tail_of(&p), &[0u8, 0][..]);
}

#[test]
fn size_overrides_carry_the_pinned_sizes() {
    let o = size_overrides();
    assert_eq!(o.len(), 34);
    assert_eq!(o[0], ("considerStruct", 24));
    assert_eq!(o[1], ("startCastStruct", 44));
    assert_eq!(o[2], ("playerSpawnPosStruct", 28));
    assert!(o.contains(&("doorStruct", 132)));
    assert!(o.contains(&("beginCastStruct", 19)));
    assert_eq!(o[o.len() - 1], ("activateAbilityStruct", 4));
}

#[test]
fn stat_sync_narrow_hp_percent() {
    let mut b = [0u8; 6];
    b[0..4].copy_from_slice(&11744u32.to_le_bytes());
    b[4] = 0x02;
    b[5] = 73;
    let s = parse_stat_sync(&b).unwrap();
    assert_eq!(s.spawn_id, 11744);
    assert!(!s.wide);
    assert!(s.has_hp);
    assert_eq!(s.hp_cur, 73);
    assert_eq!(s.hp_max, 100);
    assert!(!s.has_mana && !s.has_end);
}

#[test]
fn stat_sync_wide_hp_mana() {
    let mut b = [0u8; 37];
    b[0..4].copy_from_slice(&42u32.to_le_bytes());
    b[4] = 0x07;
    b[5..13].copy_from_slice(&1500i64.to_le_bytes()); // hp cur
    b[13..21].copy_from_slice(&2000i64.to_le_bytes()); // hp max
    b[21..29].copy_from_slice(&300i64.to_le_bytes()); // mana cur
    b[29..37].copy_from_slice(&450i64.to_le_bytes()); // mana max
    let s = parse_stat_sync(&b).unwrap();
    assert!(s.wide);
    assert_eq!(s.spawn_id, 42);
    assert!(s.has_hp && s.hp_cur == 1500 && s.hp_max == 2000);
    assert!(s.has_mana && s.mana_cur == 300 && s.mana_max == 450);
    assert!(!s.has_end);
}

#[test]
fn stat_sync_wide_three_stats_with_tail() {
    let mut b = [0u8; 57];
    b[0..4].copy_from_slice(&7u32.to_le_bytes());
    b[4] = 0x0f; // wide | HP | mana | endurance
    b[5..13].copy_from_slice(&10i64.to_le_bytes()); // hp cur
    b[13..21].copy_from_slice(&20i64.to_le_bytes()); // hp max
    b[21..29].copy_from_slice(&30i64.to_le_bytes()); // mana cur
    b[29..37].copy_from_slice(&40i64.to_le_bytes()); // mana max
    b[37..45].copy_from_slice(&50i64.to_le_bytes()); // end cur
    b[45..53].copy_from_slice(&60i64.to_le_bytes()); // end max
    let s = parse_stat_sync(&b).unwrap();
    assert!(s.has_hp && s.hp_cur == 10 && s.hp_max == 20);
    assert!(s.has_mana && s.mana_cur == 30 && s.mana_max == 40);
    assert!(s.has_end && s.end_cur == 50 && s.end_max == 60);
}

#[test]
fn stat_sync_keepalive_narrow_over_100_and_canary() {
    let mut ka = [0u8; 5];
    ka[4] = 0x31;
    let s = parse_stat_sync(&ka).unwrap();
    assert!(!s.has_hp && !s.has_mana && !s.has_end);
    let mut hot = [0u8; 6];
    hot[4] = 0x02;
    hot[5] = 200;
    assert!(!parse_stat_sync(&hot).unwrap().has_hp);
    let mut bad = [0u8; 8];
    bad[4] = 0x02; // narrow HP → expect 6 or 10 bytes, not 8
    assert!(parse_stat_sync(&bad).is_err());
    assert!(parse_stat_sync(&[0u8; 4]).is_err());
}

#[test]
fn stat_sync_errors_and_a_dropped_middle_stat() {
    assert_eq!(parse_stat_sync(&[0u8; 4]), Err(DecodeError::Short(4)));
    let mut bad = [0u8; 8];
    bad[4] = 0x02;
    assert_eq!(parse_stat_sync(&bad), Err(DecodeError::BadLength(8)));
    // Narrow HP, mana and endurance; mana out of range is dropped, the rest
    // still read at their own bytes.
    let b = [1, 0, 0, 0, 0x0e, 50, 150, 70];
    let s = parse_stat_sync(&b).unwrap();
    assert!(s.has_hp && s.hp_cur == 50);
    assert!(!s.has_mana && s.mana_cur == 0);
    assert!(s.has_end && s.end_cur == 70 && s.end_max == 100);
}

#[test]
fn buff_list_parses_records_and_permanents() {
    let mut b = Vec::new();
    b.extend_from_slice(&100u32.to_le_bytes()); // spawnId
    b.extend_from_slice(&0u32.to_le_bytes()); // @4
    b.push(1); // flag
    b.push(2); // count
    b.extend_from_slice(&[0u8; 5]); // pad
    b.extend_from_slice(&278u32.to_le_bytes());
    b.extend_from_slice(&1u32.to_le_bytes());
    b.extend_from_slice(&5i32.to_le_bytes());
    b.extend_from_slice(&0u32.to_le_bytes());
    b.push(0); // empty name
    b.extend_from_slice(&1u32.to_le_bytes()); // slot
    b.extend_from_slice(&515u32.to_le_bytes());
    b.extend_from_slice(&1u32.to_le_bytes());
    b.extend_from_slice(&(-1i32).to_le_bytes());
    b.extend_from_slice(&0u32.to_le_bytes());
    b.extend_from_slice(b"X\0");
    b.extend_from_slice(&7u16.to_le_bytes()); // final slot is u16

    let list = parse_buff_list(&b).unwrap();
    assert_eq!(list.spawn_id, 100);
    assert_eq!(list.entries.len(), 2);
    assert_eq!(
        list.entries[0],
        BuffListEntry {
            spell_id: 278,
            remaining_ticks: 5,
            slot: 1,
            caster: String::new()
        }
    );
    assert_eq!(
        list.entries[1],
        BuffListEntry {
            spell_id: 515,
            remaining_ticks: -1,
            slot: 7,
            caster: "X".into()
        }
    );
    assert!(parse_buff_list(&b[..b.len() - 1]).is_err());
    let mut extra = b.clone();
    extra.push(0xAA);
    assert!(parse_buff_list(&extra).is_err());
}

#[test]
fn buff_list_short_header_and_empty_list() {
    assert_eq!(parse_buff_list(&[0u8; 14]).err(), Some(DecodeError::Short(14)));
    let mut b = [0u8; 15];
    b[0] = 9;
    let l = parse_buff_list(&b).unwrap();
    assert_eq!(l.spawn_id, 9);
    assert!(l.entries.is_empty());
}

#[test]
fn stance_resolves_known_and_unknown() {
    let known = resolve_ability(&118u32.to_le_bytes(), AbilityKind::Stance);
    assert_eq!(known, Some("Defense".to_string()));
    let unknown = resolve_ability(&999u32.to_le_bytes(), AbilityKind::Stance);
    assert_eq!(unknown, Some("#999".to_string()));
}

#[test]
fn invocation_resolves() {
    let d = resolve_ability(&125u32.to_le_bytes(), AbilityKind::Invocation);
    assert_eq!(d, Some("Recover".to_string()));
}

#[test]
fn size_table_sizes_are_the_decoders_lengths() {
    let table = size_overrides();
    for (i, (a, sa)) in table.iter().enumerate() {
        assert!(*sa > 0);
        for (b, sb) in table.iter().skip(i + 1) {
            if a == b {
                assert_eq!(sa, sb, "{a}");
            }
        }
    }
    assert_eq!(table[0].0, "considerStruct");
    assert!(parse_consider(&vec![0u8; table[0].1 as usize]).is_ok());
    assert!(parse_consider(&vec![0u8; table[0].1 as usize + 1]).is_err());
    assert_eq!(table[33].0, "activateAbilityStruct");
    assert!(parse_activate_ability(&vec![0u8; table[33].1 as usize]).is_ok());
    assert!(parse_activate_ability(&vec![0u8; table[33].1 as usize - 1]).is_err());
}

#[test]
fn buff_list_must_end_exactly() {
    // One record: 16 fixed bytes, an empty caster, a u16 slot.
    let mut b = vec![0u8; 15];
    b[9] = 1;
    b.extend_from_slice(&[0u8; 16]);
    b.push(0);
    b.extend_from_slice(&3u16.to_le_bytes());
    assert!(parse_buff_list(&b).is_ok());
    let mut longer = b.clone();
    longer.extend_from_slice(&[1, 2, 3]);
    assert_eq!(
        parse_buff_list(&longer).err(),
        Some(DecodeError::BadLength(longer.len()))
    );
    for k in 1..=b.len() {
        assert!(parse_buff_list(&b[..b.len() - k]).is_err(), "cut {k}");
    }
}
