use seq_backend_eql::loot_track::{
    normalize_mob, parse_loot_line, parse_money_to_copper, split_zone_instance, LootSource,
    LootTracker, WindowItem, LOOT_COLOR,
};
const SOLD_2G: &str =
    "You looted a Bronze Dagger +1 from a goblin diviner's corpse and sold it for 2 gold.";
const SOLD_MIXED: &str = "You looted a Cloth Veil +1 from a goblin diviner's corpse and sold it for 1 gold, 1 silver and 4 copper.";
const DEPOT: &str = "You looted 2 Bone Chips from a decaying skeleton's corpse and stored it in your tradeskill depot";
const HOARD: &str =
    "You looted a Diamond Dust from an ice giant's corpse and stored it in your Dragon Hoard";
const CREATED: &str = "You looted a Throwing Boulder from an ice giant diplomat's corpse to create a Throwing Boulder +8";
const DROPPED: &str =
    "You looted a Rusty Sword from a goblin's corpse and dropped it on the ground.";
const DESTROYED: &str = "You looted a Rusty Mace from an orc's corpse and destroyed it.";
const KEPT: &str = "--You have looted a Dragon Bone Bracelet from Lady Vox's corpse.--";
const KEPT_QTY: &str = "--You have looted 2 Bone Chips from a cracked skeleton's corpse.--";

#[test]
fn parses_a_sale() {
    let p = parse_loot_line(SOLD_2G).unwrap();
    assert_eq!(p.item, "Bronze Dagger +1");
    assert_eq!(p.mob, "a goblin diviner");
    assert_eq!(p.qty, 1);
    assert!(p.sold);
    assert_eq!(p.disposition, "sold");
    assert_eq!(p.money_copper, 200);
}

#[test]
fn parses_a_mixed_denomination_sale() {
    let p = parse_loot_line(SOLD_MIXED).unwrap();
    assert_eq!(p.money_copper, 114);
    assert_eq!(p.item, "Cloth Veil +1");
}

#[test]
fn parses_every_disposition() {
    for (line, item, disp, qty) in [
        (DEPOT, "Bone Chips", "tradeskill depot", 2),
        (HOARD, "Diamond Dust", "Dragon Hoard", 1),
        (CREATED, "Throwing Boulder", "created", 1),
        (DROPPED, "Rusty Sword", "dropped", 1),
        (DESTROYED, "Rusty Mace", "destroyed", 1),
        (KEPT, "Dragon Bone Bracelet", "inventory", 1),
        (KEPT_QTY, "Bone Chips", "inventory", 2),
    ] {
        let p = parse_loot_line(line).unwrap_or_else(|| panic!("no match: {line}"));
        assert_eq!(p.item, item, "{line}");
        assert_eq!(p.disposition, disp, "{line}");
        assert_eq!(p.qty, qty, "{line}");
        assert_eq!(p.money_copper, 0, "{line}");
    }
}

#[test]
fn mob_keeps_its_article_but_norm_does_not() {
    let p = parse_loot_line(HOARD).unwrap();
    assert_eq!(p.mob, "an ice giant");
    assert_eq!(normalize_mob(&p.mob), "ice giant");
    assert_eq!(normalize_mob("Lady Vox"), "lady vox");
    assert_eq!(
        normalize_mob("a decaying skeleton's corpse"),
        "decaying skeleton"
    );
}

#[test]
fn ignores_other_colour_286_lines() {
    assert!(parse_loot_line("You receive no loot from that corpse.").is_none());
    assert!(parse_loot_line("You cannot see your target.").is_none());
    assert!(parse_loot_line("").is_none());
}

#[test]
fn money_parsing_is_order_and_comma_tolerant() {
    assert_eq!(
        parse_money_to_copper("2 platinum, 8 gold, 8 silver and 1 copper"),
        2881
    );
    assert_eq!(parse_money_to_copper("7 silver and 1 copper"), 71);
    assert_eq!(parse_money_to_copper("2 gold"), 200);
    assert_eq!(parse_money_to_copper("nothing at all"), 0);
}

#[test]
fn money_groups_sum_in_any_order() {
    let forward = parse_money_to_copper("2 platinum, 8 gold, 8 silver and 1 copper");
    let backward = parse_money_to_copper("1 copper, 8 silver, 8 gold and 2 platinum");
    assert_eq!(forward, backward);
    assert_eq!(parse_money_to_copper("1 copper and 7 silver"), 71);
    assert_eq!(parse_money_to_copper("4294967295 platinum and 5 copper"), u32::MAX);
}

#[test]
fn splits_the_instance_suffix() {
    assert_eq!(
        split_zone_instance("permafrost_eqlraidgroup"),
        ("permafrost".to_string(), "eqlraidgroup".to_string())
    );
    assert_eq!(
        split_zone_instance("greatdivide"),
        ("greatdivide".to_string(), String::new())
    );
}

fn tracker_in_zone() -> LootTracker {
    let mut t = LootTracker::new();
    t.set_zone("permafrost_multi");
    t
}

#[test]
fn pairs_a_narration_with_its_confirmation() {
    let mut t = tracker_in_zone();
    assert!(t
        .on_loot_message(LOOT_COLOR, SOLD_2G, 7012, "Bronze Dagger +1", 100)
        .is_empty());
    let rows = t.on_loot_transaction(18632, 0, 1, 200, false, 238, 101);
    assert_eq!(rows.len(), 1);
    let r = &rows[0];
    assert_eq!(r.item_name, "Bronze Dagger +1");
    assert_eq!(r.item_id, 7012); // from the link, not the confirmation
    assert_eq!(r.corpse_id, 18632);
    assert_eq!(r.money_copper, 200);
    assert_eq!(r.sequence, 238);
    assert!(r.complete);
    assert_eq!(r.zone_base, "permafrost");
    assert_eq!(r.instance, "multi");
    assert!(r.sold);
}

#[test]
fn a_corpse_pile_does_not_consume_a_pending_narration() {
    // The pile arrives at window-open, ahead of the item lines.
    let mut t = tracker_in_zone();
    t.on_loot_message(LOOT_COLOR, SOLD_2G, 7012, "Bronze Dagger +1", 100);
    let coin = t.on_loot_transaction(18632, 0, 0, 2881, true, 0, 101);
    assert_eq!(coin.len(), 1);
    assert_eq!(coin[0].source, LootSource::Coin);
    assert_eq!(coin[0].money_copper, 2881);
    // The narration is still pending and still pairs correctly.
    let rows = t.on_loot_transaction(18632, 0, 1, 200, false, 238, 102);
    assert_eq!(rows.len(), 1);
    assert_eq!(rows[0].money_copper, 200);
}

#[test]
fn a_coinless_pile_records_nothing() {
    let mut t = tracker_in_zone();
    assert!(t.on_loot_transaction(1, 0, 0, 0, true, 0, 100).is_empty());
}

#[test]
fn an_orphan_confirmation_is_incomplete_at_the_boundary() {
    let mut t = tracker_in_zone();
    assert!(t
        .on_loot_transaction(1, 2, 1, 500, false, 9, 100)
        .is_empty());
    let rows = t.flush();
    assert_eq!(rows.len(), 1);
    assert_eq!(rows[0].item_id, 2);
    assert_eq!(rows[0].corpse_id, 1);
    assert_eq!(rows[0].sequence, 9);
    assert!(!rows[0].complete);
}

#[test]
fn multiple_narrations_wait_and_flush_in_capture_order() {
    let mut t = tracker_in_zone();
    t.on_loot_message(LOOT_COLOR, KEPT, 0, "", 100);
    assert!(t.on_loot_message(LOOT_COLOR, HOARD, 0, "", 101).is_empty());
    let flushed = t.flush();
    assert_eq!(flushed.len(), 2);
    assert_eq!(flushed[0].item_name, "Dragon Bone Bracelet");
    assert_eq!(flushed[1].item_name, "Diamond Dust");
    assert!(flushed.iter().all(|row| !row.complete));
}

#[test]
fn confirmation_before_narration_pairs_by_item_id() {
    let mut t = tracker_in_zone();
    assert!(t
        .on_loot_transaction(18_632, 7012, 1, 200, false, 238, 99)
        .is_empty());
    let rows = t.on_loot_message(LOOT_COLOR, SOLD_2G, 7012, "Bronze Dagger +1", 100);
    assert_eq!(rows.len(), 1);
    assert_eq!(rows[0].corpse_id, 18_632);
    assert_eq!(rows[0].sequence, 238);
    assert_eq!(rows[0].ts, 100);
    assert!(rows[0].complete);
}

#[test]
fn known_item_ids_do_not_cross_pair_when_interleaved() {
    let mut t = tracker_in_zone();
    t.on_loot_transaction(1, 7012, 1, 200, false, 1, 90);
    t.on_loot_transaction(2, 16884, 1, 0, false, 2, 91);

    let diamond = t.on_loot_message(LOOT_COLOR, HOARD, 16884, "Diamond Dust", 100);
    assert_eq!(diamond[0].corpse_id, 2);
    let dagger = t.on_loot_message(LOOT_COLOR, SOLD_2G, 7012, "Bronze Dagger +1", 101);
    assert_eq!(dagger[0].corpse_id, 1);
}

#[test]
fn duplicate_messages_confirmations_and_windows_emit_once() {
    let mut t = tracker_in_zone();
    t.on_loot_message(LOOT_COLOR, SOLD_2G, 7012, "Bronze Dagger +1", 100);
    assert!(t
        .on_loot_message(LOOT_COLOR, SOLD_2G, 7012, "Bronze Dagger +1", 100)
        .is_empty());
    assert_eq!(
        t.on_loot_transaction(18_632, 7012, 1, 200, false, 238, 101)
            .len(),
        1
    );
    assert!(t
        .on_loot_transaction(18_632, 7012, 1, 200, false, 238, 102)
        .is_empty());
    assert_eq!(
        t.on_loot_drop_item(18_632, "a goblin", "Rusty Sword", 1, 2, 103)
            .len(),
        1
    );
    assert!(t
        .on_loot_drop_item(18_632, "a goblin", "Rusty Sword", 1, 2, 104)
        .is_empty());
}

#[test]
fn reset_discards_all_pairing_and_duplicate_state() {
    let mut t = tracker_in_zone();
    t.on_loot_transaction(18_632, 7012, 1, 200, false, 238, 99);
    t.on_loot_drop_item(18_632, "a goblin", "Rusty Sword", 1, 2, 100);
    t.reset();

    assert!(t
        .on_loot_message(LOOT_COLOR, SOLD_2G, 7012, "Bronze Dagger +1", 101)
        .is_empty());
    assert_eq!(t.flush().len(), 1, "pre-reset confirmation cannot pair");
    assert_eq!(
        t.on_loot_drop_item(18_632, "a goblin", "Rusty Sword", 1, 2, 102)
            .len(),
        1,
        "window duplicate state must not survive"
    );
}

#[test]
fn window_rows_dedup_per_corpse_and_teach_item_ids() {
    let mut t = tracker_in_zone();
    let row = t.on_loot_drop_item(11613, "an ice giant", "Diamond Dust", 1075, 16884, 100);
    assert_eq!(row.len(), 1);
    assert_eq!(row[0].source, LootSource::Window);
    assert_eq!(row[0].icon, 1075);
    // Reopening the same corpse re-sends the list.
    assert!(t
        .on_loot_drop_item(11613, "an ice giant", "Diamond Dust", 1075, 16884, 101)
        .is_empty());
    // A different corpse with the same item is a distinct row.
    assert_eq!(
        t.on_loot_drop_item(11614, "an ice giant", "Diamond Dust", 1075, 16884, 102)
            .len(),
        1
    );
    // A narration with no link picks the id up from the window.
    t.on_loot_message(LOOT_COLOR, HOARD, 0, "", 103);
    assert_eq!(t.flush()[0].item_id, 16884);
}

#[test]
fn zone_change_flushes_with_the_old_zone() {
    let mut t = tracker_in_zone();
    t.on_loot_message(LOOT_COLOR, KEPT, 0, "", 100);
    t.on_loot_drop_item(1, "a goblin", "Rusty Sword", 2, 3, 100);
    t.on_loot_transaction(1, 4, 1, 0, false, 42, 100);
    t.on_loot_message(LOOT_COLOR, HOARD, 0, "", 101);
    let rows = t.set_zone("greatdivide");
    assert_eq!(rows.len(), 1);
    assert!(rows.iter().all(|row| row.zone_base == "permafrost"));
    assert_eq!(
        t.on_loot_drop_item(1, "a goblin", "Rusty Sword", 2, 3, 101)
            .len(),
        1,
        "window state must not cross zones"
    );
    assert!(t.on_loot_transaction(1, 4, 1, 0, false, 42, 102).is_empty());
    assert_eq!(t.flush().len(), 1, "sequence state must not cross zones");
}

#[test]
fn non_loot_colours_are_ignored() {
    let mut t = tracker_in_zone();
    assert!(t.on_loot_message(2, SOLD_2G, 0, "", 100).is_empty());
    assert!(t.flush().is_empty());
}

#[test]
fn loot_source_names() {
    assert_eq!(LootSource::Message.as_str(), "message");
    assert_eq!(LootSource::Window.as_str(), "window");
    assert_eq!(LootSource::Coin.as_str(), "coin");
}

#[test]
fn a_replayed_narration_is_dropped_but_a_later_one_is_kept() {
    let mut t = tracker_in_zone();
    t.on_loot_message(LOOT_COLOR, KEPT, 0, "", 100);
    t.on_loot_message(LOOT_COLOR, KEPT, 0, "", 100);
    t.on_loot_message(LOOT_COLOR, KEPT, 0, "", 105);
    assert_eq!(t.flush().len(), 2);
}

#[test]
fn flush_sorts_by_capture_time_and_empties() {
    let mut t = tracker_in_zone();
    t.on_loot_message(LOOT_COLOR, HOARD, 0, "", 300);
    t.on_loot_transaction(1, 2, 3, 0, false, 0, 100);
    t.on_loot_message(LOOT_COLOR, KEPT_QTY, 0, "", 200);
    let rows = t.flush();
    // The narration with no id pairs FIFO with the id-less confirmation.
    let times: Vec<i64> = rows.iter().map(|r| r.ts).collect();
    assert!(times.windows(2).all(|w| w[0] <= w[1]));
    assert!(t.flush().is_empty());
}

#[test]
fn an_orphan_sale_is_flushed_as_sold() {
    let mut t = tracker_in_zone();
    t.on_loot_transaction(5, 0, 0, 750, false, 11, 100);
    let rows = t.flush();
    assert_eq!(rows.len(), 1);
    assert!(rows[0].sold);
    assert_eq!(rows[0].disposition, "sold");
    assert_eq!(rows[0].qty, 1);
    assert_eq!(rows[0].money_copper, 750);
}

#[test]
fn zone_and_looter_are_stamped_on_rows() {
    let mut t = LootTracker::new();
    t.set_looter("Me");
    t.set_zone("permafrost_eqlraidgroup");
    assert_eq!(t.zone(), "permafrost_eqlraidgroup");
    let rows = t.on_loot_drop_item(1, "a goblin's corpse", "Rusty Sword", 2, 3, 100);
    assert_eq!(rows[0].looter, "Me");
    assert_eq!(rows[0].zone_base, "permafrost");
    assert_eq!(rows[0].instance, "eqlraidgroup");
    assert_eq!(rows[0].mob_norm, "goblin");
    t.reset();
    assert_eq!(t.zone(), "");
    let rows = t.on_loot_drop_item(1, "a goblin", "Rusty Sword", 2, 3, 101);
    assert_eq!(rows[0].looter, "Me", "reset keeps the looter");
}

#[test]
fn window_snapshots_are_reported_once_each() {
    let mut t = tracker_in_zone();
    let items = vec![
        WindowItem { item_id: 1, icon: 2, name: "Rusty Sword".to_string() },
        WindowItem { item_id: 3, icon: 4, name: "Bone Chips".to_string() },
    ];
    assert!(t.observe_window_snapshot(9, "a goblin", &items));
    assert!(!t.observe_window_snapshot(9, "a goblin", &items));
    let reordered = vec![items[1].clone(), items[0].clone()];
    assert!(t.observe_window_snapshot(9, "a goblin", &reordered));
}

#[test]
fn money_words_need_a_count() {
    assert_eq!(parse_money_to_copper("gold 5 platinum"), 5000);
    assert_eq!(parse_money_to_copper("3 bananas 2 copper"), 2);
    assert_eq!(parse_money_to_copper(""), 0);
}

#[test]
fn flush_keeps_same_time_rows_in_arrival_order() {
    let mut t = tracker_in_zone();
    t.on_loot_message(LOOT_COLOR, KEPT, 5000, "Dragon Bone Bracelet", 100);
    t.on_loot_transaction(1, 6000, 1, 0, false, 10, 100);
    t.on_loot_transaction(1, 7000, 1, 0, false, 11, 100);
    let rows = t.flush();
    let ids: Vec<u32> = rows.iter().map(|r| r.item_id).collect();
    assert_eq!(ids, vec![5000, 6000, 7000]);
    assert_eq!(rows[0].mob_name, "Lady Vox");
}

#[test]
fn zone_split_rebuilds_the_name() {
    for zone in ["permafrost_eqlraidgroup", "crushbone_multi", "befallen_solo"] {
        let (base, inst) = split_zone_instance(zone);
        assert_eq!(format!("{base}_{inst}"), zone);
    }
    let (base, inst) = split_zone_instance("befallen_solo_x");
    assert_eq!((base.as_str(), inst.as_str()), ("befallen_solo_x", ""));
}

#[test]
fn loot_lines_have_their_shape() {
    let p = parse_loot_line(KEPT).unwrap();
    assert_eq!(p.disposition, "inventory");
    assert_eq!(p.money_copper, 0);
    let s = parse_loot_line(SOLD_2G).unwrap();
    assert!(s.sold);
    assert_eq!(s.disposition, "sold");
    assert!(parse_loot_line("--You looted a Rusty Mace from an orc's corpse.").is_none());
}
