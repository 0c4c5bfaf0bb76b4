use seq_backend_eql::self_track::{SelfPosRouting, SelfTracker, SpawnRouting};
use seq_backend_eql::stat_sync::StatSync;

const ME: &str = "Testchar";

fn wide(spawn_id: u32, hp: (i64, i64), mana: (i64, i64), end: (i64, i64)) -> StatSync {
    StatSync {
        spawn_id,
        wide: true,
        has_hp: true,
        hp_cur: hp.0,
        hp_max: hp.1,
        has_mana: true,
        mana_cur: mana.0,
        mana_max: mana.1,
        has_end: true,
        end_cur: end.0,
        end_max: end.1,
    }
}

fn keepalive(spawn_id: u32) -> StatSync {
    StatSync {
        spawn_id,
        wide: true,
        ..StatSync::default()
    }
}

#[test]
fn adopts_the_first_self_record_and_twins_the_second() {
    let mut t = SelfTracker::new();
    assert_eq!(t.observe_spawn(ME, ME, 5893), SpawnRouting::AdoptSelf);
    assert_eq!(t.self_id(), 5893);
    assert_eq!(t.observe_spawn(ME, ME, 5906), SpawnRouting::SelfTwin);
    assert_eq!(
        t.self_id(),
        5893,
        "movement id must not be re-homed by the twin"
    );
    assert_eq!(t.alt_id(), 5906);
    assert!(t.is_self(5893) && t.is_self(5906));
}

#[test]
fn other_spawns_are_not_self() {
    let mut t = SelfTracker::new();
    t.observe_spawn(ME, ME, 5893);
    assert_eq!(
        t.observe_spawn(ME, "Someoneelse", 5901),
        SpawnRouting::NotSelf
    );
    assert!(!t.is_self(5901));
}

#[test]
fn a_distant_id_re_homes_rather_than_twinning() {
    let mut t = SelfTracker::new();
    t.observe_spawn(ME, ME, 5893);
    t.observe_spawn(ME, ME, 5906);
    // Next zone: ids jump far away.
    assert_eq!(t.observe_spawn(ME, ME, 12636), SpawnRouting::AdoptSelf);
    assert_eq!(t.self_id(), 12636);
    assert_eq!(t.alt_id(), 0, "the previous zone's twin must not linger");
    assert!(!t.is_self(5906));
}

#[test]
fn stats_on_the_twin_id_are_ours() {
    let mut t = SelfTracker::new();
    t.observe_spawn(ME, ME, 5893);
    t.observe_spawn(ME, ME, 5906);
    let got = t.observe_stat_sync(&wide(5906, (4023, 4265), (1780, 4170), (1138, 2976)));
    assert!(got.is_self);
    assert_eq!((got.hp_max, got.mana_max, got.end_max), (4265, 4170, 2976));
}

/// The regression this module exists for: the only packet carrying the
/// player's maxima arrives BEFORE the phantom record that identifies its
/// id. Matching on the resolved ids alone loses it permanently.
#[test]
fn vitals_arriving_before_the_twin_record_are_replayed() {
    let mut t = SelfTracker::new();
    assert_eq!(t.observe_spawn(ME, ME, 5893), SpawnRouting::AdoptSelf);

    // Stats land first, keyed to an id nothing has claimed yet.
    let early = t.observe_stat_sync(&wide(5906, (4023, 4265), (1780, 4170), (1138, 2976)));
    assert!(!early.is_self, "cannot be attributed yet");

    // Every later packet for that id is a stat-less keepalive.
    assert!(!t.observe_stat_sync(&keepalive(5906)).any());

    // The phantom's record finally lands.
    assert_eq!(t.observe_spawn(ME, ME, 5906), SpawnRouting::SelfTwin);

    let held = t.take_pending_vitals();
    assert!(held.is_self && held.any());
    assert_eq!((held.hp_cur, held.hp_max), (4023, 4265));
    assert_eq!((held.mana_cur, held.mana_max), (1780, 4170));
    assert_eq!((held.end_cur, held.end_max), (1138, 2976));

    // Draining is one-shot.
    assert!(!t.take_pending_vitals().any());
}

#[test]
fn held_vitals_are_not_applied_to_an_unrelated_id() {
    let mut t = SelfTracker::new();
    t.observe_spawn(ME, ME, 5893);
    t.observe_stat_sync(&wide(5906, (10, 20), (30, 40), (50, 60)));
    // A neighbour resolves, but it is not us and not our twin.
    assert_eq!(
        t.observe_spawn(ME, "Neighbour", 5901),
        SpawnRouting::NotSelf
    );
    assert!(!t.take_pending_vitals().any());
}

#[test]
fn distant_ids_are_never_held() {
    let mut t = SelfTracker::new();
    t.observe_spawn(ME, ME, 5893);
    // Well outside the batch window — a real unrelated spawn.
    t.observe_stat_sync(&wide(1002, (540, 668), (381, 410), (524, 524)));
    t.observe_spawn(ME, ME, 5906);
    assert!(!t.take_pending_vitals().any());
}

#[test]
fn keepalives_never_overwrite_held_vitals() {
    let mut t = SelfTracker::new();
    t.observe_spawn(ME, ME, 5893);
    t.observe_stat_sync(&wide(5906, (4023, 4265), (1780, 4170), (1138, 2976)));
    t.observe_stat_sync(&keepalive(5906));
    t.observe_spawn(ME, ME, 5906);
    assert_eq!(t.take_pending_vitals().hp_max, 4265);
}

#[test]
fn reset_clears_everything() {
    let mut t = SelfTracker::new();
    t.observe_spawn(ME, ME, 5893);
    t.observe_stat_sync(&wide(5906, (1, 2), (3, 4), (5, 6)));
    t.reset();
    assert_eq!(t.self_id(), 0);
    assert_eq!(t.alt_id(), 0);
    assert!(!t.is_self(5893));
    t.observe_spawn(ME, ME, 5906);
    assert!(
        !t.take_pending_vitals().any(),
        "pre-reset vitals must not survive"
    );
}

#[test]
fn nothing_matches_before_the_profile_names_us() {
    let mut t = SelfTracker::new();
    assert_eq!(t.observe_spawn("", ME, 5893), SpawnRouting::NotSelf);
    assert_eq!(
        t.self_id(),
        0,
        "a name match is the only thing that sets self_id"
    );
}

// ── mid-session attach ────────────────────────────────────────────────
// No profile and no zone-in burst were witnessed, so observe_spawn can
// never fire: these are the two signals that still identify the player.

#[test]
fn self_pos_adopts_provisionally_when_no_zone_in_was_seen() {
    let mut t = SelfTracker::new();
    assert_eq!(t.observe_self_pos(15707), SelfPosRouting::Adopted);
    assert_eq!(t.provisional_id(), 15707);
    assert!(t.is_self(15707));
    assert_eq!(t.self_id(), 0, "provisional is not a real adoption");
    // Every later report is the same id — the host already has its record.
    assert_eq!(t.observe_self_pos(15707), SelfPosRouting::Known);
}

#[test]
fn wide_mana_identifies_us_while_standing_still() {
    let mut t = SelfTracker::new();
    // Mana/endurance ride this channel for the player only. No coordinates,
    // so it resolves the id for attribution without becoming drawable.
    let v = t.observe_stat_sync(&wide(5906, (4023, 4265), (1780, 4170), (1138, 2976)));
    assert!(v.is_self);
    assert_eq!(v.mana_max, 4170);
    assert!(t.is_self(5906));
    assert_eq!(
        t.provisional_id(),
        0,
        "no coordinates — nothing to synthesise"
    );
}

// The two mid-session signals carry different ids (pos = one record, stats
// = its twin). Sharing one slot made each overwrite the other, so every
// position report re-adopted and the host re-synthesised on a loop.
#[test]
fn the_two_signals_do_not_fight_over_the_id() {
    let mut t = SelfTracker::new();
    assert_eq!(t.observe_self_pos(11715), SelfPosRouting::Adopted);

    for _ in 0..5 {
        t.observe_stat_sync(&wide(11719, (100, 200), (50, 60), (10, 20)));
        assert_eq!(
            t.observe_self_pos(11715),
            SelfPosRouting::Known,
            "adopt once"
        );
    }

    assert_eq!(t.provisional_id(), 11715);
    assert!(t.is_self(11719), "the twin still attributes stats");
    assert_eq!(t.take_retired_provisional(), 0, "nothing was superseded");
}

// The mid-session guess latches once. Before this, every neighbouring PC
// reporting mana/endurance re-claimed the player's identity and overwrote
// their maxima — 12 ids claiming a 3-id answer on a real 3-zone capture.
#[test]
fn the_mid_session_guess_latches_only_once() {
    let mut t = SelfTracker::new();

    let first = t.observe_stat_sync(&wide(5906, (4023, 4265), (1780, 4170), (1138, 2976)));
    assert!(first.is_self);
    assert_eq!(first.mana_max, 4170);

    // A different spawn reporting the same shape is NOT us.
    let other = t.observe_stat_sync(&wide(8412, (1, 2), (3, 9999), (5, 6)));
    assert!(!other.is_self, "a second id must not re-claim the player");
    assert!(!t.is_self(8412));

    // The latched id keeps attributing.
    assert!(
        t.observe_stat_sync(&wide(5906, (10, 4265), (20, 4170), (30, 2976)))
            .is_self
    );
    assert!(t.is_self(5906));
}

// With a provisional id in hand the stats id must be its twin. A far-off id
// is another spawn, however player-shaped its packet looks.
#[test]
fn a_distant_id_cannot_claim_us_once_the_position_report_named_one() {
    let mut t = SelfTracker::new();
    assert_eq!(t.observe_self_pos(27695), SelfPosRouting::Adopted);

    let far = t.observe_stat_sync(&wide(27607, (1, 2), (3, 4), (5, 6)));
    assert!(!far.is_self, "88 ids away — not our twin");
    assert!(!t.is_self(27607));

    let twin = t.observe_stat_sync(&wide(27699, (7, 8), (9, 10), (11, 12)));
    assert!(twin.is_self, "4 ids away — the twin");
    assert!(t.is_self(27699));
}

// The guess is only a guess: a name match replaces it wholesale.
#[test]
fn a_name_match_supersedes_a_wrongly_latched_guess() {
    let mut t = SelfTracker::new();
    assert!(
        t.observe_stat_sync(&wide(9000, (1, 2), (3, 4), (5, 6)))
            .is_self
    );
    assert!(t.is_self(9000));

    assert_eq!(t.observe_spawn(ME, ME, 4307), SpawnRouting::AdoptSelf);
    assert!(!t.is_self(9000), "the guess is dropped once we are named");
    assert!(t.is_self(4307));
}

#[test]
fn hp_only_wide_packets_are_not_us() {
    let mut t = SelfTracker::new();
    let mut s = wide(1234, (500, 500), (0, 0), (0, 0));
    s.has_mana = false;
    s.has_end = false;
    assert!(!t.observe_stat_sync(&s).is_self, "HP alone is any mob");
    assert_eq!(t.provisional_id(), 0);
}

#[test]
fn a_name_match_supersedes_the_provisional_and_hands_it_back() {
    let mut t = SelfTracker::new();
    t.observe_self_pos(15707); // the twin, guessed mid-session
    assert_eq!(t.observe_spawn(ME, ME, 15701), SpawnRouting::AdoptSelf);
    assert_eq!(t.self_id(), 15701, "the live copy wins");
    assert_eq!(t.provisional_id(), 0);
    assert_eq!(
        t.take_retired_provisional(),
        15707,
        "host must drop what it synthesised"
    );
    assert_eq!(t.take_retired_provisional(), 0, "drained once");
}

#[test]
fn self_pos_never_outranks_a_name_matched_self() {
    let mut t = SelfTracker::new();
    t.observe_spawn(ME, ME, 15701);
    assert_eq!(t.observe_self_pos(15707), SelfPosRouting::Known);
    assert_eq!(t.self_id(), 15701, "still pinned to the live copy");
    assert_eq!(
        t.alt_id(),
        15707,
        "but the field told us which id is the twin"
    );
    assert_eq!(t.provisional_id(), 0);
}

#[test]
fn zoning_while_still_provisional_retires_the_previous_id() {
    let mut t = SelfTracker::new();
    assert_eq!(t.observe_self_pos(15707), SelfPosRouting::Adopted);
    assert_eq!(t.observe_self_pos(20311), SelfPosRouting::Adopted);
    assert_eq!(t.take_retired_provisional(), 15707);
    assert_eq!(t.provisional_id(), 20311);
}

#[test]
fn reset_clears_the_provisional_state_too() {
    let mut t = SelfTracker::new();
    t.observe_self_pos(15707);
    t.reset();
    assert_eq!(t.provisional_id(), 0);
    assert_eq!(t.take_retired_provisional(), 0);
    assert!(!t.is_self(15707));
}
