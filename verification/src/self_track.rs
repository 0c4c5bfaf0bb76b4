//! Cross-packet session identity: which spawn id is the local player.
//!
//! EQ Legends announces the local player's `OP_ZoneEntry` twice per zone: a
//! live copy that moves and a phantom twin a few ids higher. Movement is keyed
//! to the first id, profile/buff/stat data to the second, and the stat packet
//! carrying the real maxima can arrive before the twin's record resolves its
//! id. The tracker holds the id pair, a provisional id learned without a
//! zone-in, and the newest wide vitals of a plausible-but-unresolved twin.
use vstd::prelude::*;

use crate::stat_sync::StatSync;
use crate::text::str_eq;

verus! {

/// The live copy and its twin are issued in one batch, so their ids sit within
/// this many of each other.
pub const SAME_BATCH: u32 = 16;

/// What a self position report means when no zone-in was witnessed.
#[derive(Debug, Clone, Copy, PartialEq, Eq, Structural)]
pub enum SelfPosRouting {
    /// Nothing to do: no id, or the self is already resolved.
    Known,
    /// First provisional adoption of the id: the host must synthesise a record.
    Adopted,
}

/// What a self-named `OP_ZoneEntry` record means for the caller.
#[derive(Debug, Clone, Copy, PartialEq, Eq, Structural)]
pub enum SpawnRouting {
    /// Not the local player.
    NotSelf,
    /// The live, moving copy: adopted as the player's id.
    AdoptSelf,
    /// The phantom twin (or a re-announce of the adopted id).
    SelfTwin,
}

/// One stat-sync packet's verdict. The `has_*` flags are meaningful only when
/// `is_self` holds.
#[derive(Debug, Clone, Copy, PartialEq, Eq, Structural)]
pub struct SelfStat {
    pub is_self: bool,
    pub has_hp: bool,
    pub hp_cur: i64,
    pub hp_max: i64,
    pub has_mana: bool,
    pub mana_cur: i64,
    pub mana_max: i64,
    pub has_end: bool,
    pub end_cur: i64,
    pub end_max: i64,
}

/// The all-false verdict.
pub open spec fn no_stat() -> SelfStat {
    SelfStat {
        is_self: false,
        has_hp: false,
        hp_cur: 0,
        hp_max: 0,
        has_mana: false,
        mana_cur: 0,
        mana_max: 0,
        has_end: false,
        end_cur: 0,
        end_max: 0,
    }
}

/// The verdict carrying a stat-sync packet's vitals.
pub open spec fn stat_of(s: StatSync, is_self: bool) -> SelfStat {
    SelfStat {
        is_self,
        has_hp: s.has_hp,
        hp_cur: s.hp_cur,
        hp_max: s.hp_max,
        has_mana: s.has_mana,
        mana_cur: s.mana_cur,
        mana_max: s.mana_max,
        has_end: s.has_end,
        end_cur: s.end_cur,
        end_max: s.end_max,
    }
}

impl SelfStat {
    /// At least one stat is carried.
    pub open spec fn carries_any(self) -> bool {
        self.has_hp || self.has_mana || self.has_end
    }

    /// True when at least one stat is carried. A wide packet with no stat bits
    /// is the periodic keepalive and updates nothing.
    pub fn any(&self) -> (r: bool)
        ensures
            r == self.carries_any(),
    {
        self.has_hp || self.has_mana || self.has_end
    }

    fn from_stat_sync(s: &StatSync, is_self: bool) -> (r: SelfStat)
        ensures
            r == stat_of(*s, is_self),
    {
        SelfStat {
            is_self,
            has_hp: s.has_hp,
            hp_cur: s.hp_cur,
            hp_max: s.hp_max,
            has_mana: s.has_mana,
            mana_cur: s.mana_cur,
            mana_max: s.mana_max,
            has_end: s.has_end,
            end_cur: s.end_cur,
            end_max: s.end_max,
        }
    }
}

impl Default for SelfStat {
    fn default() -> (r: SelfStat)
        ensures
            r == no_stat(),
    {
        SelfStat {
            is_self: false,
            has_hp: false,
            hp_cur: 0,
            hp_max: 0,
            has_mana: false,
            mana_cur: 0,
            mana_max: 0,
            has_end: false,
            end_cur: 0,
            end_max: 0,
        }
    }
}

/// Distance between two ids.
pub open spec fn id_gap(a: u32, b: u32) -> int {
    if a >= b {
        a - b
    } else {
        b - a
    }
}

fn abs_diff(a: u32, b: u32) -> (r: u32)
    ensures
        r as int == id_gap(a, b),
{
    if a >= b {
        a - b
    } else {
        b - a
    }
}

/// The abstract state of a [`SelfTracker`].
pub struct SelfIdentity {
    /// The adopted (movement) id, or 0.
    pub self_id: u32,
    /// The phantom twin id that stats are keyed to, or 0.
    pub alt_id: u32,
    /// Newest wide vitals of a plausible, unresolved twin id.
    pub pending: Option<(u32, SelfStat)>,
    /// Id recovered without a zone-in, or 0.
    pub provisional_id: u32,
    /// A superseded provisional id awaiting drain, or 0.
    pub retired: u32,
    /// Whether the one-shot mid-session stat guess was spent.
    pub guessed: bool,
}

impl SelfIdentity {
    /// The state of a fresh tracker: nothing known.
    pub open spec fn initial() -> SelfIdentity {
        SelfIdentity {
            self_id: 0,
            alt_id: 0,
            pending: None,
            provisional_id: 0,
            retired: 0,
            guessed: false,
        }
    }

    /// Either id, or the provisional one, counts as the player; 0 never does.
    pub open spec fn counts_as_self(self, id: u32) -> bool {
        id != 0 && (id == self.self_id || id == self.alt_id || id == self.provisional_id)
    }

    /// Close enough to the adopted id to be its twin.
    pub open spec fn twin_candidate(self, id: u32) -> bool {
        self.self_id != 0 && id != 0 && id_gap(id, self.self_id) <= SAME_BATCH
    }

    /// Effect and answer of a self position report.
    pub open spec fn after_self_pos(self, spawn_id: u32) -> (SelfIdentity, SelfPosRouting) {
        if spawn_id == 0 {
            (self, SelfPosRouting::Known)
        } else if self.self_id != 0 {
            if spawn_id != self.self_id && self.twin_candidate(spawn_id) {
                (SelfIdentity { alt_id: spawn_id, ..self }, SelfPosRouting::Known)
            } else {
                (self, SelfPosRouting::Known)
            }
        } else if self.provisional_id == spawn_id {
            (self, SelfPosRouting::Known)
        } else {
            (
                SelfIdentity {
                    retired: if self.provisional_id != 0 {
                        self.provisional_id
                    } else {
                        self.retired
                    },
                    provisional_id: spawn_id,
                    ..self
                },
                SelfPosRouting::Adopted,
            )
        }
    }

    /// Effect and answer of a zone-entry record; `named` says that both names
    /// are non-empty and equal.
    pub open spec fn after_spawn(self, named: bool, spawn_id: u32) -> (SelfIdentity, SpawnRouting) {
        if spawn_id == 0 || !named {
            (self, SpawnRouting::NotSelf)
        } else if self.self_id == 0 || id_gap(spawn_id, self.self_id) > SAME_BATCH {
            (
                SelfIdentity {
                    self_id: spawn_id,
                    alt_id: 0,
                    retired: if self.provisional_id != 0 && self.provisional_id != spawn_id {
                        self.provisional_id
                    } else {
                        self.retired
                    },
                    provisional_id: 0,
                    pending: match self.pending {
                        Some((id, v)) => if id == spawn_id {
                            Some((id, v))
                        } else {
                            None
                        },
                        None => None,
                    },
                    ..self
                },
                SpawnRouting::AdoptSelf,
            )
        } else if spawn_id != self.self_id {
            (SelfIdentity { alt_id: spawn_id, ..self }, SpawnRouting::SelfTwin)
        } else {
            (self, SpawnRouting::SelfTwin)
        }
    }

    /// Whether a stat packet from a not-yet-known id may claim the player.
    pub open spec fn guess_qualifies(self, s: StatSync) -> bool {
        &&& self.self_id == 0
        &&& self.alt_id == 0
        &&& s.wide
        &&& (s.has_mana || s.has_end)
        &&& s.spawn_id != 0
        &&& if self.provisional_id != 0 {
            id_gap(s.spawn_id, self.provisional_id) <= SAME_BATCH
        } else {
            !self.guessed
        }
    }

    /// Effect and verdict of a decoded stat-sync packet.
    pub open spec fn after_stat_sync(self, s: StatSync) -> (SelfIdentity, SelfStat) {
        if self.counts_as_self(s.spawn_id) {
            (self, stat_of(s, true))
        } else if self.guess_qualifies(s) {
            (
                SelfIdentity {
                    alt_id: s.spawn_id,
                    guessed: if self.provisional_id == 0 {
                        true
                    } else {
                        self.guessed
                    },
                    ..self
                },
                stat_of(s, true),
            )
        } else if s.wide && self.twin_candidate(s.spawn_id) && stat_of(s, true).carries_any() {
            (SelfIdentity { pending: Some((s.spawn_id, stat_of(s, true))), ..self }, no_stat())
        } else {
            (self, no_stat())
        }
    }

    /// Effect and result of draining held vitals.
    pub open spec fn after_take_pending(self) -> (SelfIdentity, SelfStat) {
        match self.pending {
            Some((id, v)) => if self.counts_as_self(id) {
                (SelfIdentity { pending: None, ..self }, v)
            } else {
                (self, no_stat())
            },
            None => (self, no_stat()),
        }
    }

    /// Effect and result of draining a retired provisional id.
    pub open spec fn after_take_retired(self) -> (SelfIdentity, u32) {
        (SelfIdentity { retired: 0, ..self }, self.retired)
    }
}

/// Tracks the local player's id pair for one session, and holds vitals that
/// arrived before the id carrying them could be resolved.
#[derive(Debug, Clone)]
pub struct SelfTracker {
    self_id: u32,
    alt_id: u32,
    pending: Option<(u32, SelfStat)>,
    provisional_id: u32,
    retired: u32,
    guessed: bool,
}

impl View for SelfTracker {
    type V = SelfIdentity;

    closed spec fn view(&self) -> SelfIdentity {
        SelfIdentity {
            self_id: self.self_id,
            alt_id: self.alt_id,
            pending: self.pending,
            provisional_id: self.provisional_id,
            retired: self.retired,
            guessed: self.guessed,
        }
    }
}

impl Default for SelfTracker {
    fn default() -> (t: SelfTracker)
        ensures
            t@ == SelfIdentity::initial(),
    {
        SelfTracker::new()
    }
}

impl SelfTracker {
    /// A tracker that knows nothing yet.
    pub fn new() -> (t: SelfTracker)
        ensures
            t@ == SelfIdentity::initial(),
    {
        SelfTracker {
            self_id: 0,
            alt_id: 0,
            pending: None,
            provisional_id: 0,
            retired: 0,
            guessed: false,
        }
    }

    /// Forget the session's identity entirely.
    pub fn reset(&mut self)
        ensures
            final(self)@ == SelfIdentity::initial(),
    {
        *self = SelfTracker::new();
    }

    /// The adopted (movement) id, or 0 if not yet resolved.
    pub fn self_id(&self) -> (r: u32)
        ensures
            r == self@.self_id,
    {
        self.self_id
    }

    /// The phantom twin id that stats/profile/buffs are keyed to, or 0.
    pub fn alt_id(&self) -> (r: u32)
        ensures
            r == self@.alt_id,
    {
        self.alt_id
    }

    /// Either id counts as the player, as does a provisional id.
    pub fn is_self(&self, id: u32) -> (r: bool)
        ensures
            r == self@.counts_as_self(id),
    {
        id != 0 && (id == self.self_id || id == self.alt_id || id == self.provisional_id)
    }

    /// The id recovered without a zone-in, or 0.
    pub fn provisional_id(&self) -> (r: u32)
        ensures
            r == self@.provisional_id,
    {
        self.provisional_id
    }

    /// Observe the self id from the client's own position report.
    pub fn observe_self_pos(&mut self, spawn_id: u32) -> (r: SelfPosRouting)
        ensures
            (final(self)@, r) == old(self)@.after_self_pos(spawn_id),
    {
        if spawn_id == 0 {
            return SelfPosRouting::Known;
        }
        if self.self_id != 0 {
            if spawn_id != self.self_id && self.is_twin_candidate(spawn_id) {
                self.alt_id = spawn_id;
            }
            return SelfPosRouting::Known;
        }
        self.adopt_provisional(spawn_id)
    }

    fn adopt_provisional(&mut self, spawn_id: u32) -> (r: SelfPosRouting)
        requires
            spawn_id != 0,
            old(self).self_id == 0,
        ensures
            (final(self)@, r) == old(self)@.after_self_pos(spawn_id),
    {
        if self.provisional_id == spawn_id {
            return SelfPosRouting::Known;
        }
        if self.provisional_id != 0 {
            self.retired = self.provisional_id;
        }
        self.provisional_id = spawn_id;
        SelfPosRouting::Adopted
    }

    /// Drain a provisional id that has been superseded, or 0.
    pub fn take_retired_provisional(&mut self) -> (r: u32)
        ensures
            (final(self)@, r) == old(self)@.after_take_retired(),
    {
        let r = self.retired;
        self.retired = 0;
        r
    }

    fn is_twin_candidate(&self, id: u32) -> (r: bool)
        ensures
            r == self@.twin_candidate(id),
    {
        self.self_id != 0 && id != 0 && abs_diff(id, self.self_id) <= SAME_BATCH
    }

    /// Classify an `OP_ZoneEntry` record against the player's name.
    pub fn observe_spawn(&mut self, player_name: &str, spawn_name: &str, spawn_id: u32) -> (r:
        SpawnRouting)
        ensures
            (final(self)@, r) == old(self)@.after_spawn(
                player_name@.len() > 0 && spawn_name@.len() > 0 && player_name@ == spawn_name@,
                spawn_id,
            ),
    {
        if spawn_id == 0 || player_name.is_empty() || spawn_name.is_empty() || !str_eq(
            spawn_name,
            player_name,
        ) {
            return SpawnRouting::NotSelf;
        }
        if self.self_id == 0 || abs_diff(spawn_id, self.self_id) > SAME_BATCH {
            self.self_id = spawn_id;
            self.alt_id = 0;
            if self.provisional_id != 0 && self.provisional_id != spawn_id {
                self.retired = self.provisional_id;
            }
            self.provisional_id = 0;
            let keep = match self.pending {
                Some((id, _)) => id == spawn_id,
                None => false,
            };
            if !keep {
                self.pending = None;
            }
            return SpawnRouting::AdoptSelf;
        }
        if spawn_id != self.self_id {
            self.alt_id = spawn_id;
        }
        SpawnRouting::SelfTwin
    }

    /// Classify a decoded stat-sync packet, holding a plausible twin's vitals.
    pub fn observe_stat_sync(&mut self, s: &StatSync) -> (r: SelfStat)
        ensures
            (final(self)@, r) == old(self)@.after_stat_sync(*s),
    {
        if self.is_self(s.spawn_id) {
            return SelfStat::from_stat_sync(s, true);
        }
        let qualifies = if self.provisional_id != 0 {
            abs_diff(s.spawn_id, self.provisional_id) <= SAME_BATCH
        } else {
            !self.guessed
        };
        if self.self_id == 0 && self.alt_id == 0 && s.wide && (s.has_mana || s.has_end)
            && s.spawn_id != 0 && qualifies {
            self.alt_id = s.spawn_id;
            if self.provisional_id == 0 {
                self.guessed = true;
            }
            return SelfStat::from_stat_sync(s, true);
        }
        if s.wide && self.is_twin_candidate(s.spawn_id) {
            let v = SelfStat::from_stat_sync(s, true);
            if v.any() {
                self.pending = Some((s.spawn_id, v));
            }
        }
        SelfStat::default()
    }

    /// Drain vitals held for an id that has since been resolved as ours.
    pub fn take_pending_vitals(&mut self) -> (r: SelfStat)
        ensures
            (final(self)@, r) == old(self)@.after_take_pending(),
    {
        if let Some((id, v)) = self.pending {
            if self.is_self(id) {
                self.pending = None;
                return v;
            }
        }
        SelfStat::default()
    }
}


/// Id 0 never counts as the player, whatever the tracker knows.
pub proof fn law_zero_is_never_self(st: SelfIdentity)
    ensures
        !st.counts_as_self(0),
{
}

/// Draining held vitals is one-shot: a second drain right after yields nothing.
pub proof fn law_pending_vitals_drain_once(st: SelfIdentity)
    ensures
        st.after_take_pending().0.after_take_pending().1 == no_stat(),
{
}

/// Held vitals are only ever handed out for an id that counts as the player.
pub proof fn law_pending_vitals_only_for_self(st: SelfIdentity)
    ensures
        st.after_take_pending().1 != no_stat() ==> (st.pending matches Some((id, v)) && st.counts_as_self(id)
            && st.after_take_pending().1 == v),
{
}

/// A retired provisional id is handed back once.
pub proof fn law_retired_drains_once(st: SelfIdentity)
    ensures
        st.after_take_retired().0.after_take_retired().1 == 0,
{
}

/// A position report never re-homes a name-matched self id, nor touches a
/// provisional id once the player is named.
pub proof fn law_self_pos_never_outranks_a_named_self(st: SelfIdentity, spawn_id: u32)
    requires
        st.self_id != 0,
    ensures
        st.after_self_pos(spawn_id).0.self_id == st.self_id,
        st.after_self_pos(spawn_id).0.provisional_id == st.provisional_id,
        st.after_self_pos(spawn_id).1 == SelfPosRouting::Known,
{
}

/// A record whose names do not match, or that carries id 0, is not the player
/// and changes nothing.
pub proof fn law_unnamed_spawn_changes_nothing(st: SelfIdentity, named: bool, spawn_id: u32)
    requires
        !named || spawn_id == 0,
    ensures
        st.after_spawn(named, spawn_id) == (st, SpawnRouting::NotSelf),
{
}

/// After a name match the record's id counts as the player.
pub proof fn law_name_match_makes_self(st: SelfIdentity, spawn_id: u32)
    requires
        spawn_id != 0,
    ensures
        st.after_spawn(true, spawn_id).0.counts_as_self(spawn_id),
        st.after_spawn(true, spawn_id).1 != SpawnRouting::NotSelf,
{
}

/// Stat packets never move the adopted, provisional or retired ids.
pub proof fn law_stat_sync_keeps_ids(st: SelfIdentity, s: StatSync)
    ensures
        st.after_stat_sync(s).0.self_id == st.self_id,
        st.after_stat_sync(s).0.provisional_id == st.provisional_id,
        st.after_stat_sync(s).0.retired == st.retired,
{
}

/// A packet for an id already known to be the player is passed through as
/// ours, unchanged, and leaves the tracker as it was.
pub proof fn law_known_self_stats_pass_through(st: SelfIdentity, s: StatSync)
    requires
        st.counts_as_self(s.spawn_id),
    ensures
        st.after_stat_sync(s) == (st, stat_of(s, true)),
{
}

/// Once a twin id is known, no stat packet re-claims it for another id.
pub proof fn law_twin_id_is_not_reclaimed(st: SelfIdentity, s: StatSync)
    requires
        st.alt_id != 0,
    ensures
        st.after_stat_sync(s).0.alt_id == st.alt_id,
{
}

/// A keepalive (no stat bits) never overwrites held vitals.
pub proof fn law_keepalive_keeps_held_vitals(st: SelfIdentity, s: StatSync)
    requires
        !stat_of(s, true).carries_any(),
    ensures
        st.after_stat_sync(s).0.pending == st.pending,
{
}

/// Vitals that arrive for the twin before its record are held, and handed
/// back once that record resolves the id.
pub proof fn law_early_twin_vitals_are_replayed(st: SelfIdentity, s: StatSync)
    requires
        st.self_id != 0,
        !st.counts_as_self(s.spawn_id),
        s.wide,
        st.twin_candidate(s.spawn_id),
        stat_of(s, true).carries_any(),
    ensures
        st.after_stat_sync(s).1 == no_stat(),
        ({
            let held = st.after_stat_sync(s).0;
            let named = held.after_spawn(true, s.spawn_id);
            &&& named.1 == SpawnRouting::SelfTwin
            &&& named.0.after_take_pending().1 == stat_of(s, true)
        }),
{
}

} // verus!
