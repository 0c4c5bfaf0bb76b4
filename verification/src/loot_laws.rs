//! What the loot tracker keeps across calls: replays are idempotent, a flush
//! hands back every unmatched half sorted by time, pairing never crosses two
//! known item ids, the rows a boundary emits carry the zone they were
//! looted in, and money text sums its coin groups in any order.
use vstd::prelude::*;

use crate::loot_track::{
    confirmation_match, confirmed, first_conf_with, first_msg_with, insert_by_ts, message_match,
    sort_by_ts, LootState, PendingConfirmation, Row, LOOT_COLOR,
};
use crate::loot_track::{
    clamp_u32, coin_value, corpse_mark, loot_line, money_copper, money_fold, money_pieces,
    money_step, narration_body, tail_outcome, zone_parts,
};
use crate::chars::{is_digit, parse_u32, rfind, strip_prefix, strip_suffix, trim, trim_end_char};

verus! {

broadcast use vstd::seq_lib::group_to_multiset_ensures;

/// Rows in non-decreasing capture time.
pub open spec fn sorted_by_ts(s: Seq<Row>) -> bool {
    forall|i: int, j: int| 0 <= i < j < s.len() ==> s[i].ts <= s[j].ts
}

/// What every reachable tracker state satisfies: a waiting narration is
/// incomplete and carries the zone the tracker is in.
pub open spec fn pending_in_zone(st: LootState) -> bool {
    forall|i: int|
        0 <= i < st.pending_messages.len() ==> {
            let m = #[trigger] st.pending_messages[i];
            &&& !m.complete
            &&& m.zone_short == st.zone_short
            &&& m.zone_base == st.zone_base
            &&& m.instance == st.instance
        }
}

proof fn lemma_insert_by_ts(s: Seq<Row>, r: Row)
    requires
        sorted_by_ts(s),
    ensures
        sorted_by_ts(insert_by_ts(s, r)),
        insert_by_ts(s, r).to_multiset() == s.to_multiset().insert(r),
    decreases s.len(),
{
    let out = insert_by_ts(s, r);
    if s.len() == 0 {
        assert(out =~= Seq::<Row>::empty().push(r));
        assert(s =~= Seq::<Row>::empty());
    } else if s.last().ts <= r.ts {
        assert forall|i: int, j: int| 0 <= i < j < out.len() implies out[i].ts <= out[j].ts by {
            if j == s.len() {
                assert(out[i] == s[i]);
                assert(s[i].ts <= s.last().ts);
            }
        }
    } else {
        let d = s.drop_last();
        let inner = insert_by_ts(d, r);
        assert(sorted_by_ts(d)) by {
            assert forall|i: int, j: int| 0 <= i < j < d.len() implies d[i].ts <= d[j].ts by {
                assert(d[i] == s[i] && d[j] == s[j]);
            }
        }
        lemma_insert_by_ts(d, r);
        assert(out == inner.push(s.last()));
        assert forall|i: int, j: int| 0 <= i < j < out.len() implies out[i].ts <= out[j].ts by {
            if j == inner.len() {
                let x = inner[i];
                assert(inner.to_multiset().count(x) > 0);
                if x != r {
                    assert(d.to_multiset().count(x) > 0);
                    assert(d.contains(x));
                    let k = choose|k: int| 0 <= k < d.len() && d[k] == x;
                    assert(d[k] == s[k]);
                }
            } else {
                assert(out[i] == inner[i] && out[j] == inner[j]);
            }
        }
        assert(s == d.push(s.last()));
        assert(out.to_multiset() =~= s.to_multiset().insert(r));
    }
}

proof fn lemma_sort_by_ts(s: Seq<Row>)
    ensures
        sorted_by_ts(sort_by_ts(s)),
        sort_by_ts(s).to_multiset() == s.to_multiset(),
    decreases s.len(),
{
    if s.len() > 0 {
        let d = s.drop_last();
        lemma_sort_by_ts(d);
        lemma_insert_by_ts(sort_by_ts(d), s.last());
        assert(s == d.push(s.last()));
    }
}

/// A narration replayed with the same capture time, link and prose emits
/// nothing and changes nothing.
pub proof fn law_replayed_narration_is_ignored(
    st: LootState,
    color: u32,
    text: Seq<char>,
    item_id: u32,
    item_name: Seq<char>,
    ts: i64,
)
    ensures
        ({
            let s1 = st.after_message(color, text, item_id, item_name, ts).0;
            s1.after_message(color, text, item_id, item_name, ts) == (s1, Seq::<Row>::empty())
        }),
{
}

/// A confirmation replayed (same sequence, or same fields and time when it
/// has no sequence) emits nothing and changes nothing.
pub proof fn law_replayed_confirmation_is_ignored(
    st: LootState,
    corpse_id: u32,
    item_id: u32,
    quantity: u32,
    coin_copper: u32,
    from_corpse: bool,
    sequence: u32,
    ts: i64,
)
    ensures
        ({
            let s1 = st.after_transaction(
                corpse_id,
                item_id,
                quantity,
                coin_copper,
                from_corpse,
                sequence,
                ts,
            ).0;
            s1.after_transaction(corpse_id, item_id, quantity, coin_copper, from_corpse, sequence, ts)
                == (s1, Seq::<Row>::empty())
        }),
{
}

/// Reopening a corpse re-sends its items: the second sighting of an item on
/// the same corpse emits nothing and changes nothing.
pub proof fn law_reopened_window_item_is_ignored(
    st: LootState,
    corpse_id: u32,
    corpse_name: Seq<char>,
    item_name: Seq<char>,
    icon: u32,
    item_id: u32,
    ts: i64,
    ts2: i64,
)
    ensures
        ({
            let s1 = st.after_drop_item(corpse_id, corpse_name, item_name, icon, item_id, ts).0;
            s1.after_drop_item(corpse_id, corpse_name, item_name, icon, item_id, ts2) == (
                s1,
                Seq::<Row>::empty(),
            )
        }),
{
    let s1 = st.after_drop_item(corpse_id, corpse_name, item_name, icon, item_id, ts).0;
    if item_id != 0 {
        assert(s1.item_ids.insert(item_name, item_id) =~= s1.item_ids);
    }
}

/// A corpse coin pile with no coin records nothing.
pub proof fn law_coinless_pile_records_nothing(
    st: LootState,
    corpse_id: u32,
    item_id: u32,
    quantity: u32,
    sequence: u32,
    ts: i64,
)
    ensures
        st.after_transaction(corpse_id, item_id, quantity, 0, true, sequence, ts).1 == Seq::<
            Row,
        >::empty(),
{
}

/// A corpse coin pile names no item, so it neither consumes a waiting
/// narration nor waits itself.
pub proof fn law_pile_keeps_pending_halves(
    st: LootState,
    corpse_id: u32,
    item_id: u32,
    quantity: u32,
    coin_copper: u32,
    sequence: u32,
    ts: i64,
)
    ensures
        ({
            let s1 = st.after_transaction(
                corpse_id,
                item_id,
                quantity,
                coin_copper,
                true,
                sequence,
                ts,
            ).0;
            &&& s1.pending_messages == st.pending_messages
            &&& s1.pending_confirmations == st.pending_confirmations
        }),
{
}

/// Narration on any colour but the loot colour is ignored.
pub proof fn law_other_colours_are_ignored(
    st: LootState,
    color: u32,
    text: Seq<char>,
    item_id: u32,
    item_name: Seq<char>,
    ts: i64,
)
    requires
        color != LOOT_COLOR,
    ensures
        st.after_message(color, text, item_id, item_name, ts) == (st, Seq::<Row>::empty()),
{
}

/// A flush hands back exactly the unmatched halves, sorted by capture time,
/// and leaves nothing waiting; a second flush emits nothing.
pub proof fn law_flush_drains_in_time_order(st: LootState)
    ensures
        sorted_by_ts(st.after_flush().1),
        st.after_flush().1.to_multiset() == st.unmatched().to_multiset(),
        st.after_flush().0.pending_messages.len() == 0,
        st.after_flush().0.pending_confirmations.len() == 0,
        st.after_flush().0.after_flush() == (st.after_flush().0, Seq::<Row>::empty()),
{
    lemma_sort_by_ts(st.unmatched());
    let s1 = st.after_flush().0;
    assert(s1.unmatched() =~= Seq::<Row>::empty());
}

proof fn lemma_first_conf_with(cs: Seq<PendingConfirmation>, item_id: u32, i: int)
    ensures
        first_conf_with(cs, item_id, i) matches Some(k) ==> 0 <= k < cs.len() && cs[k].item_id
            == item_id,
    decreases cs.len() - i,
{
    if 0 <= i < cs.len() && cs[i].item_id != item_id {
        lemma_first_conf_with(cs, item_id, i + 1);
    }
}

proof fn lemma_first_msg_with(ms: Seq<Row>, item_id: u32, i: int)
    ensures
        first_msg_with(ms, item_id, i) matches Some(k) ==> 0 <= k < ms.len() && ms[k].item_id
            == item_id,
    decreases ms.len() - i,
{
    if 0 <= i < ms.len() && ms[i].item_id != item_id {
        lemma_first_msg_with(ms, item_id, i + 1);
    }
}

/// A narration whose link names an item is completed only by a confirmation
/// for that item or one naming none, so the emitted row keeps the link's id.
pub proof fn law_narration_pairs_by_item_id(
    st: LootState,
    color: u32,
    text: Seq<char>,
    item_id: u32,
    item_name: Seq<char>,
    ts: i64,
)
    requires
        item_id != 0,
    ensures
        ({
            let out = st.after_message(color, text, item_id, item_name, ts).1;
            forall|k: int| 0 <= k < out.len() ==> (#[trigger] out[k]).item_id == item_id
        }),
{
    lemma_first_conf_with(st.pending_confirmations, item_id, 0);
    lemma_first_conf_with(st.pending_confirmations, 0, 0);
}

/// A confirmation naming an item completes only a waiting narration for
/// that item or one naming none.
pub proof fn law_confirmation_pairs_by_item_id(st: LootState, item_id: u32)
    requires
        item_id != 0,
    ensures
        message_match(st.pending_messages, item_id) matches Some(i) ==> {
            let m = st.pending_messages[i];
            m.item_id == item_id || m.item_id == 0
        },
        confirmation_match(st.pending_confirmations, item_id) matches Some(i) ==> {
            let c = st.pending_confirmations[i];
            c.item_id == item_id || c.item_id == 0
        },
{
    lemma_first_msg_with(st.pending_messages, item_id, 0);
    lemma_first_msg_with(st.pending_messages, 0, 0);
    lemma_first_conf_with(st.pending_confirmations, item_id, 0);
    lemma_first_conf_with(st.pending_confirmations, 0, 0);
}

/// Rows emitted when a pair completes, for a coin pile and for a window item
/// are complete.
pub proof fn law_paired_rows_are_complete(
    st: LootState,
    color: u32,
    text: Seq<char>,
    corpse_id: u32,
    corpse_name: Seq<char>,
    item_id: u32,
    item_name: Seq<char>,
    icon: u32,
    quantity: u32,
    coin_copper: u32,
    from_corpse: bool,
    sequence: u32,
    ts: i64,
)
    ensures
        forall|k: int|
            0 <= k < st.after_message(color, text, item_id, item_name, ts).1.len() ==> (
            #[trigger] st.after_message(color, text, item_id, item_name, ts).1[k]).complete,
        forall|k: int|
            0 <= k < st.after_transaction(
                corpse_id,
                item_id,
                quantity,
                coin_copper,
                from_corpse,
                sequence,
                ts,
            ).1.len() ==> (#[trigger] st.after_transaction(
                corpse_id,
                item_id,
                quantity,
                coin_copper,
                from_corpse,
                sequence,
                ts,
            ).1[k]).complete,
        forall|k: int|
            0 <= k < st.after_drop_item(corpse_id, corpse_name, item_name, icon, item_id, ts).1.len()
                ==> (#[trigger] st.after_drop_item(
                corpse_id,
                corpse_name,
                item_name,
                icon,
                item_id,
                ts,
            ).1[k]).complete,
{
}

/// A fresh tracker, and every state the operations reach from one, keeps
/// its waiting narrations incomplete and in the current zone.
pub proof fn law_pending_narrations_stay_in_zone(
    st: LootState,
    looter: Seq<char>,
    color: u32,
    text: Seq<char>,
    corpse_id: u32,
    corpse_name: Seq<char>,
    item_id: u32,
    item_name: Seq<char>,
    icon: u32,
    quantity: u32,
    coin_copper: u32,
    from_corpse: bool,
    sequence: u32,
    ts: i64,
    zone: Seq<char>,
)
    requires
        pending_in_zone(st),
    ensures
        pending_in_zone(LootState::cleared(looter)),
        pending_in_zone(LootState { looter, ..st }),
        pending_in_zone(st.after_message(color, text, item_id, item_name, ts).0),
        pending_in_zone(
            st.after_transaction(
                corpse_id,
                item_id,
                quantity,
                coin_copper,
                from_corpse,
                sequence,
                ts,
            ).0,
        ),
        pending_in_zone(st.after_drop_item(corpse_id, corpse_name, item_name, icon, item_id, ts).0),
        pending_in_zone(st.after_flush().0),
        pending_in_zone(st.after_set_zone(zone).0),
{
    let s1 = st.after_message(color, text, item_id, item_name, ts).0;
    assert forall|i: int| 0 <= i < s1.pending_messages.len() implies {
        let m = #[trigger] s1.pending_messages[i];
        &&& !m.complete
        &&& m.zone_short == s1.zone_short
        &&& m.zone_base == s1.zone_base
        &&& m.instance == s1.instance
    } by {
        if s1.pending_messages.len() > st.pending_messages.len() && i < st.pending_messages.len() {
            assert(s1.pending_messages[i] == st.pending_messages[i]);
        }
    }
    let s2 = st.after_transaction(
        corpse_id,
        item_id,
        quantity,
        coin_copper,
        from_corpse,
        sequence,
        ts,
    ).0;
    assert forall|i: int| 0 <= i < s2.pending_messages.len() implies {
        let m = #[trigger] s2.pending_messages[i];
        &&& !m.complete
        &&& m.zone_short == s2.zone_short
        &&& m.zone_base == s2.zone_base
        &&& m.instance == s2.instance
    } by {
        lemma_first_msg_with(st.pending_messages, item_id, 0);
        lemma_first_msg_with(st.pending_messages, 0, 0);
        if !from_corpse && s2.pending_messages.len() < st.pending_messages.len() {
            let j = message_match(st.pending_messages, item_id)->0;
            assert(s2.pending_messages == st.pending_messages.remove(j));
            if i < j {
                assert(s2.pending_messages[i] == st.pending_messages[i]);
            } else {
                assert(s2.pending_messages[i] == st.pending_messages[i + 1]);
            }
        }
    }
}

/// The rows a boundary emits are incomplete and carry the zone they were
/// looted in, including when the boundary is a move to another zone.
pub proof fn law_boundary_rows_keep_their_zone(st: LootState, zone: Seq<char>)
    requires
        pending_in_zone(st),
    ensures
        st.after_set_zone(zone).1 == st.after_flush().1,
        forall|k: int|
            0 <= k < st.after_flush().1.len() ==> {
                let r = #[trigger] st.after_flush().1[k];
                &&& !r.complete
                &&& r.zone_short == st.zone_short
                &&& r.zone_base == st.zone_base
                &&& r.instance == st.instance
            },
{
    let u = st.unmatched();
    let out = st.after_flush().1;
    lemma_sort_by_ts(u);
    assert forall|k: int| 0 <= k < out.len() implies {
        let r = #[trigger] out[k];
        &&& !r.complete
        &&& r.zone_short == st.zone_short
        &&& r.zone_base == st.zone_base
        &&& r.instance == st.instance
    } by {
        let r = out[k];
        assert(out.to_multiset().count(r) > 0);
        assert(u.contains(r));
        let j = choose|j: int| 0 <= j < u.len() && u[j] == r;
        let n = st.pending_messages.len();
        if j < n {
            assert(u[j] == st.pending_messages[j]);
        } else {
            assert(u[j] == st.orphan_row(st.pending_confirmations[j - n]));
        }
    }
}

/// Entering a different zone clears every pairing and duplicate state but
/// the looter.
pub proof fn law_zone_change_clears_all_but_looter(st: LootState, zone: Seq<char>)
    requires
        zone.len() > 0,
        zone != st.zone_short,
    ensures
        ({
            let s1 = st.after_set_zone(zone).0;
            s1 == LootState {
                zone_short: zone,
                zone_base: s1.zone_base,
                instance: s1.instance,
                ..LootState::cleared(st.looter)
            }
        }),
{
}


/// One "N coin" group of money words: an amount, a coin name, then words that
/// are no amount (such as "and", or the empty piece between a comma and a
/// space).
pub open spec fn is_money_group(g: Seq<Seq<char>>) -> bool {
    &&& g.len() >= 2
    &&& parse_u32(trim(g[0])) is Some
    &&& coin_value(trim(g[1])) is Some
    &&& forall|i: int| 2 <= i < g.len() ==> parse_u32(trim(#[trigger] g[i])) is None
}

/// Copper of one group, saturated as the sum is.
pub open spec fn group_copper(g: Seq<Seq<char>>) -> int {
    clamp_u32(parse_u32(trim(g[0]))->0 * coin_value(trim(g[1]))->0) as int
}

/// Copper of a list of groups, unsaturated.
pub open spec fn groups_copper(gs: Seq<Seq<Seq<char>>>) -> int
    decreases gs.len(),
{
    if gs.len() == 0 {
        0
    } else {
        group_copper(gs[0]) + groups_copper(gs.drop_first())
    }
}

proof fn lemma_fold_concat(a: Seq<Seq<char>>, b: Seq<Seq<char>>, st: (u32, Option<u32>))
    ensures
        money_fold(a + b, st) == money_fold(b, money_fold(a, st)),
    decreases a.len(),
{
    if a.len() == 0 {
        assert(a + b =~= b);
    } else {
        assert((a + b).drop_first() =~= a.drop_first() + b);
        lemma_fold_concat(a.drop_first(), b, money_step(a[0], st));
    }
}

proof fn lemma_coin_is_no_amount(w: Seq<char>)
    requires
        coin_value(w) is Some,
    ensures
        parse_u32(w) is None,
        w.len() > 0,
{
    reveal_strlit("platinum");
    reveal_strlit("gold");
    reveal_strlit("silver");
    reveal_strlit("copper");
    assert(!is_digit(w[0]));
    assert(w[0] != '+');
}

proof fn lemma_fillers_keep_state(f: Seq<Seq<char>>, t: u32)
    requires
        forall|i: int| 0 <= i < f.len() ==> parse_u32(trim(#[trigger] f[i])) is None,
    ensures
        money_fold(f, (t, None)) == (t, None::<u32>),
    decreases f.len(),
{
    if f.len() > 0 {
        assert(money_step(f[0], (t, None)) == (t, None::<u32>));
        assert forall|i: int| 0 <= i < f.drop_first().len() implies parse_u32(
            trim(#[trigger] f.drop_first()[i]),
        ) is None by {
            assert(f.drop_first()[i] == f[i + 1]);
        }
        lemma_fillers_keep_state(f.drop_first(), t);
    }
}

proof fn lemma_group_fold(g: Seq<Seq<char>>, t: u32)
    requires
        is_money_group(g),
    ensures
        money_fold(g, (t, None)) == (clamp_u32(t + group_copper(g)), None::<u32>),
{
    let n = parse_u32(trim(g[0]))->0;
    let m = coin_value(trim(g[1]))->0;
    lemma_coin_is_no_amount(trim(g[1]));
    assert(trim(g[0]).len() > 0);
    let s1 = money_step(g[0], (t, None));
    assert(s1 == (t, Some(n)));
    let g1 = g.drop_first();
    assert(g1[0] == g[1]);
    let s2 = money_step(g1[0], s1);
    assert(s2 == (clamp_u32(t + clamp_u32(n * m)), None::<u32>));
    let rest = g1.drop_first();
    assert forall|i: int| 0 <= i < rest.len() implies parse_u32(trim(#[trigger] rest[i])) is None by {
        assert(rest[i] == g[i + 2]);
    }
    lemma_fillers_keep_state(rest, s2.0);
    assert(money_fold(g, (t, None)) == money_fold(g1, s1));
    assert(money_fold(g1, s1) == money_fold(rest, s2));
}

proof fn lemma_groups_fold(gs: Seq<Seq<Seq<char>>>, t: u32)
    requires
        forall|i: int| 0 <= i < gs.len() ==> is_money_group(#[trigger] gs[i]),
    ensures
        money_fold(gs.flatten(), (t, None)) == (clamp_u32(t + groups_copper(gs)), None::<u32>),
        groups_copper(gs) >= 0,
    decreases gs.len(),
{
    if gs.len() == 0 {
    } else {
        let g = gs[0];
        let rest = gs.drop_first();
        assert forall|i: int| 0 <= i < rest.len() implies is_money_group(#[trigger] rest[i]) by {
            assert(rest[i] == gs[i + 1]);
        }
        lemma_fold_concat(g, rest.flatten(), (t, None));
        lemma_group_fold(g, t);
        let t1 = clamp_u32(t + group_copper(g));
        lemma_groups_fold(rest, t1);
    }
}

proof fn lemma_groups_copper_remove(gs: Seq<Seq<Seq<char>>>, j: int)
    requires
        0 <= j < gs.len(),
    ensures
        groups_copper(gs) == group_copper(gs[j]) + groups_copper(gs.remove(j)),
    decreases gs.len(),
{
    if j == 0 {
        assert(gs.remove(0) =~= gs.drop_first());
    } else {
        lemma_groups_copper_remove(gs.drop_first(), j - 1);
        assert(gs.remove(j)[0] == gs[0]);
        assert(gs.remove(j).drop_first() =~= gs.drop_first().remove(j - 1));
    }
}

proof fn lemma_groups_copper_permutation(ga: Seq<Seq<Seq<char>>>, gb: Seq<Seq<Seq<char>>>)
    requires
        ga.to_multiset() == gb.to_multiset(),
    ensures
        groups_copper(ga) == groups_copper(gb),
    decreases ga.len(),
{
    if ga.len() == 0 {
        assert(gb.len() == gb.to_multiset().len());
    } else {
        let x = ga[0];
        assert(ga.to_multiset().count(x) > 0) by {
            assert(ga.contains(x));
        }
        assert(gb.contains(x));
        let j = choose|j: int| 0 <= j < gb.len() && gb[j] == x;
        assert(ga.remove(0) =~= ga.drop_first());
        assert(ga.remove(0).to_multiset() == ga.to_multiset().remove(x));
        assert(gb.remove(j).to_multiset() == gb.to_multiset().remove(x));
        lemma_groups_copper_permutation(ga.drop_first(), gb.remove(j));
        lemma_groups_copper_remove(gb, j);
    }
}

/// Money text sums its "N coin" groups whatever order they come in: two
/// texts whose words split into the same groups, in any order, give the same
/// copper, the saturated sum of the groups.
pub proof fn law_money_order_independent(
    a: Seq<char>,
    b: Seq<char>,
    ga: Seq<Seq<Seq<char>>>,
    gb: Seq<Seq<Seq<char>>>,
)
    requires
        money_pieces(a) == ga.flatten(),
        money_pieces(b) == gb.flatten(),
        forall|i: int| 0 <= i < ga.len() ==> is_money_group(#[trigger] ga[i]),
        forall|i: int| 0 <= i < gb.len() ==> is_money_group(#[trigger] gb[i]),
        ga.to_multiset() == gb.to_multiset(),
    ensures
        money_copper(a) == money_copper(b),
        money_copper(a) == clamp_u32(groups_copper(ga)),
{
    lemma_groups_fold(ga, 0);
    lemma_groups_fold(gb, 0);
    lemma_groups_copper_permutation(ga, gb);
}

/// A zone name splits into a base and one of the instance kinds: with a
/// kind, base, `_` and kind spell the name again; without one, the base is
/// the whole name and it ends in none of the instance suffixes.
pub proof fn law_zone_split_rebuilds_the_name(z: Seq<char>)
    ensures
        ({
            let (base, inst) = zone_parts(z);
            &&& inst == Seq::<char>::empty() || inst == "eqlraidgroup"@ || inst == "multi"@
                || inst == "solo"@
            &&& inst.len() == 0 ==> {
                &&& base == z
                &&& strip_suffix(z, "_eqlraidgroup"@) is None
                &&& strip_suffix(z, "_multi"@) is None
                &&& strip_suffix(z, "_solo"@) is None
            }
            &&& inst.len() > 0 ==> base + "_"@ + inst == z
        }),
{
    reveal_strlit("_eqlraidgroup");
    reveal_strlit("eqlraidgroup");
    reveal_strlit("_multi");
    reveal_strlit("multi");
    reveal_strlit("_solo");
    reveal_strlit("solo");
    reveal_strlit("_");
    match strip_suffix(z, "_eqlraidgroup"@) {
        Some(b) => {
            let k = "_eqlraidgroup"@.len() as int;
            assert("_eqlraidgroup"@ =~= "_"@ + "eqlraidgroup"@);
            assert(z =~= z.take(z.len() - k) + z.skip(z.len() - k));
            assert(b + "_"@ + "eqlraidgroup"@ =~= b + "_eqlraidgroup"@);
        },
        None => match strip_suffix(z, "_multi"@) {
            Some(b) => {
                let k = "_multi"@.len() as int;
                assert("_multi"@ =~= "_"@ + "multi"@);
                assert(z =~= z.take(z.len() - k) + z.skip(z.len() - k));
                assert(b + "_"@ + "multi"@ =~= b + "_multi"@);
            },
            None => match strip_suffix(z, "_solo"@) {
                Some(b) => {
                    let k = "_solo"@.len() as int;
                    assert("_solo"@ =~= "_"@ + "solo"@);
                    assert(z =~= z.take(z.len() - k) + z.skip(z.len() - k));
                    assert(b + "_"@ + "solo"@ =~= b + "_solo"@);
                },
                None => {},
            },
        },
    }
}

/// What a recognised narration looks like: the trimmed line opens one of the
/// two families and its body holds the corpse marker; item and mob are
/// non-empty; only a sale carries money and it is named "sold"; and the
/// "--You have looted" family always lands in the inventory.
pub proof fn law_loot_line_shape(text: Seq<char>)
    ensures
        loot_line(text) matches Some(p) ==> {
            &&& strip_prefix(trim(text), "--You have looted "@) is Some || strip_prefix(
                trim(text),
                "You looted "@,
            ) is Some
            &&& narration_body(text) matches Some((body, _)) && rfind(body, corpse_mark()) is Some
            &&& p.item.len() > 0
            &&& p.mob.len() > 0
            &&& p.sold ==> p.disposition == "sold"@
            &&& !p.sold ==> p.money_copper == 0
            &&& strip_prefix(trim(text), "--"@) is Some ==> p.disposition == "inventory"@
        },
{
    reveal_strlit("--You have looted ");
    reveal_strlit("You looted ");
    reveal_strlit("--");
    let t = trim(text);
    if strip_prefix(t, "--"@) is Some && strip_prefix(t, "--You have looted "@) is None {
        assert(t[0] == t.take(2)[0]);
        assert(t[0] == '-');
        assert(strip_prefix(t, "You looted "@) is None) by {
            if strip_prefix(t, "You looted "@) is Some {
                assert(t.take(11)[0] == "You looted "@[0]);
            }
        }
    }
}

/// The rows captured at time `t`.
pub open spec fn at_time(t: i64) -> spec_fn(Row) -> bool {
    |r: Row| r.ts == t
}

proof fn lemma_filter_push(s: Seq<Row>, r: Row, t: i64)
    ensures
        s.push(r).filter(at_time(t)) == if r.ts == t {
            s.filter(at_time(t)).push(r)
        } else {
            s.filter(at_time(t))
        },
{
    reveal(Seq::filter);
    assert(s.push(r).drop_last() =~= s);
}

proof fn lemma_insert_by_ts_filter(sorted: Seq<Row>, r: Row, t: i64)
    ensures
        insert_by_ts(sorted, r).filter(at_time(t)) == sorted.push(r).filter(at_time(t)),
    decreases sorted.len(),
{
    if sorted.len() == 0 {
        assert(seq![r] =~= sorted.push(r));
    } else if sorted.last().ts <= r.ts {
    } else {
        let d = sorted.drop_last();
        let l = sorted.last();
        lemma_insert_by_ts_filter(d, r, t);
        lemma_filter_push(insert_by_ts(d, r), l, t);
        lemma_filter_push(d, r, t);
        lemma_filter_push(sorted, r, t);
        lemma_filter_push(d, l, t);
        assert(d.push(l) =~= sorted);
        lemma_filter_push(d.push(r), l, t);
    }
}

proof fn lemma_sort_by_ts_filter(s: Seq<Row>, t: i64)
    ensures
        sort_by_ts(s).filter(at_time(t)) == s.filter(at_time(t)),
    decreases s.len(),
{
    if s.len() > 0 {
        let d = s.drop_last();
        lemma_sort_by_ts_filter(d, t);
        lemma_insert_by_ts_filter(sort_by_ts(d), s.last(), t);
        lemma_filter_push(sort_by_ts(d), s.last(), t);
        lemma_filter_push(d, s.last(), t);
        assert(d.push(s.last()) =~= s);
    }
}

/// A flush is stable: the rows captured at one time come out in the order
/// they were waiting in, narrations in arrival order and then the
/// confirmation-only rows in arrival order.
pub proof fn law_flush_is_stable(st: LootState, t: i64)
    ensures
        st.after_flush().1.filter(at_time(t)) == st.unmatched().filter(at_time(t)),
{
    lemma_sort_by_ts_filter(st.unmatched(), t);
}

/// `n` full stops.
pub open spec fn stops(n: nat) -> Seq<char> {
    Seq::new(n, |i: int| '.')
}

proof fn lemma_trim_stops(x: Seq<char>, n: nat)
    requires
        x.len() > 0,
        x.last() != '.',
    ensures
        trim_end_char(x + stops(n), '.') == x,
    decreases n,
{
    if n == 0 {
        assert(x + stops(0) =~= x);
    } else {
        assert((x + stops(n)).drop_last() =~= x + stops((n - 1) as nat));
        lemma_trim_stops(x, (n - 1) as nat);
    }
}

/// A dropped item is recorded, not ignored: a tail of " and dropped it",
/// with or without " on the ground" and with any number of closing full
/// stops, means the item was dropped, neither sold nor carrying money, and
/// the two spellings read the same.
pub proof fn law_dropped_items_are_recorded(n: nat)
    ensures
        tail_outcome(" and dropped it"@ + stops(n)) == Some((false, "dropped"@, 0u32)),
        tail_outcome(" and dropped it on the ground"@ + stops(n)) == tail_outcome(
            " and dropped it"@ + stops(n),
        ),
{
    reveal_strlit(" and dropped it");
    reveal_strlit(" and dropped it on the ground");
    reveal_strlit(" and sold it for ");
    reveal_strlit(" and stored it in ");
    reveal_strlit(" to create ");
    reveal_strlit(" and destroyed it");
    reveal_strlit("dropped");
    let a = " and dropped it"@;
    let g = " and dropped it on the ground"@;
    lemma_trim_stops(a, n);
    lemma_trim_stops(g, n);
    assert(a.take(11)[1] != " to create "@[1]);
    assert(g.take(11)[1] != " to create "@[1]);
    assert(g.take(17)[5] != " and sold it for "@[5]);
    assert(g.take(18)[5] != " and stored it in "@[5]);
    assert(strip_prefix(a, " and sold it for "@) is None);
    assert(strip_prefix(a, " and stored it in "@) is None);
    assert(strip_prefix(a, " to create "@) is None);
    assert(strip_prefix(g, " and sold it for "@) is None);
    assert(strip_prefix(g, " and stored it in "@) is None);
    assert(strip_prefix(g, " to create "@) is None);
    assert(a != " and destroyed it"@);
    assert(g != " and destroyed it"@);
    assert(g != a);
}

} // verus!
