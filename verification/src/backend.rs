//! The routing decisions the EQ Legends backend makes while turning decoded
//! packets into events: which chat channels are players', which of them the
//! server echoes and so which chat lines are surfaced, the display names of
//! stances and invocations, and where a loadout swap's inventory tail
//! begins. Which decoder an opcode reaches is [`crate::dispatch`].
use vstd::prelude::*;

use crate::chars::{decimal, push_decimal};
use crate::decode::parse_activate_ability;
use crate::wire::{le_u16, le_u32, rd_u16};

pub use crate::dispatch::{Dir, EqlBackend};

verus! {

/// Guild, group, shout, auction, OOC, tell, say and raid.
pub open spec fn player_channel(c: u32) -> bool {
    c == 0 || c == 2 || c == 3 || c == 4 || c == 5 || c == 7 || c == 8 || c == 15
}

/// The player channels the server echoes back (so the client-to-server copy
/// is dropped): all of them but say.
pub open spec fn echoed_channel(c: u32) -> bool {
    player_channel(c) && c != 8
}

/// Whether chat on channel `c` is a player's.
pub fn is_player_channel(c: u32) -> (r: bool)
    ensures
        r == player_channel(c),
{
    c == 0 || c == 2 || c == 3 || c == 4 || c == 5 || c == 7 || c == 8 || c == 15
}

/// Whether the server echoes chat on channel `c` back to its sender.
pub fn is_echoed_channel(c: u32) -> (r: bool)
    ensures
        r == echoed_channel(c),
{
    c == 0 || c == 2 || c == 3 || c == 4 || c == 5 || c == 7 || c == 15
}

/// Whether a decoded chat line on channel `chan` is surfaced: only player
/// channels are, and of those the client-to-server copy of a channel the
/// server echoes back is dropped.
pub open spec fn chat_surfaced(chan: u32, dir: Dir) -> bool {
    player_channel(chan) && !(dir == Dir::ClientToServer && echoed_channel(chan))
}

/// Whether the chat decoder surfaces a line on channel `chan` travelling in
/// direction `dir`.
pub fn surfaces_chat(chan: u32, dir: Dir) -> (r: bool)
    ensures
        r == chat_surfaced(chan, dir),
{
    if dir == Dir::ClientToServer && is_echoed_channel(chan) {
        false
    } else {
        is_player_channel(chan)
    }
}

/// The display name of stance `id`, if it is one.
pub open spec fn stance(id: u32) -> Option<Seq<char>> {
    if id == 117 {
        Some("Offense"@)
    } else if id == 118 {
        Some("Defense"@)
    } else if id == 119 {
        Some("Evasive"@)
    } else if id == 120 {
        Some("Balanced"@)
    } else if id == 121 {
        Some("Mage Hunter"@)
    } else if id == 122 {
        Some("Striker"@)
    } else if id == 123 {
        Some("Berserker"@)
    } else if id == 124 {
        Some("Ranged"@)
    } else if id == 135 {
        Some("Channeler"@)
    } else {
        None
    }
}

/// The display name of invocation `id`, if it is one.
pub open spec fn invocation(id: u32) -> Option<Seq<char>> {
    if id == 125 {
        Some("Recover"@)
    } else if id == 126 {
        Some("Empower"@)
    } else if id == 127 {
        Some("Inversion"@)
    } else if id == 128 {
        Some("Spell Blade"@)
    } else if id == 129 {
        Some("Over Channel"@)
    } else if id == 130 {
        Some("Inviolable"@)
    } else if id == 131 {
        Some("Divine"@)
    } else if id == 132 {
        Some("Chained"@)
    } else if id == 133 {
        Some("Arcane Mastery"@)
    } else if id == 134 {
        Some("Unyielding"@)
    } else {
        None
    }
}

/// The name views of an optional static name.
pub open spec fn name_view(n: Option<&'static str>) -> Option<Seq<char>> {
    match n {
        Some(s) => Some(s@),
        None => None,
    }
}

/// The display name of a stance (a stable client enum).
pub fn stance_name(id: u32) -> (r: Option<&'static str>)
    ensures
        name_view(r) == stance(id),
{
    match id {
        117 => Some("Offense"),
        118 => Some("Defense"),
        119 => Some("Evasive"),
        120 => Some("Balanced"),
        121 => Some("Mage Hunter"),
        122 => Some("Striker"),
        123 => Some("Berserker"),
        124 => Some("Ranged"),
        135 => Some("Channeler"),
        _ => None,
    }
}

/// The display name of an invocation (a stable client enum).
pub fn invocation_name(id: u32) -> (r: Option<&'static str>)
    ensures
        name_view(r) == invocation(id),
{
    match id {
        125 => Some("Recover"),
        126 => Some("Empower"),
        127 => Some("Inversion"),
        128 => Some("Spell Blade"),
        129 => Some("Over Channel"),
        130 => Some("Inviolable"),
        131 => Some("Divine"),
        132 => Some("Chained"),
        133 => Some("Arcane Mastery"),
        134 => Some("Unyielding"),
        _ => None,
    }
}

/// Which name table an activated ability is resolved against.
#[derive(Debug, Clone, Copy, PartialEq, Eq, Structural)]
pub enum AbilityKind {
    Stance,
    Invocation,
}

/// The display name of an activated ability of `kind`: its table entry, or
/// `#<id>` when the id is unknown; `None` when the payload is short.
pub open spec fn ability_name(b: Seq<u8>, kind: AbilityKind) -> Option<Seq<char>> {
    if b.len() < 4 {
        None
    } else {
        let id = le_u32(b, 0);
        let named = match kind {
            AbilityKind::Stance => stance(id),
            AbilityKind::Invocation => invocation(id),
        };
        match named {
            Some(n) => Some(n),
            None => Some("#"@ + decimal(id as nat)),
        }
    }
}

/// Resolve an `OP_Stance` / `OP_Invocation` payload to its display name.
pub fn resolve_ability(bytes: &[u8], kind: AbilityKind) -> (r: Option<String>)
    ensures
        match r {
            Some(s) => ability_name(bytes@, kind) == Some(s@),
            None => ability_name(bytes@, kind) is None,
        },
{
    let id = match parse_activate_ability(bytes) {
        Ok(id) => id,
        Err(_) => return None,
    };
    let named = match kind {
        AbilityKind::Stance => stance_name(id),
        AbilityKind::Invocation => invocation_name(id),
    };
    match named {
        Some(n) => Some(n.to_owned()),
        None => {
            let mut s = "#".to_owned();
            push_decimal(&mut s, id as u64);
            Some(s)
        },
    }
}

/// Where a loadout swap's serialized inventory tail begins: the record's
/// inner length, a `u16` at byte 5.
pub open spec fn loadout_tail_start(p: Seq<u8>) -> int {
    le_u16(p, 5) as int
}

/// The inventory tail a player's own loadout swap carries after its record;
/// a broadcast, whose payload ends with the record, has none.
pub fn tail_of(p: &[u8]) -> (t: &[u8])
    ensures
        p@.len() < 7 ==> t@ == Seq::<u8>::empty(),
        p@.len() >= 7 ==> t@ == if loadout_tail_start(p@) < p@.len() {
            p@.subrange(loadout_tail_start(p@), p@.len() as int)
        } else {
            Seq::<u8>::empty()
        },
{
    let n = p.len();
    if n < 7 {
        return vstd::slice::slice_subrange(p, 0, 0);
    }
    let inner = rd_u16(p, 5) as usize;
    if inner >= n {
        vstd::slice::slice_subrange(p, 0, 0)
    } else {
        vstd::slice::slice_subrange(p, inner, n)
    }
}

} // verus!
