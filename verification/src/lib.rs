//! EverQuest Legends packet decoding: pure wire parsers, the pinned wire
//! records, and the two cross-packet session trackers (player identity and
//! loot pairing).
//!
//! Opcodes are cited by name, never by id: the server rotates ids nearly
//! every patch. Field offsets are those of the current wire layout.
use vstd::prelude::*;

pub mod backend;
pub mod bindings;
pub mod buff_list;
pub mod channel_message;
pub mod chars;
pub mod decode;
pub mod dispatch;
pub mod eqstructs;
pub mod formatted_message;
pub mod links;
pub mod loot_laws;
pub mod loot_track;
pub mod new_zone;
pub mod npc_move_update;
pub mod player_profile;
pub mod player_spawn_pos;
pub mod self_track;
pub mod spawn;
pub mod special_message;
pub mod stat_sync;
pub mod text;
pub mod ucs_chat;
pub mod wire;
pub mod zone_server_info;

pub use buff_list::{parse_buff_list, BuffList, BuffListEntry};
pub use channel_message::{parse_channel_message, ChannelMessage, ChannelMessageError};
pub use decode::{
    parse_aa_table_entry, parse_activate_ability, parse_begin_cast, parse_consider,
    size_overrides, AaTableEntry, BeginCast, Consider, DecodeError,
};
pub use formatted_message::{parse_formatted_message, FormattedMessage, FormattedMessageError};
pub use loot_track::{LootRow, LootSource, LootTracker};
pub use new_zone::{NewZone, NewZoneError};
pub use player_profile::{parse_player_profile, PlayerProfile};
pub use npc_move_update::{parse_npc_move_update, NpcMoveUpdate, NpcMoveUpdateError};
pub use player_spawn_pos::{parse_player_spawn_pos, PlayerSpawnPos, PlayerSpawnPosError};
pub use self_track::{SelfPosRouting, SelfStat, SelfTracker, SpawnRouting, SAME_BATCH};
pub use spawn::{parse_spawn, ZoneSpawn};
pub use special_message::{parse_special_message, SpecialMessage, SpecialMessageError};
pub use stat_sync::{parse_stat_sync, StatSync};
pub use ucs_chat::{parse_ucs_channels, parse_ucs_chat, UcsRecord};
pub use zone_server_info::{parse_zone_server_info, ZoneServerInfo, ZoneServerInfoError};

verus! {

/// `OP_NewZone`, with every rejection reported as a short payload. The zone
/// walk itself is [`new_zone::parse_new_zone`].
pub fn parse_new_zone(b: &[u8]) -> (r: Result<NewZone, DecodeError>)
    ensures
        match new_zone::new_zone_of(b@) {
            Ok(v) => r matches Ok(z) && z@ == v,
            Err(_) => r == Err::<NewZone, DecodeError>(DecodeError::Short(b@.len() as usize)),
        },
{
    match new_zone::parse_new_zone(b) {
        Ok(z) => Ok(z),
        Err(_) => Err(DecodeError::Short(b.len())),
    }
}

} // verus!
