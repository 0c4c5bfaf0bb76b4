//! Which decoder each opcode reaches, per backend and direction. The
//! decoders themselves build the neutral event vocabulary; what is decided
//! here, before any payload byte is read, is whether a packet is decoded at
//! all and by which handler.
use vstd::prelude::*;

use crate::text::str_eq;

verus! {

/// The way a packet travelled.
#[derive(Clone, Copy, Debug, PartialEq, Eq, Structural)]
pub enum Dir {
    ServerToClient,
    ClientToServer,
}

/// The directions in which an opcode is decoded; in the other one the packet
/// is ignored.
#[derive(Clone, Copy, Debug, PartialEq, Eq, Structural)]
pub enum Accept {
    Both,
    FromServer,
    FromClient,
}

/// The decoder a packet is handed to, named after what it decodes.
#[derive(Clone, Copy, Debug, PartialEq, Eq, Structural)]
pub enum Handler {
    Spawn,
    MobUpdate,
    NpcMoveUpdate,
    RemoveSpawn,
    DeleteSpawn,
    SpawnRename,
    Death,
    HpUpdate,
    NewZone,
    GuildsInZoneList,
    NewGuildInZone,
    PlayerProfile,
    ZoneChange,
    LoadoutSwap,
    ClickObject,
    SpawnAppearance,
    TimeOfDay,
    Stance,
    Invocation,
    GuildRoster,
    ItemPacket,
    ZoneServerInfo,
    GuildMotd,
    ExpandedGuildInfo,
    InspectAnswer,
    SelfPos,
    SelfPosBreadcrumb,
    Illusion,
    Action,
    Action2,
    BeginCast,
    CastSpell,
    Buff,
    Target,
    Consider,
    Chat,
    SimpleMessage,
    FormattedMessage,
    SpecialMessage,
    LootMessage,
    Exp,
    LevelUpdate,
    AaExp,
    ManaChange,
    Stamina,
    SkillUpdate,
    LootTransaction,
    LootDrops,
    Money,
    AaTable,
    BuffList,
    GroundItem,
    Doors,
    CorpseLocation,
    ZonePoints,
    GroupFollow,
    GroupDisband,
    GroupMemberList,
    DynamicZoneInfo,
    DynamicZoneSwitch,
    EnterWorld,
}

/// What a backend does with a packet.
#[derive(Clone, Copy, Debug, PartialEq, Eq, Structural)]
pub enum Route {
    /// Handed to this decoder.
    Decode(Handler),
    /// A known opcode that is deliberately not decoded.
    Ignored,
    /// An opcode the backend has no arm for.
    Unhandled,
}

/// Whether a packet travelling in `dir` is decoded under `a`.
pub open spec fn accepts(a: Accept, dir: Dir) -> bool {
    match a {
        Accept::Both => true,
        Accept::FromServer => dir == Dir::ServerToClient,
        Accept::FromClient => dir == Dir::ClientToServer,
    }
}

/// A table row applied to a direction.
pub open spec fn routed(entry: Option<(Route, Accept)>, dir: Dir) -> Route {
    match entry {
        None => Route::Unhandled,
        Some((r, a)) => if accepts(a, dir) {
            r
        } else {
            Route::Ignored
        },
    }
}

/// The server-message opcodes: the client's own sends come back from the
/// server, so their client-to-server copies would show twice.
pub open spec fn server_message(op: Seq<char>) -> bool {
    op == "OP_SimpleMessage"@ || op == "OP_FormattedMessage"@ || op == "OP_SpecialMesg"@
        || op == "OP_LootMessage"@
}

/// The EQ Legends opcode table: each opcode's decoder and the directions it
/// is decoded in. A client click request carries nothing that is surfaced, so
/// `OP_ClickObject` is decoded from the server only; `OP_GroupUpdate` is a
/// fixed status push with no roster and is never decoded.
pub open spec fn eql_entry(op: Seq<char>) -> Option<(Route, Accept)> {
    if op == "OP_ZoneEntry"@ {
        Some((Route::Decode(Handler::Spawn), Accept::FromServer))
    } else if op == "OP_MobUpdate"@ {
        Some((Route::Decode(Handler::MobUpdate), Accept::FromServer))
    } else if op == "OP_NpcMoveUpdate"@ {
        Some((Route::Decode(Handler::NpcMoveUpdate), Accept::FromServer))
    } else if op == "OP_RemoveSpawn"@ {
        Some((Route::Decode(Handler::RemoveSpawn), Accept::Both))
    } else if op == "OP_DeleteSpawn"@ {
        Some((Route::Decode(Handler::DeleteSpawn), Accept::Both))
    } else if op == "OP_SpawnRename"@ {
        Some((Route::Decode(Handler::SpawnRename), Accept::FromServer))
    } else if op == "OP_Death"@ {
        Some((Route::Decode(Handler::Death), Accept::Both))
    } else if op == "OP_HPUpdate"@ {
        Some((Route::Decode(Handler::HpUpdate), Accept::Both))
    } else if op == "OP_NewZone"@ {
        Some((Route::Decode(Handler::NewZone), Accept::FromServer))
    } else if op == "OP_GuildsInZoneList"@ {
        Some((Route::Decode(Handler::GuildsInZoneList), Accept::Both))
    } else if op == "OP_NewGuildInZone"@ {
        Some((Route::Decode(Handler::NewGuildInZone), Accept::Both))
    } else if op == "OP_PlayerProfile"@ {
        Some((Route::Decode(Handler::PlayerProfile), Accept::FromServer))
    } else if op == "OP_ZoneChange"@ {
        Some((Route::Decode(Handler::ZoneChange), Accept::FromClient))
    } else if op == "OP_LoadoutSwap"@ {
        Some((Route::Decode(Handler::LoadoutSwap), Accept::Both))
    } else if op == "OP_ClickObject"@ {
        Some((Route::Decode(Handler::ClickObject), Accept::FromServer))
    } else if op == "OP_SpawnAppearance"@ || op == "OP_SpawnAppearance2"@ {
        Some((Route::Decode(Handler::SpawnAppearance), Accept::Both))
    } else if op == "OP_TimeOfDay"@ {
        Some((Route::Decode(Handler::TimeOfDay), Accept::FromServer))
    } else if op == "OP_Stance"@ {
        Some((Route::Decode(Handler::Stance), Accept::Both))
    } else if op == "OP_Invocation"@ {
        Some((Route::Decode(Handler::Invocation), Accept::Both))
    } else if op == "OP_GuildMemberList"@ {
        Some((Route::Decode(Handler::GuildRoster), Accept::Both))
    } else if op == "OP_ItemPacket"@ {
        Some((Route::Decode(Handler::ItemPacket), Accept::Both))
    } else if op == "OP_ZoneServerInfo"@ {
        Some((Route::Decode(Handler::ZoneServerInfo), Accept::FromServer))
    } else if op == "OP_GuildMOTD"@ {
        Some((Route::Decode(Handler::GuildMotd), Accept::Both))
    } else if op == "OP_ExpandedGuildInfo"@ {
        Some((Route::Decode(Handler::ExpandedGuildInfo), Accept::Both))
    } else if op == "OP_InspectAnswer"@ {
        Some((Route::Decode(Handler::InspectAnswer), Accept::Both))
    } else if op == "OP_ClientUpdate"@ {
        Some((Route::Decode(Handler::SelfPos), Accept::Both))
    } else if op == "OP_SelfPos"@ {
        Some((Route::Decode(Handler::SelfPosBreadcrumb), Accept::Both))
    } else if op == "OP_Illusion"@ {
        Some((Route::Decode(Handler::Illusion), Accept::Both))
    } else if op == "OP_Action"@ {
        Some((Route::Decode(Handler::Action), Accept::Both))
    } else if op == "OP_Action2"@ {
        Some((Route::Decode(Handler::Action2), Accept::Both))
    } else if op == "OP_BeginCast"@ {
        Some((Route::Decode(Handler::BeginCast), Accept::FromServer))
    } else if op == "OP_CastSpell"@ {
        Some((Route::Decode(Handler::CastSpell), Accept::FromClient))
    } else if op == "OP_Buff"@ {
        Some((Route::Decode(Handler::Buff), Accept::FromServer))
    } else if op == "OP_TargetMouse"@ {
        Some((Route::Decode(Handler::Target), Accept::Both))
    } else if op == "OP_Consider"@ {
        Some((Route::Decode(Handler::Consider), Accept::Both))
    } else if op == "OP_CommonMessage"@ {
        Some((Route::Decode(Handler::Chat), Accept::Both))
    } else if op == "OP_SimpleMessage"@ {
        Some((Route::Decode(Handler::SimpleMessage), Accept::Both))
    } else if op == "OP_FormattedMessage"@ {
        Some((Route::Decode(Handler::FormattedMessage), Accept::Both))
    } else if op == "OP_SpecialMesg"@ {
        Some((Route::Decode(Handler::SpecialMessage), Accept::Both))
    } else if op == "OP_LootMessage"@ {
        Some((Route::Decode(Handler::LootMessage), Accept::Both))
    } else if op == "OP_ExpUpdate"@ {
        Some((Route::Decode(Handler::Exp), Accept::Both))
    } else if op == "OP_LevelUpdate"@ {
        Some((Route::Decode(Handler::LevelUpdate), Accept::Both))
    } else if op == "OP_AAExpUpdate"@ {
        Some((Route::Decode(Handler::AaExp), Accept::Both))
    } else if op == "OP_ManaChange"@ {
        Some((Route::Decode(Handler::ManaChange), Accept::Both))
    } else if op == "OP_Stamina"@ {
        Some((Route::Decode(Handler::Stamina), Accept::Both))
    } else if op == "OP_SkillUpdate"@ {
        Some((Route::Decode(Handler::SkillUpdate), Accept::Both))
    } else if op == "OP_LootTransaction"@ {
        Some((Route::Decode(Handler::LootTransaction), Accept::Both))
    } else if op == "OP_LootDrops"@ {
        Some((Route::Decode(Handler::LootDrops), Accept::Both))
    } else if op == "OP_MoneyUpdate"@ {
        Some((Route::Decode(Handler::Money), Accept::Both))
    } else if op == "OP_SendAATable"@ {
        Some((Route::Decode(Handler::AaTable), Accept::Both))
    } else if op == "OP_BuffList"@ || op == "OP_BuffList2"@ || op == "OP_BuffList3"@ {
        Some((Route::Decode(Handler::BuffList), Accept::Both))
    } else if op == "OP_GroundSpawn"@ {
        Some((Route::Decode(Handler::GroundItem), Accept::FromServer))
    } else if op == "OP_SpawnDoor"@ {
        Some((Route::Decode(Handler::Doors), Accept::FromServer))
    } else if op == "OP_CorpseLocResponse"@ {
        Some((Route::Decode(Handler::CorpseLocation), Accept::FromServer))
    } else if op == "OP_SendZonePoints"@ {
        Some((Route::Decode(Handler::ZonePoints), Accept::FromServer))
    } else if op == "OP_GroupFollow"@ {
        Some((Route::Decode(Handler::GroupFollow), Accept::Both))
    } else if op == "OP_GroupDisband"@ || op == "OP_GroupDisband2"@ {
        Some((Route::Decode(Handler::GroupDisband), Accept::Both))
    } else if op == "OP_GroupMemberList"@ {
        Some((Route::Decode(Handler::GroupMemberList), Accept::FromServer))
    } else if op == "OP_GroupUpdate"@ {
        Some((Route::Ignored, Accept::Both))
    } else if op == "OP_DzInfo"@ {
        Some((Route::Decode(Handler::DynamicZoneInfo), Accept::FromServer))
    } else if op == "OP_DzSwitchInfo"@ {
        Some((Route::Decode(Handler::DynamicZoneSwitch), Accept::FromServer))
    } else if op == "OP_EnterWorld"@ {
        Some((Route::Decode(Handler::EnterWorld), Accept::FromClient))
    } else {
        None
    }
}

/// The Live opcode table.
pub open spec fn live_entry(op: Seq<char>) -> Option<(Route, Accept)> {
    if op == "OP_ZoneEntry"@ {
        Some((Route::Decode(Handler::Spawn), Accept::FromServer))
    } else if op == "OP_MobUpdate"@ {
        Some((Route::Decode(Handler::MobUpdate), Accept::Both))
    } else if op == "OP_NpcMoveUpdate"@ {
        Some((Route::Decode(Handler::NpcMoveUpdate), Accept::FromServer))
    } else if op == "OP_RemoveSpawn"@ {
        Some((Route::Decode(Handler::RemoveSpawn), Accept::Both))
    } else if op == "OP_DeleteSpawn"@ {
        Some((Route::Decode(Handler::DeleteSpawn), Accept::Both))
    } else if op == "OP_SpawnRename"@ {
        Some((Route::Decode(Handler::SpawnRename), Accept::FromServer))
    } else if op == "OP_HPUpdate"@ {
        Some((Route::Decode(Handler::HpUpdate), Accept::Both))
    } else if op == "OP_Death"@ {
        Some((Route::Decode(Handler::Death), Accept::Both))
    } else if op == "OP_NewZone"@ {
        Some((Route::Decode(Handler::NewZone), Accept::FromServer))
    } else if op == "OP_PlayerProfile"@ {
        Some((Route::Decode(Handler::PlayerProfile), Accept::FromServer))
    } else if op == "OP_ZoneChange"@ {
        Some((Route::Decode(Handler::ZoneChange), Accept::Both))
    } else if op == "OP_ClientUpdate"@ {
        Some((Route::Decode(Handler::SelfPos), Accept::Both))
    } else if op == "OP_Illusion"@ {
        Some((Route::Decode(Handler::Illusion), Accept::Both))
    } else if op == "OP_ManaChange"@ {
        Some((Route::Decode(Handler::ManaChange), Accept::Both))
    } else if op == "OP_Stamina"@ {
        Some((Route::Decode(Handler::Stamina), Accept::Both))
    } else if op == "OP_ItemPacket"@ {
        Some((Route::Decode(Handler::ItemPacket), Accept::Both))
    } else if op == "OP_SkillUpdate"@ {
        Some((Route::Decode(Handler::SkillUpdate), Accept::Both))
    } else if op == "OP_Action2"@ {
        Some((Route::Decode(Handler::Action2), Accept::Both))
    } else if op == "OP_TargetMouse"@ {
        Some((Route::Decode(Handler::Target), Accept::Both))
    } else if op == "OP_Consider"@ {
        Some((Route::Decode(Handler::Consider), Accept::Both))
    } else if op == "OP_CommonMessage"@ {
        Some((Route::Decode(Handler::Chat), Accept::Both))
    } else if op == "OP_SimpleMessage"@ {
        Some((Route::Decode(Handler::SimpleMessage), Accept::Both))
    } else if op == "OP_FormattedMessage"@ {
        Some((Route::Decode(Handler::FormattedMessage), Accept::Both))
    } else if op == "OP_SpecialMesg"@ {
        Some((Route::Decode(Handler::SpecialMessage), Accept::Both))
    } else if op == "OP_GroundSpawn"@ {
        Some((Route::Decode(Handler::GroundItem), Accept::FromServer))
    } else if op == "OP_ClickObject"@ {
        Some((Route::Decode(Handler::ClickObject), Accept::FromServer))
    } else if op == "OP_SpawnDoor"@ {
        Some((Route::Decode(Handler::Doors), Accept::FromServer))
    } else if op == "OP_CorpseLocResponse"@ {
        Some((Route::Decode(Handler::CorpseLocation), Accept::FromServer))
    } else if op == "OP_SendZonePoints"@ {
        Some((Route::Decode(Handler::ZonePoints), Accept::FromServer))
    } else if op == "OP_SpawnAppearance"@ {
        Some((Route::Decode(Handler::SpawnAppearance), Accept::Both))
    } else if op == "OP_GuildsInZoneList"@ {
        Some((Route::Decode(Handler::GuildsInZoneList), Accept::Both))
    } else if op == "OP_NewGuildInZone"@ {
        Some((Route::Decode(Handler::NewGuildInZone), Accept::Both))
    } else if op == "OP_GuildMemberList"@ {
        Some((Route::Decode(Handler::GuildRoster), Accept::Both))
    } else if op == "OP_GuildMOTD"@ {
        Some((Route::Decode(Handler::GuildMotd), Accept::Both))
    } else if op == "OP_ExpandedGuildInfo"@ {
        Some((Route::Decode(Handler::ExpandedGuildInfo), Accept::Both))
    } else if op == "OP_ExpUpdate"@ {
        Some((Route::Decode(Handler::Exp), Accept::Both))
    } else if op == "OP_AAExpUpdate"@ {
        Some((Route::Decode(Handler::AaExp), Accept::Both))
    } else if op == "OP_TimeOfDay"@ {
        Some((Route::Decode(Handler::TimeOfDay), Accept::FromServer))
    } else if op == "OP_ZoneServerInfo"@ {
        Some((Route::Decode(Handler::ZoneServerInfo), Accept::FromServer))
    } else if op == "OP_GroupFollow"@ {
        Some((Route::Decode(Handler::GroupFollow), Accept::Both))
    } else if op == "OP_GroupDisband"@ || op == "OP_GroupDisband2"@ {
        Some((Route::Decode(Handler::GroupDisband), Accept::Both))
    } else if op == "OP_EnterWorld"@ {
        Some((Route::Decode(Handler::EnterWorld), Accept::FromClient))
    } else {
        None
    }
}

/// Where EQ Legends sends a packet: server messages from the client are
/// dropped first, then the opcode table decides.
pub open spec fn eql_route(op: Seq<char>, dir: Dir) -> Route {
    if dir == Dir::ClientToServer && server_message(op) {
        Route::Ignored
    } else {
        routed(eql_entry(op), dir)
    }
}

/// Where Live sends a packet.
pub open spec fn live_route(op: Seq<char>, dir: Dir) -> Route {
    routed(live_entry(op), dir)
}

fn accepts_dir(a: Accept, dir: Dir) -> (r: bool)
    ensures
        r == accepts(a, dir),
{
    match a {
        Accept::Both => true,
        Accept::FromServer => dir == Dir::ServerToClient,
        Accept::FromClient => dir == Dir::ClientToServer,
    }
}

fn apply(entry: Option<(Route, Accept)>, dir: Dir) -> (r: Route)
    ensures
        r == routed(entry, dir),
{
    match entry {
        None => Route::Unhandled,
        Some((r, a)) => if accepts_dir(a, dir) {
            r
        } else {
            Route::Ignored
        },
    }
}

fn eql_lookup(op: &str) -> (r: Option<(Route, Accept)>)
    ensures
        r == eql_entry(op@),
{
    if str_eq(op, "OP_ZoneEntry") {
        Some((Route::Decode(Handler::Spawn), Accept::FromServer))
    } else if str_eq(op, "OP_MobUpdate") {
        Some((Route::Decode(Handler::MobUpdate), Accept::FromServer))
    } else if str_eq(op, "OP_NpcMoveUpdate") {
        Some((Route::Decode(Handler::NpcMoveUpdate), Accept::FromServer))
    } else if str_eq(op, "OP_RemoveSpawn") {
        Some((Route::Decode(Handler::RemoveSpawn), Accept::Both))
    } else if str_eq(op, "OP_DeleteSpawn") {
        Some((Route::Decode(Handler::DeleteSpawn), Accept::Both))
    } else if str_eq(op, "OP_SpawnRename") {
        Some((Route::Decode(Handler::SpawnRename), Accept::FromServer))
    } else if str_eq(op, "OP_Death") {
        Some((Route::Decode(Handler::Death), Accept::Both))
    } else if str_eq(op, "OP_HPUpdate") {
        Some((Route::Decode(Handler::HpUpdate), Accept::Both))
    } else if str_eq(op, "OP_NewZone") {
        Some((Route::Decode(Handler::NewZone), Accept::FromServer))
    } else if str_eq(op, "OP_GuildsInZoneList") {
        Some((Route::Decode(Handler::GuildsInZoneList), Accept::Both))
    } else if str_eq(op, "OP_NewGuildInZone") {
        Some((Route::Decode(Handler::NewGuildInZone), Accept::Both))
    } else if str_eq(op, "OP_PlayerProfile") {
        Some((Route::Decode(Handler::PlayerProfile), Accept::FromServer))
    } else if str_eq(op, "OP_ZoneChange") {
        Some((Route::Decode(Handler::ZoneChange), Accept::FromClient))
    } else if str_eq(op, "OP_LoadoutSwap") {
        Some((Route::Decode(Handler::LoadoutSwap), Accept::Both))
    } else if str_eq(op, "OP_ClickObject") {
        Some((Route::Decode(Handler::ClickObject), Accept::FromServer))
    } else if str_eq(op, "OP_SpawnAppearance") || str_eq(op, "OP_SpawnAppearance2") {
        Some((Route::Decode(Handler::SpawnAppearance), Accept::Both))
    } else if str_eq(op, "OP_TimeOfDay") {
        Some((Route::Decode(Handler::TimeOfDay), Accept::FromServer))
    } else if str_eq(op, "OP_Stance") {
        Some((Route::Decode(Handler::Stance), Accept::Both))
    } else if str_eq(op, "OP_Invocation") {
        Some((Route::Decode(Handler::Invocation), Accept::Both))
    } else if str_eq(op, "OP_GuildMemberList") {
        Some((Route::Decode(Handler::GuildRoster), Accept::Both))
    } else if str_eq(op, "OP_ItemPacket") {
        Some((Route::Decode(Handler::ItemPacket), Accept::Both))
    } else if str_eq(op, "OP_ZoneServerInfo") {
        Some((Route::Decode(Handler::ZoneServerInfo), Accept::FromServer))
    } else if str_eq(op, "OP_GuildMOTD") {
        Some((Route::Decode(Handler::GuildMotd), Accept::Both))
    } else if str_eq(op, "OP_ExpandedGuildInfo") {
        Some((Route::Decode(Handler::ExpandedGuildInfo), Accept::Both))
    } else if str_eq(op, "OP_InspectAnswer") {
        Some((Route::Decode(Handler::InspectAnswer), Accept::Both))
    } else if str_eq(op, "OP_ClientUpdate") {
        Some((Route::Decode(Handler::SelfPos), Accept::Both))
    } else if str_eq(op, "OP_SelfPos") {
        Some((Route::Decode(Handler::SelfPosBreadcrumb), Accept::Both))
    } else if str_eq(op, "OP_Illusion") {
        Some((Route::Decode(Handler::Illusion), Accept::Both))
    } else if str_eq(op, "OP_Action") {
        Some((Route::Decode(Handler::Action), Accept::Both))
    } else if str_eq(op, "OP_Action2") {
        Some((Route::Decode(Handler::Action2), Accept::Both))
    } else if str_eq(op, "OP_BeginCast") {
        Some((Route::Decode(Handler::BeginCast), Accept::FromServer))
    } else if str_eq(op, "OP_CastSpell") {
        Some((Route::Decode(Handler::CastSpell), Accept::FromClient))
    } else if str_eq(op, "OP_Buff") {
        Some((Route::Decode(Handler::Buff), Accept::FromServer))
    } else if str_eq(op, "OP_TargetMouse") {
        Some((Route::Decode(Handler::Target), Accept::Both))
    } else if str_eq(op, "OP_Consider") {
        Some((Route::Decode(Handler::Consider), Accept::Both))
    } else if str_eq(op, "OP_CommonMessage") {
        Some((Route::Decode(Handler::Chat), Accept::Both))
    } else if str_eq(op, "OP_SimpleMessage") {
        Some((Route::Decode(Handler::SimpleMessage), Accept::Both))
    } else if str_eq(op, "OP_FormattedMessage") {
        Some((Route::Decode(Handler::FormattedMessage), Accept::Both))
    } else if str_eq(op, "OP_SpecialMesg") {
        Some((Route::Decode(Handler::SpecialMessage), Accept::Both))
    } else if str_eq(op, "OP_LootMessage") {
        Some((Route::Decode(Handler::LootMessage), Accept::Both))
    } else if str_eq(op, "OP_ExpUpdate") {
        Some((Route::Decode(Handler::Exp), Accept::Both))
    } else if str_eq(op, "OP_LevelUpdate") {
        Some((Route::Decode(Handler::LevelUpdate), Accept::Both))
    } else if str_eq(op, "OP_AAExpUpdate") {
        Some((Route::Decode(Handler::AaExp), Accept::Both))
    } else if str_eq(op, "OP_ManaChange") {
        Some((Route::Decode(Handler::ManaChange), Accept::Both))
    } else if str_eq(op, "OP_Stamina") {
        Some((Route::Decode(Handler::Stamina), Accept::Both))
    } else if str_eq(op, "OP_SkillUpdate") {
        Some((Route::Decode(Handler::SkillUpdate), Accept::Both))
    } else if str_eq(op, "OP_LootTransaction") {
        Some((Route::Decode(Handler::LootTransaction), Accept::Both))
    } else if str_eq(op, "OP_LootDrops") {
        Some((Route::Decode(Handler::LootDrops), Accept::Both))
    } else if str_eq(op, "OP_MoneyUpdate") {
        Some((Route::Decode(Handler::Money), Accept::Both))
    } else if str_eq(op, "OP_SendAATable") {
        Some((Route::Decode(Handler::AaTable), Accept::Both))
    } else if str_eq(op, "OP_BuffList") || str_eq(op, "OP_BuffList2") || str_eq(op, "OP_BuffList3") {
        Some((Route::Decode(Handler::BuffList), Accept::Both))
    } else if str_eq(op, "OP_GroundSpawn") {
        Some((Route::Decode(Handler::GroundItem), Accept::FromServer))
    } else if str_eq(op, "OP_SpawnDoor") {
        Some((Route::Decode(Handler::Doors), Accept::FromServer))
    } else if str_eq(op, "OP_CorpseLocResponse") {
        Some((Route::Decode(Handler::CorpseLocation), Accept::FromServer))
    } else if str_eq(op, "OP_SendZonePoints") {
        Some((Route::Decode(Handler::ZonePoints), Accept::FromServer))
    } else if str_eq(op, "OP_GroupFollow") {
        Some((Route::Decode(Handler::GroupFollow), Accept::Both))
    } else if str_eq(op, "OP_GroupDisband") || str_eq(op, "OP_GroupDisband2") {
        Some((Route::Decode(Handler::GroupDisband), Accept::Both))
    } else if str_eq(op, "OP_GroupMemberList") {
        Some((Route::Decode(Handler::GroupMemberList), Accept::FromServer))
    } else if str_eq(op, "OP_GroupUpdate") {
        Some((Route::Ignored, Accept::Both))
    } else if str_eq(op, "OP_DzInfo") {
        Some((Route::Decode(Handler::DynamicZoneInfo), Accept::FromServer))
    } else if str_eq(op, "OP_DzSwitchInfo") {
        Some((Route::Decode(Handler::DynamicZoneSwitch), Accept::FromServer))
    } else if str_eq(op, "OP_EnterWorld") {
        Some((Route::Decode(Handler::EnterWorld), Accept::FromClient))
    } else {
        None
    }
}

fn live_lookup(op: &str) -> (r: Option<(Route, Accept)>)
    ensures
        r == live_entry(op@),
{
    if str_eq(op, "OP_ZoneEntry") {
        Some((Route::Decode(Handler::Spawn), Accept::FromServer))
    } else if str_eq(op, "OP_MobUpdate") {
        Some((Route::Decode(Handler::MobUpdate), Accept::Both))
    } else if str_eq(op, "OP_NpcMoveUpdate") {
        Some((Route::Decode(Handler::NpcMoveUpdate), Accept::FromServer))
    } else if str_eq(op, "OP_RemoveSpawn") {
        Some((Route::Decode(Handler::RemoveSpawn), Accept::Both))
    } else if str_eq(op, "OP_DeleteSpawn") {
        Some((Route::Decode(Handler::DeleteSpawn), Accept::Both))
    } else if str_eq(op, "OP_SpawnRename") {
        Some((Route::Decode(Handler::SpawnRename), Accept::FromServer))
    } else if str_eq(op, "OP_HPUpdate") {
        Some((Route::Decode(Handler::HpUpdate), Accept::Both))
    } else if str_eq(op, "OP_Death") {
        Some((Route::Decode(Handler::Death), Accept::Both))
    } else if str_eq(op, "OP_NewZone") {
        Some((Route::Decode(Handler::NewZone), Accept::FromServer))
    } else if str_eq(op, "OP_PlayerProfile") {
        Some((Route::Decode(Handler::PlayerProfile), Accept::FromServer))
    } else if str_eq(op, "OP_ZoneChange") {
        Some((Route::Decode(Handler::ZoneChange), Accept::Both))
    } else if str_eq(op, "OP_ClientUpdate") {
        Some((Route::Decode(Handler::SelfPos), Accept::Both))
    } else if str_eq(op, "OP_Illusion") {
        Some((Route::Decode(Handler::Illusion), Accept::Both))
    } else if str_eq(op, "OP_ManaChange") {
        Some((Route::Decode(Handler::ManaChange), Accept::Both))
    } else if str_eq(op, "OP_Stamina") {
        Some((Route::Decode(Handler::Stamina), Accept::Both))
    } else if str_eq(op, "OP_ItemPacket") {
        Some((Route::Decode(Handler::ItemPacket), Accept::Both))
    } else if str_eq(op, "OP_SkillUpdate") {
        Some((Route::Decode(Handler::SkillUpdate), Accept::Both))
    } else if str_eq(op, "OP_Action2") {
        Some((Route::Decode(Handler::Action2), Accept::Both))
    } else if str_eq(op, "OP_TargetMouse") {
        Some((Route::Decode(Handler::Target), Accept::Both))
    } else if str_eq(op, "OP_Consider") {
        Some((Route::Decode(Handler::Consider), Accept::Both))
    } else if str_eq(op, "OP_CommonMessage") {
        Some((Route::Decode(Handler::Chat), Accept::Both))
    } else if str_eq(op, "OP_SimpleMessage") {
        Some((Route::Decode(Handler::SimpleMessage), Accept::Both))
    } else if str_eq(op, "OP_FormattedMessage") {
        Some((Route::Decode(Handler::FormattedMessage), Accept::Both))
    } else if str_eq(op, "OP_SpecialMesg") {
        Some((Route::Decode(Handler::SpecialMessage), Accept::Both))
    } else if str_eq(op, "OP_GroundSpawn") {
        Some((Route::Decode(Handler::GroundItem), Accept::FromServer))
    } else if str_eq(op, "OP_ClickObject") {
        Some((Route::Decode(Handler::ClickObject), Accept::FromServer))
    } else if str_eq(op, "OP_SpawnDoor") {
        Some((Route::Decode(Handler::Doors), Accept::FromServer))
    } else if str_eq(op, "OP_CorpseLocResponse") {
        Some((Route::Decode(Handler::CorpseLocation), Accept::FromServer))
    } else if str_eq(op, "OP_SendZonePoints") {
        Some((Route::Decode(Handler::ZonePoints), Accept::FromServer))
    } else if str_eq(op, "OP_SpawnAppearance") {
        Some((Route::Decode(Handler::SpawnAppearance), Accept::Both))
    } else if str_eq(op, "OP_GuildsInZoneList") {
        Some((Route::Decode(Handler::GuildsInZoneList), Accept::Both))
    } else if str_eq(op, "OP_NewGuildInZone") {
        Some((Route::Decode(Handler::NewGuildInZone), Accept::Both))
    } else if str_eq(op, "OP_GuildMemberList") {
        Some((Route::Decode(Handler::GuildRoster), Accept::Both))
    } else if str_eq(op, "OP_GuildMOTD") {
        Some((Route::Decode(Handler::GuildMotd), Accept::Both))
    } else if str_eq(op, "OP_ExpandedGuildInfo") {
        Some((Route::Decode(Handler::ExpandedGuildInfo), Accept::Both))
    } else if str_eq(op, "OP_ExpUpdate") {
        Some((Route::Decode(Handler::Exp), Accept::Both))
    } else if str_eq(op, "OP_AAExpUpdate") {
        Some((Route::Decode(Handler::AaExp), Accept::Both))
    } else if str_eq(op, "OP_TimeOfDay") {
        Some((Route::Decode(Handler::TimeOfDay), Accept::FromServer))
    } else if str_eq(op, "OP_ZoneServerInfo") {
        Some((Route::Decode(Handler::ZoneServerInfo), Accept::FromServer))
    } else if str_eq(op, "OP_GroupFollow") {
        Some((Route::Decode(Handler::GroupFollow), Accept::Both))
    } else if str_eq(op, "OP_GroupDisband") || str_eq(op, "OP_GroupDisband2") {
        Some((Route::Decode(Handler::GroupDisband), Accept::Both))
    } else if str_eq(op, "OP_EnterWorld") {
        Some((Route::Decode(Handler::EnterWorld), Accept::FromClient))
    } else {
        None
    }
}

/// The EverQuest Legends backend.
pub struct EqlBackend;

impl EqlBackend {
    /// The backend's name.
    pub fn name(&self) -> (r: &'static str)
        ensures
            r@ == "eql"@,
    {
        "eql"
    }

    /// The decoder `opcode` reaches in direction `dir`, if any.
    pub fn route(&self, opcode: &str, dir: Dir) -> (r: Route)
        ensures
            r == eql_route(opcode@, dir),
    {
        if dir == Dir::ClientToServer && (str_eq(opcode, "OP_SimpleMessage") || str_eq(
            opcode,
            "OP_FormattedMessage",
        ) || str_eq(opcode, "OP_SpecialMesg") || str_eq(opcode, "OP_LootMessage")) {
            return Route::Ignored;
        }
        apply(eql_lookup(opcode), dir)
    }
}

/// The Live (and Test) backend.
pub struct LiveBackend;

impl LiveBackend {
    /// The backend's name.
    pub fn name(&self) -> (r: &'static str)
        ensures
            r@ == "live"@,
    {
        "live"
    }

    /// The decoder `opcode` reaches in direction `dir`, if any.
    pub fn route(&self, opcode: &str, dir: Dir) -> (r: Route)
        ensures
            r == live_route(opcode@, dir),
    {
        apply(live_lookup(opcode), dir)
    }
}

/// The client's copy of a server message is never decoded, whatever the
/// opcode table says.
pub proof fn law_eql_server_messages_from_client_are_ignored(op: Seq<char>)
    requires
        server_message(op),
    ensures
        eql_route(op, Dir::ClientToServer) == Route::Ignored,
{
}

/// Whether a backend has an arm for an opcode does not depend on the
/// direction: a known opcode arriving from the side it is not decoded from is
/// ignored, never unhandled.
pub proof fn law_unhandled_does_not_depend_on_direction(op: Seq<char>, d1: Dir, d2: Dir)
    ensures
        eql_route(op, d1) == Route::Unhandled <==> eql_route(op, d2) == Route::Unhandled,
        live_route(op, d1) == Route::Unhandled <==> live_route(op, d2) == Route::Unhandled,
{
}

/// The opcode names' lengths.
proof fn lemma_opcode_name_lengths()
    ensures
        "OP_ZoneEntry"@.len() == 12,
        "OP_MobUpdate"@.len() == 12,
        "OP_NpcMoveUpdate"@.len() == 16,
        "OP_RemoveSpawn"@.len() == 14,
        "OP_DeleteSpawn"@.len() == 14,
        "OP_SpawnRename"@.len() == 14,
        "OP_Death"@.len() == 8,
        "OP_HPUpdate"@.len() == 11,
        "OP_NewZone"@.len() == 10,
        "OP_GuildsInZoneList"@.len() == 19,
        "OP_NewGuildInZone"@.len() == 17,
        "OP_PlayerProfile"@.len() == 16,
        "OP_ZoneChange"@.len() == 13,
        "OP_LoadoutSwap"@.len() == 14,
        "OP_ClickObject"@.len() == 14,
        "OP_SpawnAppearance"@.len() == 18,
        "OP_SpawnAppearance2"@.len() == 19,
        "OP_TimeOfDay"@.len() == 12,
        "OP_Stance"@.len() == 9,
        "OP_Invocation"@.len() == 13,
        "OP_GuildMemberList"@.len() == 18,
        "OP_ItemPacket"@.len() == 13,
        "OP_ZoneServerInfo"@.len() == 17,
        "OP_GuildMOTD"@.len() == 12,
        "OP_ExpandedGuildInfo"@.len() == 20,
        "OP_InspectAnswer"@.len() == 16,
        "OP_ClientUpdate"@.len() == 15,
        "OP_SelfPos"@.len() == 10,
        "OP_Illusion"@.len() == 11,
        "OP_Action"@.len() == 9,
        "OP_Action2"@.len() == 10,
        "OP_BeginCast"@.len() == 12,
        "OP_CastSpell"@.len() == 12,
        "OP_Buff"@.len() == 7,
        "OP_TargetMouse"@.len() == 14,
        "OP_Consider"@.len() == 11,
        "OP_CommonMessage"@.len() == 16,
        "OP_SimpleMessage"@.len() == 16,
        "OP_FormattedMessage"@.len() == 19,
        "OP_SpecialMesg"@.len() == 14,
        "OP_LootMessage"@.len() == 14,
        "OP_ExpUpdate"@.len() == 12,
        "OP_LevelUpdate"@.len() == 14,
        "OP_AAExpUpdate"@.len() == 14,
        "OP_ManaChange"@.len() == 13,
        "OP_Stamina"@.len() == 10,
        "OP_SkillUpdate"@.len() == 14,
        "OP_LootTransaction"@.len() == 18,
        "OP_LootDrops"@.len() == 12,
        "OP_MoneyUpdate"@.len() == 14,
        "OP_SendAATable"@.len() == 14,
        "OP_BuffList"@.len() == 11,
        "OP_BuffList2"@.len() == 12,
        "OP_BuffList3"@.len() == 12,
        "OP_GroundSpawn"@.len() == 14,
        "OP_SpawnDoor"@.len() == 12,
        "OP_CorpseLocResponse"@.len() == 20,
        "OP_SendZonePoints"@.len() == 17,
        "OP_GroupFollow"@.len() == 14,
        "OP_GroupDisband"@.len() == 15,
        "OP_GroupDisband2"@.len() == 16,
        "OP_GroupMemberList"@.len() == 18,
        "OP_GroupUpdate"@.len() == 14,
        "OP_DzInfo"@.len() == 9,
        "OP_DzSwitchInfo"@.len() == 15,
        "OP_EnterWorld"@.len() == 13,
{
    reveal_strlit("OP_ZoneEntry");
    reveal_strlit("OP_MobUpdate");
    reveal_strlit("OP_NpcMoveUpdate");
    reveal_strlit("OP_RemoveSpawn");
    reveal_strlit("OP_DeleteSpawn");
    reveal_strlit("OP_SpawnRename");
    reveal_strlit("OP_Death");
    reveal_strlit("OP_HPUpdate");
    reveal_strlit("OP_NewZone");
    reveal_strlit("OP_GuildsInZoneList");
    reveal_strlit("OP_NewGuildInZone");
    reveal_strlit("OP_PlayerProfile");
    reveal_strlit("OP_ZoneChange");
    reveal_strlit("OP_LoadoutSwap");
    reveal_strlit("OP_ClickObject");
    reveal_strlit("OP_SpawnAppearance");
    reveal_strlit("OP_SpawnAppearance2");
    reveal_strlit("OP_TimeOfDay");
    reveal_strlit("OP_Stance");
    reveal_strlit("OP_Invocation");
    reveal_strlit("OP_GuildMemberList");
    reveal_strlit("OP_ItemPacket");
    reveal_strlit("OP_ZoneServerInfo");
    reveal_strlit("OP_GuildMOTD");
    reveal_strlit("OP_ExpandedGuildInfo");
    reveal_strlit("OP_InspectAnswer");
    reveal_strlit("OP_ClientUpdate");
    reveal_strlit("OP_SelfPos");
    reveal_strlit("OP_Illusion");
    reveal_strlit("OP_Action");
    reveal_strlit("OP_Action2");
    reveal_strlit("OP_BeginCast");
    reveal_strlit("OP_CastSpell");
    reveal_strlit("OP_Buff");
    reveal_strlit("OP_TargetMouse");
    reveal_strlit("OP_Consider");
    reveal_strlit("OP_CommonMessage");
    reveal_strlit("OP_SimpleMessage");
    reveal_strlit("OP_FormattedMessage");
    reveal_strlit("OP_SpecialMesg");
    reveal_strlit("OP_LootMessage");
    reveal_strlit("OP_ExpUpdate");
    reveal_strlit("OP_LevelUpdate");
    reveal_strlit("OP_AAExpUpdate");
    reveal_strlit("OP_ManaChange");
    reveal_strlit("OP_Stamina");
    reveal_strlit("OP_SkillUpdate");
    reveal_strlit("OP_LootTransaction");
    reveal_strlit("OP_LootDrops");
    reveal_strlit("OP_MoneyUpdate");
    reveal_strlit("OP_SendAATable");
    reveal_strlit("OP_BuffList");
    reveal_strlit("OP_BuffList2");
    reveal_strlit("OP_BuffList3");
    reveal_strlit("OP_GroundSpawn");
    reveal_strlit("OP_SpawnDoor");
    reveal_strlit("OP_CorpseLocResponse");
    reveal_strlit("OP_SendZonePoints");
    reveal_strlit("OP_GroupFollow");
    reveal_strlit("OP_GroupDisband");
    reveal_strlit("OP_GroupDisband2");
    reveal_strlit("OP_GroupMemberList");
    reveal_strlit("OP_GroupUpdate");
    reveal_strlit("OP_DzInfo");
    reveal_strlit("OP_DzSwitchInfo");
    reveal_strlit("OP_EnterWorld");
}

/// Opcode names of equal length differ.
proof fn lemma_opcode_names_differ()
    ensures
        "OP_ZoneEntry"@ != "OP_MobUpdate"@,
        "OP_ZoneEntry"@ != "OP_TimeOfDay"@,
        "OP_ZoneEntry"@ != "OP_GuildMOTD"@,
        "OP_ZoneEntry"@ != "OP_BeginCast"@,
        "OP_ZoneEntry"@ != "OP_CastSpell"@,
        "OP_ZoneEntry"@ != "OP_ExpUpdate"@,
        "OP_ZoneEntry"@ != "OP_LootDrops"@,
        "OP_ZoneEntry"@ != "OP_BuffList2"@,
        "OP_ZoneEntry"@ != "OP_BuffList3"@,
        "OP_ZoneEntry"@ != "OP_SpawnDoor"@,
        "OP_MobUpdate"@ != "OP_TimeOfDay"@,
        "OP_MobUpdate"@ != "OP_GuildMOTD"@,
        "OP_MobUpdate"@ != "OP_BeginCast"@,
        "OP_MobUpdate"@ != "OP_CastSpell"@,
        "OP_MobUpdate"@ != "OP_ExpUpdate"@,
        "OP_MobUpdate"@ != "OP_LootDrops"@,
        "OP_MobUpdate"@ != "OP_BuffList2"@,
        "OP_MobUpdate"@ != "OP_BuffList3"@,
        "OP_MobUpdate"@ != "OP_SpawnDoor"@,
        "OP_NpcMoveUpdate"@ != "OP_PlayerProfile"@,
        "OP_NpcMoveUpdate"@ != "OP_InspectAnswer"@,
        "OP_NpcMoveUpdate"@ != "OP_CommonMessage"@,
        "OP_NpcMoveUpdate"@ != "OP_SimpleMessage"@,
        "OP_NpcMoveUpdate"@ != "OP_GroupDisband2"@,
        "OP_RemoveSpawn"@ != "OP_DeleteSpawn"@,
        "OP_RemoveSpawn"@ != "OP_SpawnRename"@,
        "OP_RemoveSpawn"@ != "OP_LoadoutSwap"@,
        "OP_RemoveSpawn"@ != "OP_ClickObject"@,
        "OP_RemoveSpawn"@ != "OP_TargetMouse"@,
        "OP_RemoveSpawn"@ != "OP_SpecialMesg"@,
        "OP_RemoveSpawn"@ != "OP_LootMessage"@,
        "OP_RemoveSpawn"@ != "OP_LevelUpdate"@,
        "OP_RemoveSpawn"@ != "OP_AAExpUpdate"@,
        "OP_RemoveSpawn"@ != "OP_SkillUpdate"@,
        "OP_RemoveSpawn"@ != "OP_MoneyUpdate"@,
        "OP_RemoveSpawn"@ != "OP_SendAATable"@,
        "OP_RemoveSpawn"@ != "OP_GroundSpawn"@,
        "OP_RemoveSpawn"@ != "OP_GroupFollow"@,
        "OP_RemoveSpawn"@ != "OP_GroupUpdate"@,
        "OP_DeleteSpawn"@ != "OP_SpawnRename"@,
        "OP_DeleteSpawn"@ != "OP_LoadoutSwap"@,
        "OP_DeleteSpawn"@ != "OP_ClickObject"@,
        "OP_DeleteSpawn"@ != "OP_TargetMouse"@,
        "OP_DeleteSpawn"@ != "OP_SpecialMesg"@,
        "OP_DeleteSpawn"@ != "OP_LootMessage"@,
        "OP_DeleteSpawn"@ != "OP_LevelUpdate"@,
        "OP_DeleteSpawn"@ != "OP_AAExpUpdate"@,
        "OP_DeleteSpawn"@ != "OP_SkillUpdate"@,
        "OP_DeleteSpawn"@ != "OP_MoneyUpdate"@,
        "OP_DeleteSpawn"@ != "OP_SendAATable"@,
        "OP_DeleteSpawn"@ != "OP_GroundSpawn"@,
        "OP_DeleteSpawn"@ != "OP_GroupFollow"@,
        "OP_DeleteSpawn"@ != "OP_GroupUpdate"@,
        "OP_SpawnRename"@ != "OP_LoadoutSwap"@,
        "OP_SpawnRename"@ != "OP_ClickObject"@,
        "OP_SpawnRename"@ != "OP_TargetMouse"@,
        "OP_SpawnRename"@ != "OP_SpecialMesg"@,
        "OP_SpawnRename"@ != "OP_LootMessage"@,
        "OP_SpawnRename"@ != "OP_LevelUpdate"@,
        "OP_SpawnRename"@ != "OP_AAExpUpdate"@,
        "OP_SpawnRename"@ != "OP_SkillUpdate"@,
        "OP_SpawnRename"@ != "OP_MoneyUpdate"@,
        "OP_SpawnRename"@ != "OP_SendAATable"@,
        "OP_SpawnRename"@ != "OP_GroundSpawn"@,
        "OP_SpawnRename"@ != "OP_GroupFollow"@,
        "OP_SpawnRename"@ != "OP_GroupUpdate"@,
        "OP_HPUpdate"@ != "OP_Illusion"@,
        "OP_HPUpdate"@ != "OP_Consider"@,
        "OP_HPUpdate"@ != "OP_BuffList"@,
        "OP_NewZone"@ != "OP_SelfPos"@,
        "OP_NewZone"@ != "OP_Action2"@,
        "OP_NewZone"@ != "OP_Stamina"@,
        "OP_GuildsInZoneList"@ != "OP_SpawnAppearance2"@,
        "OP_GuildsInZoneList"@ != "OP_FormattedMessage"@,
        "OP_NewGuildInZone"@ != "OP_ZoneServerInfo"@,
        "OP_NewGuildInZone"@ != "OP_SendZonePoints"@,
        "OP_PlayerProfile"@ != "OP_InspectAnswer"@,
        "OP_PlayerProfile"@ != "OP_CommonMessage"@,
        "OP_PlayerProfile"@ != "OP_SimpleMessage"@,
        "OP_PlayerProfile"@ != "OP_GroupDisband2"@,
        "OP_ZoneChange"@ != "OP_Invocation"@,
        "OP_ZoneChange"@ != "OP_ItemPacket"@,
        "OP_ZoneChange"@ != "OP_ManaChange"@,
        "OP_ZoneChange"@ != "OP_EnterWorld"@,
        "OP_LoadoutSwap"@ != "OP_ClickObject"@,
        "OP_LoadoutSwap"@ != "OP_TargetMouse"@,
        "OP_LoadoutSwap"@ != "OP_SpecialMesg"@,
        "OP_LoadoutSwap"@ != "OP_LootMessage"@,
        "OP_LoadoutSwap"@ != "OP_LevelUpdate"@,
        "OP_LoadoutSwap"@ != "OP_AAExpUpdate"@,
        "OP_LoadoutSwap"@ != "OP_SkillUpdate"@,
        "OP_LoadoutSwap"@ != "OP_MoneyUpdate"@,
        "OP_LoadoutSwap"@ != "OP_SendAATable"@,
        "OP_LoadoutSwap"@ != "OP_GroundSpawn"@,
        "OP_LoadoutSwap"@ != "OP_GroupFollow"@,
        "OP_LoadoutSwap"@ != "OP_GroupUpdate"@,
        "OP_ClickObject"@ != "OP_TargetMouse"@,
        "OP_ClickObject"@ != "OP_SpecialMesg"@,
        "OP_ClickObject"@ != "OP_LootMessage"@,
        "OP_ClickObject"@ != "OP_LevelUpdate"@,
        "OP_ClickObject"@ != "OP_AAExpUpdate"@,
        "OP_ClickObject"@ != "OP_SkillUpdate"@,
        "OP_ClickObject"@ != "OP_MoneyUpdate"@,
        "OP_ClickObject"@ != "OP_SendAATable"@,
        "OP_ClickObject"@ != "OP_GroundSpawn"@,
        "OP_ClickObject"@ != "OP_GroupFollow"@,
        "OP_ClickObject"@ != "OP_GroupUpdate"@,
        "OP_SpawnAppearance"@ != "OP_GuildMemberList"@,
        "OP_SpawnAppearance"@ != "OP_LootTransaction"@,
        "OP_SpawnAppearance"@ != "OP_GroupMemberList"@,
        "OP_SpawnAppearance2"@ != "OP_FormattedMessage"@,
        "OP_TimeOfDay"@ != "OP_GuildMOTD"@,
        "OP_TimeOfDay"@ != "OP_BeginCast"@,
        "OP_TimeOfDay"@ != "OP_CastSpell"@,
        "OP_TimeOfDay"@ != "OP_ExpUpdate"@,
        "OP_TimeOfDay"@ != "OP_LootDrops"@,
        "OP_TimeOfDay"@ != "OP_BuffList2"@,
        "OP_TimeOfDay"@ != "OP_BuffList3"@,
        "OP_TimeOfDay"@ != "OP_SpawnDoor"@,
        "OP_Stance"@ != "OP_Action"@,
        "OP_Stance"@ != "OP_DzInfo"@,
        "OP_Invocation"@ != "OP_ItemPacket"@,
        "OP_Invocation"@ != "OP_ManaChange"@,
        "OP_Invocation"@ != "OP_EnterWorld"@,
        "OP_GuildMemberList"@ != "OP_LootTransaction"@,
        "OP_GuildMemberList"@ != "OP_GroupMemberList"@,
        "OP_ItemPacket"@ != "OP_ManaChange"@,
        "OP_ItemPacket"@ != "OP_EnterWorld"@,
        "OP_ZoneServerInfo"@ != "OP_SendZonePoints"@,
        "OP_GuildMOTD"@ != "OP_BeginCast"@,
        "OP_GuildMOTD"@ != "OP_CastSpell"@,
        "OP_GuildMOTD"@ != "OP_ExpUpdate"@,
        "OP_GuildMOTD"@ != "OP_LootDrops"@,
        "OP_GuildMOTD"@ != "OP_BuffList2"@,
        "OP_GuildMOTD"@ != "OP_BuffList3"@,
        "OP_GuildMOTD"@ != "OP_SpawnDoor"@,
        "OP_ExpandedGuildInfo"@ != "OP_CorpseLocResponse"@,
        "OP_InspectAnswer"@ != "OP_CommonMessage"@,
        "OP_InspectAnswer"@ != "OP_SimpleMessage"@,
        "OP_InspectAnswer"@ != "OP_GroupDisband2"@,
        "OP_ClientUpdate"@ != "OP_GroupDisband"@,
        "OP_ClientUpdate"@ != "OP_DzSwitchInfo"@,
        "OP_SelfPos"@ != "OP_Action2"@,
        "OP_SelfPos"@ != "OP_Stamina"@,
        "OP_Illusion"@ != "OP_Consider"@,
        "OP_Illusion"@ != "OP_BuffList"@,
        "OP_Action"@ != "OP_DzInfo"@,
        "OP_Action2"@ != "OP_Stamina"@,
        "OP_BeginCast"@ != "OP_CastSpell"@,
        "OP_BeginCast"@ != "OP_ExpUpdate"@,
        "OP_BeginCast"@ != "OP_LootDrops"@,
        "OP_BeginCast"@ != "OP_BuffList2"@,
        "OP_BeginCast"@ != "OP_BuffList3"@,
        "OP_BeginCast"@ != "OP_SpawnDoor"@,
        "OP_CastSpell"@ != "OP_ExpUpdate"@,
        "OP_CastSpell"@ != "OP_LootDrops"@,
        "OP_CastSpell"@ != "OP_BuffList2"@,
        "OP_CastSpell"@ != "OP_BuffList3"@,
        "OP_CastSpell"@ != "OP_SpawnDoor"@,
        "OP_TargetMouse"@ != "OP_SpecialMesg"@,
        "OP_TargetMouse"@ != "OP_LootMessage"@,
        "OP_TargetMouse"@ != "OP_LevelUpdate"@,
        "OP_TargetMouse"@ != "OP_AAExpUpdate"@,
        "OP_TargetMouse"@ != "OP_SkillUpdate"@,
        "OP_TargetMouse"@ != "OP_MoneyUpdate"@,
        "OP_TargetMouse"@ != "OP_SendAATable"@,
        "OP_TargetMouse"@ != "OP_GroundSpawn"@,
        "OP_TargetMouse"@ != "OP_GroupFollow"@,
        "OP_TargetMouse"@ != "OP_GroupUpdate"@,
        "OP_Consider"@ != "OP_BuffList"@,
        "OP_CommonMessage"@ != "OP_SimpleMessage"@,
        "OP_CommonMessage"@ != "OP_GroupDisband2"@,
        "OP_SimpleMessage"@ != "OP_GroupDisband2"@,
        "OP_SpecialMesg"@ != "OP_LootMessage"@,
        "OP_SpecialMesg"@ != "OP_LevelUpdate"@,
        "OP_SpecialMesg"@ != "OP_AAExpUpdate"@,
        "OP_SpecialMesg"@ != "OP_SkillUpdate"@,
        "OP_SpecialMesg"@ != "OP_MoneyUpdate"@,
        "OP_SpecialMesg"@ != "OP_SendAATable"@,
        "OP_SpecialMesg"@ != "OP_GroundSpawn"@,
        "OP_SpecialMesg"@ != "OP_GroupFollow"@,
        "OP_SpecialMesg"@ != "OP_GroupUpdate"@,
        "OP_LootMessage"@ != "OP_LevelUpdate"@,
        "OP_LootMessage"@ != "OP_AAExpUpdate"@,
        "OP_LootMessage"@ != "OP_SkillUpdate"@,
        "OP_LootMessage"@ != "OP_MoneyUpdate"@,
        "OP_LootMessage"@ != "OP_SendAATable"@,
        "OP_LootMessage"@ != "OP_GroundSpawn"@,
        "OP_LootMessage"@ != "OP_GroupFollow"@,
        "OP_LootMessage"@ != "OP_GroupUpdate"@,
        "OP_ExpUpdate"@ != "OP_LootDrops"@,
        "OP_ExpUpdate"@ != "OP_BuffList2"@,
        "OP_ExpUpdate"@ != "OP_BuffList3"@,
        "OP_ExpUpdate"@ != "OP_SpawnDoor"@,
        "OP_LevelUpdate"@ != "OP_AAExpUpdate"@,
        "OP_LevelUpdate"@ != "OP_SkillUpdate"@,
        "OP_LevelUpdate"@ != "OP_MoneyUpdate"@,
        "OP_LevelUpdate"@ != "OP_SendAATable"@,
        "OP_LevelUpdate"@ != "OP_GroundSpawn"@,
        "OP_LevelUpdate"@ != "OP_GroupFollow"@,
        "OP_LevelUpdate"@ != "OP_GroupUpdate"@,
        "OP_AAExpUpdate"@ != "OP_SkillUpdate"@,
        "OP_AAExpUpdate"@ != "OP_MoneyUpdate"@,
        "OP_AAExpUpdate"@ != "OP_SendAATable"@,
        "OP_AAExpUpdate"@ != "OP_GroundSpawn"@,
        "OP_AAExpUpdate"@ != "OP_GroupFollow"@,
        "OP_AAExpUpdate"@ != "OP_GroupUpdate"@,
        "OP_ManaChange"@ != "OP_EnterWorld"@,
        "OP_SkillUpdate"@ != "OP_MoneyUpdate"@,
        "OP_SkillUpdate"@ != "OP_SendAATable"@,
        "OP_SkillUpdate"@ != "OP_GroundSpawn"@,
        "OP_SkillUpdate"@ != "OP_GroupFollow"@,
        "OP_SkillUpdate"@ != "OP_GroupUpdate"@,
        "OP_LootTransaction"@ != "OP_GroupMemberList"@,
        "OP_LootDrops"@ != "OP_BuffList2"@,
        "OP_LootDrops"@ != "OP_BuffList3"@,
        "OP_LootDrops"@ != "OP_SpawnDoor"@,
        "OP_MoneyUpdate"@ != "OP_SendAATable"@,
        "OP_MoneyUpdate"@ != "OP_GroundSpawn"@,
        "OP_MoneyUpdate"@ != "OP_GroupFollow"@,
        "OP_MoneyUpdate"@ != "OP_GroupUpdate"@,
        "OP_SendAATable"@ != "OP_GroundSpawn"@,
        "OP_SendAATable"@ != "OP_GroupFollow"@,
        "OP_SendAATable"@ != "OP_GroupUpdate"@,
        "OP_BuffList2"@ != "OP_BuffList3"@,
        "OP_BuffList2"@ != "OP_SpawnDoor"@,
        "OP_BuffList3"@ != "OP_SpawnDoor"@,
        "OP_GroundSpawn"@ != "OP_GroupFollow"@,
        "OP_GroundSpawn"@ != "OP_GroupUpdate"@,
        "OP_GroupFollow"@ != "OP_GroupUpdate"@,
        "OP_GroupDisband"@ != "OP_DzSwitchInfo"@,
{
    reveal_strlit("OP_ZoneEntry");
    reveal_strlit("OP_MobUpdate");
    reveal_strlit("OP_NpcMoveUpdate");
    reveal_strlit("OP_RemoveSpawn");
    reveal_strlit("OP_DeleteSpawn");
    reveal_strlit("OP_SpawnRename");
    reveal_strlit("OP_Death");
    reveal_strlit("OP_HPUpdate");
    reveal_strlit("OP_NewZone");
    reveal_strlit("OP_GuildsInZoneList");
    reveal_strlit("OP_NewGuildInZone");
    reveal_strlit("OP_PlayerProfile");
    reveal_strlit("OP_ZoneChange");
    reveal_strlit("OP_LoadoutSwap");
    reveal_strlit("OP_ClickObject");
    reveal_strlit("OP_SpawnAppearance");
    reveal_strlit("OP_SpawnAppearance2");
    reveal_strlit("OP_TimeOfDay");
    reveal_strlit("OP_Stance");
    reveal_strlit("OP_Invocation");
    reveal_strlit("OP_GuildMemberList");
    reveal_strlit("OP_ItemPacket");
    reveal_strlit("OP_ZoneServerInfo");
    reveal_strlit("OP_GuildMOTD");
    reveal_strlit("OP_ExpandedGuildInfo");
    reveal_strlit("OP_InspectAnswer");
    reveal_strlit("OP_ClientUpdate");
    reveal_strlit("OP_SelfPos");
    reveal_strlit("OP_Illusion");
    reveal_strlit("OP_Action");
    reveal_strlit("OP_Action2");
    reveal_strlit("OP_BeginCast");
    reveal_strlit("OP_CastSpell");
    reveal_strlit("OP_Buff");
    reveal_strlit("OP_TargetMouse");
    reveal_strlit("OP_Consider");
    reveal_strlit("OP_CommonMessage");
    reveal_strlit("OP_SimpleMessage");
    reveal_strlit("OP_FormattedMessage");
    reveal_strlit("OP_SpecialMesg");
    reveal_strlit("OP_LootMessage");
    reveal_strlit("OP_ExpUpdate");
    reveal_strlit("OP_LevelUpdate");
    reveal_strlit("OP_AAExpUpdate");
    reveal_strlit("OP_ManaChange");
    reveal_strlit("OP_Stamina");
    reveal_strlit("OP_SkillUpdate");
    reveal_strlit("OP_LootTransaction");
    reveal_strlit("OP_LootDrops");
    reveal_strlit("OP_MoneyUpdate");
    reveal_strlit("OP_SendAATable");
    reveal_strlit("OP_BuffList");
    reveal_strlit("OP_BuffList2");
    reveal_strlit("OP_BuffList3");
    reveal_strlit("OP_GroundSpawn");
    reveal_strlit("OP_SpawnDoor");
    reveal_strlit("OP_CorpseLocResponse");
    reveal_strlit("OP_SendZonePoints");
    reveal_strlit("OP_GroupFollow");
    reveal_strlit("OP_GroupDisband");
    reveal_strlit("OP_GroupDisband2");
    reveal_strlit("OP_GroupMemberList");
    reveal_strlit("OP_GroupUpdate");
    reveal_strlit("OP_DzInfo");
    reveal_strlit("OP_DzSwitchInfo");
    reveal_strlit("OP_EnterWorld");
    assert("OP_ZoneEntry"@[3] != "OP_MobUpdate"@[3]);
    assert("OP_ZoneEntry"@[3] != "OP_TimeOfDay"@[3]);
    assert("OP_ZoneEntry"@[3] != "OP_GuildMOTD"@[3]);
    assert("OP_ZoneEntry"@[3] != "OP_BeginCast"@[3]);
    assert("OP_ZoneEntry"@[3] != "OP_CastSpell"@[3]);
    assert("OP_ZoneEntry"@[3] != "OP_ExpUpdate"@[3]);
    assert("OP_ZoneEntry"@[3] != "OP_LootDrops"@[3]);
    assert("OP_ZoneEntry"@[3] != "OP_BuffList2"@[3]);
    assert("OP_ZoneEntry"@[3] != "OP_BuffList3"@[3]);
    assert("OP_ZoneEntry"@[3] != "OP_SpawnDoor"@[3]);
    assert("OP_MobUpdate"@[3] != "OP_TimeOfDay"@[3]);
    assert("OP_MobUpdate"@[3] != "OP_GuildMOTD"@[3]);
    assert("OP_MobUpdate"@[3] != "OP_BeginCast"@[3]);
    assert("OP_MobUpdate"@[3] != "OP_CastSpell"@[3]);
    assert("OP_MobUpdate"@[3] != "OP_ExpUpdate"@[3]);
    assert("OP_MobUpdate"@[3] != "OP_LootDrops"@[3]);
    assert("OP_MobUpdate"@[3] != "OP_BuffList2"@[3]);
    assert("OP_MobUpdate"@[3] != "OP_BuffList3"@[3]);
    assert("OP_MobUpdate"@[3] != "OP_SpawnDoor"@[3]);
    assert("OP_NpcMoveUpdate"@[3] != "OP_PlayerProfile"@[3]);
    assert("OP_NpcMoveUpdate"@[3] != "OP_InspectAnswer"@[3]);
    assert("OP_NpcMoveUpdate"@[3] != "OP_CommonMessage"@[3]);
    assert("OP_NpcMoveUpdate"@[3] != "OP_SimpleMessage"@[3]);
    assert("OP_NpcMoveUpdate"@[3] != "OP_GroupDisband2"@[3]);
    assert("OP_RemoveSpawn"@[3] != "OP_DeleteSpawn"@[3]);
    assert("OP_RemoveSpawn"@[3] != "OP_SpawnRename"@[3]);
    assert("OP_RemoveSpawn"@[3] != "OP_LoadoutSwap"@[3]);
    assert("OP_RemoveSpawn"@[3] != "OP_ClickObject"@[3]);
    assert("OP_RemoveSpawn"@[3] != "OP_TargetMouse"@[3]);
    assert("OP_RemoveSpawn"@[3] != "OP_SpecialMesg"@[3]);
    assert("OP_RemoveSpawn"@[3] != "OP_LootMessage"@[3]);
    assert("OP_RemoveSpawn"@[3] != "OP_LevelUpdate"@[3]);
    assert("OP_RemoveSpawn"@[3] != "OP_AAExpUpdate"@[3]);
    assert("OP_RemoveSpawn"@[3] != "OP_SkillUpdate"@[3]);
    assert("OP_RemoveSpawn"@[3] != "OP_MoneyUpdate"@[3]);
    assert("OP_RemoveSpawn"@[3] != "OP_SendAATable"@[3]);
    assert("OP_RemoveSpawn"@[3] != "OP_GroundSpawn"@[3]);
    assert("OP_RemoveSpawn"@[3] != "OP_GroupFollow"@[3]);
    assert("OP_RemoveSpawn"@[3] != "OP_GroupUpdate"@[3]);
    assert("OP_DeleteSpawn"@[3] != "OP_SpawnRename"@[3]);
    assert("OP_DeleteSpawn"@[3] != "OP_LoadoutSwap"@[3]);
    assert("OP_DeleteSpawn"@[3] != "OP_ClickObject"@[3]);
    assert("OP_DeleteSpawn"@[3] != "OP_TargetMouse"@[3]);
    assert("OP_DeleteSpawn"@[3] != "OP_SpecialMesg"@[3]);
    assert("OP_DeleteSpawn"@[3] != "OP_LootMessage"@[3]);
    assert("OP_DeleteSpawn"@[3] != "OP_LevelUpdate"@[3]);
    assert("OP_DeleteSpawn"@[3] != "OP_AAExpUpdate"@[3]);
    assert("OP_DeleteSpawn"@[3] != "OP_SkillUpdate"@[3]);
    assert("OP_DeleteSpawn"@[3] != "OP_MoneyUpdate"@[3]);
    assert("OP_DeleteSpawn"@[3] != "OP_SendAATable"@[3]);
    assert("OP_DeleteSpawn"@[3] != "OP_GroundSpawn"@[3]);
    assert("OP_DeleteSpawn"@[3] != "OP_GroupFollow"@[3]);
    assert("OP_DeleteSpawn"@[3] != "OP_GroupUpdate"@[3]);
    assert("OP_SpawnRename"@[3] != "OP_LoadoutSwap"@[3]);
    assert("OP_SpawnRename"@[3] != "OP_ClickObject"@[3]);
    assert("OP_SpawnRename"@[3] != "OP_TargetMouse"@[3]);
    assert("OP_SpawnRename"@[5] != "OP_SpecialMesg"@[5]);
    assert("OP_SpawnRename"@[3] != "OP_LootMessage"@[3]);
    assert("OP_SpawnRename"@[3] != "OP_LevelUpdate"@[3]);
    assert("OP_SpawnRename"@[3] != "OP_AAExpUpdate"@[3]);
    assert("OP_SpawnRename"@[4] != "OP_SkillUpdate"@[4]);
    assert("OP_SpawnRename"@[3] != "OP_MoneyUpdate"@[3]);
    assert("OP_SpawnRename"@[4] != "OP_SendAATable"@[4]);
    assert("OP_SpawnRename"@[3] != "OP_GroundSpawn"@[3]);
    assert("OP_SpawnRename"@[3] != "OP_GroupFollow"@[3]);
    assert("OP_SpawnRename"@[3] != "OP_GroupUpdate"@[3]);
    assert("OP_HPUpdate"@[3] != "OP_Illusion"@[3]);
    assert("OP_HPUpdate"@[3] != "OP_Consider"@[3]);
    assert("OP_HPUpdate"@[3] != "OP_BuffList"@[3]);
    assert("OP_NewZone"@[3] != "OP_SelfPos"@[3]);
    assert("OP_NewZone"@[3] != "OP_Action2"@[3]);
    assert("OP_NewZone"@[3] != "OP_Stamina"@[3]);
    assert("OP_GuildsInZoneList"@[3] != "OP_SpawnAppearance2"@[3]);
    assert("OP_GuildsInZoneList"@[3] != "OP_FormattedMessage"@[3]);
    assert("OP_NewGuildInZone"@[3] != "OP_ZoneServerInfo"@[3]);
    assert("OP_NewGuildInZone"@[3] != "OP_SendZonePoints"@[3]);
    assert("OP_PlayerProfile"@[3] != "OP_InspectAnswer"@[3]);
    assert("OP_PlayerProfile"@[3] != "OP_CommonMessage"@[3]);
    assert("OP_PlayerProfile"@[3] != "OP_SimpleMessage"@[3]);
    assert("OP_PlayerProfile"@[3] != "OP_GroupDisband2"@[3]);
    assert("OP_ZoneChange"@[3] != "OP_Invocation"@[3]);
    assert("OP_ZoneChange"@[3] != "OP_ItemPacket"@[3]);
    assert("OP_ZoneChange"@[3] != "OP_ManaChange"@[3]);
    assert("OP_ZoneChange"@[3] != "OP_EnterWorld"@[3]);
    assert("OP_LoadoutSwap"@[3] != "OP_ClickObject"@[3]);
    assert("OP_LoadoutSwap"@[3] != "OP_TargetMouse"@[3]);
    assert("OP_LoadoutSwap"@[3] != "OP_SpecialMesg"@[3]);
    assert("OP_LoadoutSwap"@[5] != "OP_LootMessage"@[5]);
    assert("OP_LoadoutSwap"@[4] != "OP_LevelUpdate"@[4]);
    assert("OP_LoadoutSwap"@[3] != "OP_AAExpUpdate"@[3]);
    assert("OP_LoadoutSwap"@[3] != "OP_SkillUpdate"@[3]);
    assert("OP_LoadoutSwap"@[3] != "OP_MoneyUpdate"@[3]);
    assert("OP_LoadoutSwap"@[3] != "OP_SendAATable"@[3]);
    assert("OP_LoadoutSwap"@[3] != "OP_GroundSpawn"@[3]);
    assert("OP_LoadoutSwap"@[3] != "OP_GroupFollow"@[3]);
    assert("OP_LoadoutSwap"@[3] != "OP_GroupUpdate"@[3]);
    assert("OP_ClickObject"@[3] != "OP_TargetMouse"@[3]);
    assert("OP_ClickObject"@[3] != "OP_SpecialMesg"@[3]);
    assert("OP_ClickObject"@[3] != "OP_LootMessage"@[3]);
    assert("OP_ClickObject"@[3] != "OP_LevelUpdate"@[3]);
    assert("OP_ClickObject"@[3] != "OP_AAExpUpdate"@[3]);
    assert("OP_ClickObject"@[3] != "OP_SkillUpdate"@[3]);
    assert("OP_ClickObject"@[3] != "OP_MoneyUpdate"@[3]);
    assert("OP_ClickObject"@[3] != "OP_SendAATable"@[3]);
    assert("OP_ClickObject"@[3] != "OP_GroundSpawn"@[3]);
    assert("OP_ClickObject"@[3] != "OP_GroupFollow"@[3]);
    assert("OP_ClickObject"@[3] != "OP_GroupUpdate"@[3]);
    assert("OP_SpawnAppearance"@[3] != "OP_GuildMemberList"@[3]);
    assert("OP_SpawnAppearance"@[3] != "OP_LootTransaction"@[3]);
    assert("OP_SpawnAppearance"@[3] != "OP_GroupMemberList"@[3]);
    assert("OP_SpawnAppearance2"@[3] != "OP_FormattedMessage"@[3]);
    assert("OP_TimeOfDay"@[3] != "OP_GuildMOTD"@[3]);
    assert("OP_TimeOfDay"@[3] != "OP_BeginCast"@[3]);
    assert("OP_TimeOfDay"@[3] != "OP_CastSpell"@[3]);
    assert("OP_TimeOfDay"@[3] != "OP_ExpUpdate"@[3]);
    assert("OP_TimeOfDay"@[3] != "OP_LootDrops"@[3]);
    assert("OP_TimeOfDay"@[3] != "OP_BuffList2"@[3]);
    assert("OP_TimeOfDay"@[3] != "OP_BuffList3"@[3]);
    assert("OP_TimeOfDay"@[3] != "OP_SpawnDoor"@[3]);
    assert("OP_Stance"@[3] != "OP_Action"@[3]);
    assert("OP_Stance"@[3] != "OP_DzInfo"@[3]);
    assert("OP_Invocation"@[4] != "OP_ItemPacket"@[4]);
    assert("OP_Invocation"@[3] != "OP_ManaChange"@[3]);
    assert("OP_Invocation"@[3] != "OP_EnterWorld"@[3]);
    assert("OP_GuildMemberList"@[3] != "OP_LootTransaction"@[3]);
    assert("OP_GuildMemberList"@[4] != "OP_GroupMemberList"@[4]);
    assert("OP_ItemPacket"@[3] != "OP_ManaChange"@[3]);
    assert("OP_ItemPacket"@[3] != "OP_EnterWorld"@[3]);
    assert("OP_ZoneServerInfo"@[3] != "OP_SendZonePoints"@[3]);
    assert("OP_GuildMOTD"@[3] != "OP_BeginCast"@[3]);
    assert("OP_GuildMOTD"@[3] != "OP_CastSpell"@[3]);
    assert("OP_GuildMOTD"@[3] != "OP_ExpUpdate"@[3]);
    assert("OP_GuildMOTD"@[3] != "OP_LootDrops"@[3]);
    assert("OP_GuildMOTD"@[3] != "OP_BuffList2"@[3]);
    assert("OP_GuildMOTD"@[3] != "OP_BuffList3"@[3]);
    assert("OP_GuildMOTD"@[3] != "OP_SpawnDoor"@[3]);
    assert("OP_ExpandedGuildInfo"@[3] != "OP_CorpseLocResponse"@[3]);
    assert("OP_InspectAnswer"@[3] != "OP_CommonMessage"@[3]);
    assert("OP_InspectAnswer"@[3] != "OP_SimpleMessage"@[3]);
    assert("OP_InspectAnswer"@[3] != "OP_GroupDisband2"@[3]);
    assert("OP_ClientUpdate"@[3] != "OP_GroupDisband"@[3]);
    assert("OP_ClientUpdate"@[3] != "OP_DzSwitchInfo"@[3]);
    assert("OP_SelfPos"@[3] != "OP_Action2"@[3]);
    assert("OP_SelfPos"@[4] != "OP_Stamina"@[4]);
    assert("OP_Illusion"@[3] != "OP_Consider"@[3]);
    assert("OP_Illusion"@[3] != "OP_BuffList"@[3]);
    assert("OP_Action"@[3] != "OP_DzInfo"@[3]);
    assert("OP_Action2"@[3] != "OP_Stamina"@[3]);
    assert("OP_BeginCast"@[3] != "OP_CastSpell"@[3]);
    assert("OP_BeginCast"@[3] != "OP_ExpUpdate"@[3]);
    assert("OP_BeginCast"@[3] != "OP_LootDrops"@[3]);
    assert("OP_BeginCast"@[4] != "OP_BuffList2"@[4]);
    assert("OP_BeginCast"@[4] != "OP_BuffList3"@[4]);
    assert("OP_BeginCast"@[3] != "OP_SpawnDoor"@[3]);
    assert("OP_CastSpell"@[3] != "OP_ExpUpdate"@[3]);
    assert("OP_CastSpell"@[3] != "OP_LootDrops"@[3]);
    assert("OP_CastSpell"@[3] != "OP_BuffList2"@[3]);
    assert("OP_CastSpell"@[3] != "OP_BuffList3"@[3]);
    assert("OP_CastSpell"@[3] != "OP_SpawnDoor"@[3]);
    assert("OP_TargetMouse"@[3] != "OP_SpecialMesg"@[3]);
    assert("OP_TargetMouse"@[3] != "OP_LootMessage"@[3]);
    assert("OP_TargetMouse"@[3] != "OP_LevelUpdate"@[3]);
    assert("OP_TargetMouse"@[3] != "OP_AAExpUpdate"@[3]);
    assert("OP_TargetMouse"@[3] != "OP_SkillUpdate"@[3]);
    assert("OP_TargetMouse"@[3] != "OP_MoneyUpdate"@[3]);
    assert("OP_TargetMouse"@[3] != "OP_SendAATable"@[3]);
    assert("OP_TargetMouse"@[3] != "OP_GroundSpawn"@[3]);
    assert("OP_TargetMouse"@[3] != "OP_GroupFollow"@[3]);
    assert("OP_TargetMouse"@[3] != "OP_GroupUpdate"@[3]);
    assert("OP_Consider"@[3] != "OP_BuffList"@[3]);
    assert("OP_CommonMessage"@[3] != "OP_SimpleMessage"@[3]);
    assert("OP_CommonMessage"@[3] != "OP_GroupDisband2"@[3]);
    assert("OP_SimpleMessage"@[3] != "OP_GroupDisband2"@[3]);
    assert("OP_SpecialMesg"@[3] != "OP_LootMessage"@[3]);
    assert("OP_SpecialMesg"@[3] != "OP_LevelUpdate"@[3]);
    assert("OP_SpecialMesg"@[3] != "OP_AAExpUpdate"@[3]);
    assert("OP_SpecialMesg"@[4] != "OP_SkillUpdate"@[4]);
    assert("OP_SpecialMesg"@[3] != "OP_MoneyUpdate"@[3]);
    assert("OP_SpecialMesg"@[4] != "OP_SendAATable"@[4]);
    assert("OP_SpecialMesg"@[3] != "OP_GroundSpawn"@[3]);
    assert("OP_SpecialMesg"@[3] != "OP_GroupFollow"@[3]);
    assert("OP_SpecialMesg"@[3] != "OP_GroupUpdate"@[3]);
    assert("OP_LootMessage"@[4] != "OP_LevelUpdate"@[4]);
    assert("OP_LootMessage"@[3] != "OP_AAExpUpdate"@[3]);
    assert("OP_LootMessage"@[3] != "OP_SkillUpdate"@[3]);
    assert("OP_LootMessage"@[3] != "OP_MoneyUpdate"@[3]);
    assert("OP_LootMessage"@[3] != "OP_SendAATable"@[3]);
    assert("OP_LootMessage"@[3] != "OP_GroundSpawn"@[3]);
    assert("OP_LootMessage"@[3] != "OP_GroupFollow"@[3]);
    assert("OP_LootMessage"@[3] != "OP_GroupUpdate"@[3]);
    assert("OP_ExpUpdate"@[3] != "OP_LootDrops"@[3]);
    assert("OP_ExpUpdate"@[3] != "OP_BuffList2"@[3]);
    assert("OP_ExpUpdate"@[3] != "OP_BuffList3"@[3]);
    assert("OP_ExpUpdate"@[3] != "OP_SpawnDoor"@[3]);
    assert("OP_LevelUpdate"@[3] != "OP_AAExpUpdate"@[3]);
    assert("OP_LevelUpdate"@[3] != "OP_SkillUpdate"@[3]);
    assert("OP_LevelUpdate"@[3] != "OP_MoneyUpdate"@[3]);
    assert("OP_LevelUpdate"@[3] != "OP_SendAATable"@[3]);
    assert("OP_LevelUpdate"@[3] != "OP_GroundSpawn"@[3]);
    assert("OP_LevelUpdate"@[3] != "OP_GroupFollow"@[3]);
    assert("OP_LevelUpdate"@[3] != "OP_GroupUpdate"@[3]);
    assert("OP_AAExpUpdate"@[3] != "OP_SkillUpdate"@[3]);
    assert("OP_AAExpUpdate"@[3] != "OP_MoneyUpdate"@[3]);
    assert("OP_AAExpUpdate"@[3] != "OP_SendAATable"@[3]);
    assert("OP_AAExpUpdate"@[3] != "OP_GroundSpawn"@[3]);
    assert("OP_AAExpUpdate"@[3] != "OP_GroupFollow"@[3]);
    assert("OP_AAExpUpdate"@[3] != "OP_GroupUpdate"@[3]);
    assert("OP_ManaChange"@[3] != "OP_EnterWorld"@[3]);
    assert("OP_SkillUpdate"@[3] != "OP_MoneyUpdate"@[3]);
    assert("OP_SkillUpdate"@[4] != "OP_SendAATable"@[4]);
    assert("OP_SkillUpdate"@[3] != "OP_GroundSpawn"@[3]);
    assert("OP_SkillUpdate"@[3] != "OP_GroupFollow"@[3]);
    assert("OP_SkillUpdate"@[3] != "OP_GroupUpdate"@[3]);
    assert("OP_LootTransaction"@[3] != "OP_GroupMemberList"@[3]);
    assert("OP_LootDrops"@[3] != "OP_BuffList2"@[3]);
    assert("OP_LootDrops"@[3] != "OP_BuffList3"@[3]);
    assert("OP_LootDrops"@[3] != "OP_SpawnDoor"@[3]);
    assert("OP_MoneyUpdate"@[3] != "OP_SendAATable"@[3]);
    assert("OP_MoneyUpdate"@[3] != "OP_GroundSpawn"@[3]);
    assert("OP_MoneyUpdate"@[3] != "OP_GroupFollow"@[3]);
    assert("OP_MoneyUpdate"@[3] != "OP_GroupUpdate"@[3]);
    assert("OP_SendAATable"@[3] != "OP_GroundSpawn"@[3]);
    assert("OP_SendAATable"@[3] != "OP_GroupFollow"@[3]);
    assert("OP_SendAATable"@[3] != "OP_GroupUpdate"@[3]);
    assert("OP_BuffList2"@[11] != "OP_BuffList3"@[11]);
    assert("OP_BuffList2"@[3] != "OP_SpawnDoor"@[3]);
    assert("OP_BuffList3"@[3] != "OP_SpawnDoor"@[3]);
    assert("OP_GroundSpawn"@[7] != "OP_GroupFollow"@[7]);
    assert("OP_GroundSpawn"@[7] != "OP_GroupUpdate"@[7]);
    assert("OP_GroupFollow"@[8] != "OP_GroupUpdate"@[8]);
    assert("OP_GroupDisband"@[3] != "OP_DzSwitchInfo"@[3]);
}

/// The EQ Legends opcode table, opcode by opcode and way by way: the
/// decoder each packet reaches, or that it is ignored. Server-only opcodes
/// are decoded from the server and ignored from the client; client-only
/// ones the other way round; the client's copies of server messages, the
/// client's click request and the status push `OP_GroupUpdate` are
/// ignored.
pub proof fn law_eql_table()
    ensures
        eql_route("OP_ZoneEntry"@, Dir::ServerToClient) == Route::Decode(Handler::Spawn),
        eql_route("OP_ZoneEntry"@, Dir::ClientToServer) == Route::Ignored,
        eql_route("OP_MobUpdate"@, Dir::ServerToClient) == Route::Decode(Handler::MobUpdate),
        eql_route("OP_MobUpdate"@, Dir::ClientToServer) == Route::Ignored,
        eql_route("OP_NpcMoveUpdate"@, Dir::ServerToClient) == Route::Decode(Handler::NpcMoveUpdate),
        eql_route("OP_NpcMoveUpdate"@, Dir::ClientToServer) == Route::Ignored,
        eql_route("OP_RemoveSpawn"@, Dir::ServerToClient) == Route::Decode(Handler::RemoveSpawn),
        eql_route("OP_RemoveSpawn"@, Dir::ClientToServer) == Route::Decode(Handler::RemoveSpawn),
        eql_route("OP_DeleteSpawn"@, Dir::ServerToClient) == Route::Decode(Handler::DeleteSpawn),
        eql_route("OP_DeleteSpawn"@, Dir::ClientToServer) == Route::Decode(Handler::DeleteSpawn),
        eql_route("OP_SpawnRename"@, Dir::ServerToClient) == Route::Decode(Handler::SpawnRename),
        eql_route("OP_SpawnRename"@, Dir::ClientToServer) == Route::Ignored,
        eql_route("OP_Death"@, Dir::ServerToClient) == Route::Decode(Handler::Death),
        eql_route("OP_Death"@, Dir::ClientToServer) == Route::Decode(Handler::Death),
        eql_route("OP_HPUpdate"@, Dir::ServerToClient) == Route::Decode(Handler::HpUpdate),
        eql_route("OP_HPUpdate"@, Dir::ClientToServer) == Route::Decode(Handler::HpUpdate),
        eql_route("OP_NewZone"@, Dir::ServerToClient) == Route::Decode(Handler::NewZone),
        eql_route("OP_NewZone"@, Dir::ClientToServer) == Route::Ignored,
        eql_route("OP_GuildsInZoneList"@, Dir::ServerToClient) == Route::Decode(Handler::GuildsInZoneList),
        eql_route("OP_GuildsInZoneList"@, Dir::ClientToServer) == Route::Decode(Handler::GuildsInZoneList),
        eql_route("OP_NewGuildInZone"@, Dir::ServerToClient) == Route::Decode(Handler::NewGuildInZone),
        eql_route("OP_NewGuildInZone"@, Dir::ClientToServer) == Route::Decode(Handler::NewGuildInZone),
        eql_route("OP_PlayerProfile"@, Dir::ServerToClient) == Route::Decode(Handler::PlayerProfile),
        eql_route("OP_PlayerProfile"@, Dir::ClientToServer) == Route::Ignored,
        eql_route("OP_ZoneChange"@, Dir::ServerToClient) == Route::Ignored,
        eql_route("OP_ZoneChange"@, Dir::ClientToServer) == Route::Decode(Handler::ZoneChange),
        eql_route("OP_LoadoutSwap"@, Dir::ServerToClient) == Route::Decode(Handler::LoadoutSwap),
        eql_route("OP_LoadoutSwap"@, Dir::ClientToServer) == Route::Decode(Handler::LoadoutSwap),
        eql_route("OP_ClickObject"@, Dir::ServerToClient) == Route::Decode(Handler::ClickObject),
        eql_route("OP_ClickObject"@, Dir::ClientToServer) == Route::Ignored,
        eql_route("OP_SpawnAppearance"@, Dir::ServerToClient) == Route::Decode(Handler::SpawnAppearance),
        eql_route("OP_SpawnAppearance"@, Dir::ClientToServer) == Route::Decode(Handler::SpawnAppearance),
        eql_route("OP_SpawnAppearance2"@, Dir::ServerToClient) == Route::Decode(Handler::SpawnAppearance),
        eql_route("OP_SpawnAppearance2"@, Dir::ClientToServer) == Route::Decode(Handler::SpawnAppearance),
        eql_route("OP_TimeOfDay"@, Dir::ServerToClient) == Route::Decode(Handler::TimeOfDay),
        eql_route("OP_TimeOfDay"@, Dir::ClientToServer) == Route::Ignored,
        eql_route("OP_Stance"@, Dir::ServerToClient) == Route::Decode(Handler::Stance),
        eql_route("OP_Stance"@, Dir::ClientToServer) == Route::Decode(Handler::Stance),
        eql_route("OP_Invocation"@, Dir::ServerToClient) == Route::Decode(Handler::Invocation),
        eql_route("OP_Invocation"@, Dir::ClientToServer) == Route::Decode(Handler::Invocation),
        eql_route("OP_GuildMemberList"@, Dir::ServerToClient) == Route::Decode(Handler::GuildRoster),
        eql_route("OP_GuildMemberList"@, Dir::ClientToServer) == Route::Decode(Handler::GuildRoster),
        eql_route("OP_ItemPacket"@, Dir::ServerToClient) == Route::Decode(Handler::ItemPacket),
        eql_route("OP_ItemPacket"@, Dir::ClientToServer) == Route::Decode(Handler::ItemPacket),
        eql_route("OP_ZoneServerInfo"@, Dir::ServerToClient) == Route::Decode(Handler::ZoneServerInfo),
        eql_route("OP_ZoneServerInfo"@, Dir::ClientToServer) == Route::Ignored,
        eql_route("OP_GuildMOTD"@, Dir::ServerToClient) == Route::Decode(Handler::GuildMotd),
        eql_route("OP_GuildMOTD"@, Dir::ClientToServer) == Route::Decode(Handler::GuildMotd),
        eql_route("OP_ExpandedGuildInfo"@, Dir::ServerToClient) == Route::Decode(Handler::ExpandedGuildInfo),
        eql_route("OP_ExpandedGuildInfo"@, Dir::ClientToServer) == Route::Decode(Handler::ExpandedGuildInfo),
        eql_route("OP_InspectAnswer"@, Dir::ServerToClient) == Route::Decode(Handler::InspectAnswer),
        eql_route("OP_InspectAnswer"@, Dir::ClientToServer) == Route::Decode(Handler::InspectAnswer),
        eql_route("OP_ClientUpdate"@, Dir::ServerToClient) == Route::Decode(Handler::SelfPos),
        eql_route("OP_ClientUpdate"@, Dir::ClientToServer) == Route::Decode(Handler::SelfPos),
        eql_route("OP_SelfPos"@, Dir::ServerToClient) == Route::Decode(Handler::SelfPosBreadcrumb),
        eql_route("OP_SelfPos"@, Dir::ClientToServer) == Route::Decode(Handler::SelfPosBreadcrumb),
        eql_route("OP_Illusion"@, Dir::ServerToClient) == Route::Decode(Handler::Illusion),
        eql_route("OP_Illusion"@, Dir::ClientToServer) == Route::Decode(Handler::Illusion),
        eql_route("OP_Action"@, Dir::ServerToClient) == Route::Decode(Handler::Action),
        eql_route("OP_Action"@, Dir::ClientToServer) == Route::Decode(Handler::Action),
        eql_route("OP_Action2"@, Dir::ServerToClient) == Route::Decode(Handler::Action2),
        eql_route("OP_Action2"@, Dir::ClientToServer) == Route::Decode(Handler::Action2),
        eql_route("OP_BeginCast"@, Dir::ServerToClient) == Route::Decode(Handler::BeginCast),
        eql_route("OP_BeginCast"@, Dir::ClientToServer) == Route::Ignored,
        eql_route("OP_CastSpell"@, Dir::ServerToClient) == Route::Ignored,
        eql_route("OP_CastSpell"@, Dir::ClientToServer) == Route::Decode(Handler::CastSpell),
        eql_route("OP_Buff"@, Dir::ServerToClient) == Route::Decode(Handler::Buff),
        eql_route("OP_Buff"@, Dir::ClientToServer) == Route::Ignored,
        eql_route("OP_TargetMouse"@, Dir::ServerToClient) == Route::Decode(Handler::Target),
        eql_route("OP_TargetMouse"@, Dir::ClientToServer) == Route::Decode(Handler::Target),
        eql_route("OP_Consider"@, Dir::ServerToClient) == Route::Decode(Handler::Consider),
        eql_route("OP_Consider"@, Dir::ClientToServer) == Route::Decode(Handler::Consider),
        eql_route("OP_CommonMessage"@, Dir::ServerToClient) == Route::Decode(Handler::Chat),
        eql_route("OP_CommonMessage"@, Dir::ClientToServer) == Route::Decode(Handler::Chat),
        eql_route("OP_SimpleMessage"@, Dir::ServerToClient) == Route::Decode(Handler::SimpleMessage),
        eql_route("OP_SimpleMessage"@, Dir::ClientToServer) == Route::Ignored,
        eql_route("OP_FormattedMessage"@, Dir::ServerToClient) == Route::Decode(Handler::FormattedMessage),
        eql_route("OP_FormattedMessage"@, Dir::ClientToServer) == Route::Ignored,
        eql_route("OP_SpecialMesg"@, Dir::ServerToClient) == Route::Decode(Handler::SpecialMessage),
        eql_route("OP_SpecialMesg"@, Dir::ClientToServer) == Route::Ignored,
        eql_route("OP_LootMessage"@, Dir::ServerToClient) == Route::Decode(Handler::LootMessage),
        eql_route("OP_LootMessage"@, Dir::ClientToServer) == Route::Ignored,
        eql_route("OP_ExpUpdate"@, Dir::ServerToClient) == Route::Decode(Handler::Exp),
        eql_route("OP_ExpUpdate"@, Dir::ClientToServer) == Route::Decode(Handler::Exp),
        eql_route("OP_LevelUpdate"@, Dir::ServerToClient) == Route::Decode(Handler::LevelUpdate),
        eql_route("OP_LevelUpdate"@, Dir::ClientToServer) == Route::Decode(Handler::LevelUpdate),
        eql_route("OP_AAExpUpdate"@, Dir::ServerToClient) == Route::Decode(Handler::AaExp),
        eql_route("OP_AAExpUpdate"@, Dir::ClientToServer) == Route::Decode(Handler::AaExp),
        eql_route("OP_ManaChange"@, Dir::ServerToClient) == Route::Decode(Handler::ManaChange),
        eql_route("OP_ManaChange"@, Dir::ClientToServer) == Route::Decode(Handler::ManaChange),
        eql_route("OP_Stamina"@, Dir::ServerToClient) == Route::Decode(Handler::Stamina),
        eql_route("OP_Stamina"@, Dir::ClientToServer) == Route::Decode(Handler::Stamina),
        eql_route("OP_SkillUpdate"@, Dir::ServerToClient) == Route::Decode(Handler::SkillUpdate),
        eql_route("OP_SkillUpdate"@, Dir::ClientToServer) == Route::Decode(Handler::SkillUpdate),
        eql_route("OP_LootTransaction"@, Dir::ServerToClient) == Route::Decode(Handler::LootTransaction),
        eql_route("OP_LootTransaction"@, Dir::ClientToServer) == Route::Decode(Handler::LootTransaction),
        eql_route("OP_LootDrops"@, Dir::ServerToClient) == Route::Decode(Handler::LootDrops),
        eql_route("OP_LootDrops"@, Dir::ClientToServer) == Route::Decode(Handler::LootDrops),
        eql_route("OP_MoneyUpdate"@, Dir::ServerToClient) == Route::Decode(Handler::Money),
        eql_route("OP_MoneyUpdate"@, Dir::ClientToServer) == Route::Decode(Handler::Money),
        eql_route("OP_SendAATable"@, Dir::ServerToClient) == Route::Decode(Handler::AaTable),
        eql_route("OP_SendAATable"@, Dir::ClientToServer) == Route::Decode(Handler::AaTable),
        eql_route("OP_BuffList"@, Dir::ServerToClient) == Route::Decode(Handler::BuffList),
        eql_route("OP_BuffList"@, Dir::ClientToServer) == Route::Decode(Handler::BuffList),
        eql_route("OP_BuffList2"@, Dir::ServerToClient) == Route::Decode(Handler::BuffList),
        eql_route("OP_BuffList2"@, Dir::ClientToServer) == Route::Decode(Handler::BuffList),
        eql_route("OP_BuffList3"@, Dir::ServerToClient) == Route::Decode(Handler::BuffList),
        eql_route("OP_BuffList3"@, Dir::ClientToServer) == Route::Decode(Handler::BuffList),
        eql_route("OP_GroundSpawn"@, Dir::ServerToClient) == Route::Decode(Handler::GroundItem),
        eql_route("OP_GroundSpawn"@, Dir::ClientToServer) == Route::Ignored,
        eql_route("OP_SpawnDoor"@, Dir::ServerToClient) == Route::Decode(Handler::Doors),
        eql_route("OP_SpawnDoor"@, Dir::ClientToServer) == Route::Ignored,
        eql_route("OP_CorpseLocResponse"@, Dir::ServerToClient) == Route::Decode(Handler::CorpseLocation),
        eql_route("OP_CorpseLocResponse"@, Dir::ClientToServer) == Route::Ignored,
        eql_route("OP_SendZonePoints"@, Dir::ServerToClient) == Route::Decode(Handler::ZonePoints),
        eql_route("OP_SendZonePoints"@, Dir::ClientToServer) == Route::Ignored,
        eql_route("OP_GroupFollow"@, Dir::ServerToClient) == Route::Decode(Handler::GroupFollow),
        eql_route("OP_GroupFollow"@, Dir::ClientToServer) == Route::Decode(Handler::GroupFollow),
        eql_route("OP_GroupDisband"@, Dir::ServerToClient) == Route::Decode(Handler::GroupDisband),
        eql_route("OP_GroupDisband"@, Dir::ClientToServer) == Route::Decode(Handler::GroupDisband),
        eql_route("OP_GroupDisband2"@, Dir::ServerToClient) == Route::Decode(Handler::GroupDisband),
        eql_route("OP_GroupDisband2"@, Dir::ClientToServer) == Route::Decode(Handler::GroupDisband),
        eql_route("OP_GroupMemberList"@, Dir::ServerToClient) == Route::Decode(Handler::GroupMemberList),
        eql_route("OP_GroupMemberList"@, Dir::ClientToServer) == Route::Ignored,
        eql_route("OP_GroupUpdate"@, Dir::ServerToClient) == Route::Ignored,
        eql_route("OP_GroupUpdate"@, Dir::ClientToServer) == Route::Ignored,
        eql_route("OP_DzInfo"@, Dir::ServerToClient) == Route::Decode(Handler::DynamicZoneInfo),
        eql_route("OP_DzInfo"@, Dir::ClientToServer) == Route::Ignored,
        eql_route("OP_DzSwitchInfo"@, Dir::ServerToClient) == Route::Decode(Handler::DynamicZoneSwitch),
        eql_route("OP_DzSwitchInfo"@, Dir::ClientToServer) == Route::Ignored,
        eql_route("OP_EnterWorld"@, Dir::ServerToClient) == Route::Ignored,
        eql_route("OP_EnterWorld"@, Dir::ClientToServer) == Route::Decode(Handler::EnterWorld),
{
    lemma_opcode_name_lengths();
    lemma_opcode_names_differ();
}

/// The Live opcode table, opcode by opcode and way by way: the decoder each
/// packet reaches, or that it is ignored.
pub proof fn law_live_table()
    ensures
        live_route("OP_ZoneEntry"@, Dir::ServerToClient) == Route::Decode(Handler::Spawn),
        live_route("OP_ZoneEntry"@, Dir::ClientToServer) == Route::Ignored,
        live_route("OP_MobUpdate"@, Dir::ServerToClient) == Route::Decode(Handler::MobUpdate),
        live_route("OP_MobUpdate"@, Dir::ClientToServer) == Route::Decode(Handler::MobUpdate),
        live_route("OP_NpcMoveUpdate"@, Dir::ServerToClient) == Route::Decode(Handler::NpcMoveUpdate),
        live_route("OP_NpcMoveUpdate"@, Dir::ClientToServer) == Route::Ignored,
        live_route("OP_RemoveSpawn"@, Dir::ServerToClient) == Route::Decode(Handler::RemoveSpawn),
        live_route("OP_RemoveSpawn"@, Dir::ClientToServer) == Route::Decode(Handler::RemoveSpawn),
        live_route("OP_DeleteSpawn"@, Dir::ServerToClient) == Route::Decode(Handler::DeleteSpawn),
        live_route("OP_DeleteSpawn"@, Dir::ClientToServer) == Route::Decode(Handler::DeleteSpawn),
        live_route("OP_SpawnRename"@, Dir::ServerToClient) == Route::Decode(Handler::SpawnRename),
        live_route("OP_SpawnRename"@, Dir::ClientToServer) == Route::Ignored,
        live_route("OP_HPUpdate"@, Dir::ServerToClient) == Route::Decode(Handler::HpUpdate),
        live_route("OP_HPUpdate"@, Dir::ClientToServer) == Route::Decode(Handler::HpUpdate),
        live_route("OP_Death"@, Dir::ServerToClient) == Route::Decode(Handler::Death),
        live_route("OP_Death"@, Dir::ClientToServer) == Route::Decode(Handler::Death),
        live_route("OP_NewZone"@, Dir::ServerToClient) == Route::Decode(Handler::NewZone),
        live_route("OP_NewZone"@, Dir::ClientToServer) == Route::Ignored,
        live_route("OP_PlayerProfile"@, Dir::ServerToClient) == Route::Decode(Handler::PlayerProfile),
        live_route("OP_PlayerProfile"@, Dir::ClientToServer) == Route::Ignored,
        live_route("OP_ZoneChange"@, Dir::ServerToClient) == Route::Decode(Handler::ZoneChange),
        live_route("OP_ZoneChange"@, Dir::ClientToServer) == Route::Decode(Handler::ZoneChange),
        live_route("OP_ClientUpdate"@, Dir::ServerToClient) == Route::Decode(Handler::SelfPos),
        live_route("OP_ClientUpdate"@, Dir::ClientToServer) == Route::Decode(Handler::SelfPos),
        live_route("OP_Illusion"@, Dir::ServerToClient) == Route::Decode(Handler::Illusion),
        live_route("OP_Illusion"@, Dir::ClientToServer) == Route::Decode(Handler::Illusion),
        live_route("OP_ManaChange"@, Dir::ServerToClient) == Route::Decode(Handler::ManaChange),
        live_route("OP_ManaChange"@, Dir::ClientToServer) == Route::Decode(Handler::ManaChange),
        live_route("OP_Stamina"@, Dir::ServerToClient) == Route::Decode(Handler::Stamina),
        live_route("OP_Stamina"@, Dir::ClientToServer) == Route::Decode(Handler::Stamina),
        live_route("OP_ItemPacket"@, Dir::ServerToClient) == Route::Decode(Handler::ItemPacket),
        live_route("OP_ItemPacket"@, Dir::ClientToServer) == Route::Decode(Handler::ItemPacket),
        live_route("OP_SkillUpdate"@, Dir::ServerToClient) == Route::Decode(Handler::SkillUpdate),
        live_route("OP_SkillUpdate"@, Dir::ClientToServer) == Route::Decode(Handler::SkillUpdate),
        live_route("OP_Action2"@, Dir::ServerToClient) == Route::Decode(Handler::Action2),
        live_route("OP_Action2"@, Dir::ClientToServer) == Route::Decode(Handler::Action2),
        live_route("OP_TargetMouse"@, Dir::ServerToClient) == Route::Decode(Handler::Target),
        live_route("OP_TargetMouse"@, Dir::ClientToServer) == Route::Decode(Handler::Target),
        live_route("OP_Consider"@, Dir::ServerToClient) == Route::Decode(Handler::Consider),
        live_route("OP_Consider"@, Dir::ClientToServer) == Route::Decode(Handler::Consider),
        live_route("OP_CommonMessage"@, Dir::ServerToClient) == Route::Decode(Handler::Chat),
        live_route("OP_CommonMessage"@, Dir::ClientToServer) == Route::Decode(Handler::Chat),
        live_route("OP_SimpleMessage"@, Dir::ServerToClient) == Route::Decode(Handler::SimpleMessage),
        live_route("OP_SimpleMessage"@, Dir::ClientToServer) == Route::Decode(Handler::SimpleMessage),
        live_route("OP_FormattedMessage"@, Dir::ServerToClient) == Route::Decode(Handler::FormattedMessage),
        live_route("OP_FormattedMessage"@, Dir::ClientToServer) == Route::Decode(Handler::FormattedMessage),
        live_route("OP_SpecialMesg"@, Dir::ServerToClient) == Route::Decode(Handler::SpecialMessage),
        live_route("OP_SpecialMesg"@, Dir::ClientToServer) == Route::Decode(Handler::SpecialMessage),
        live_route("OP_GroundSpawn"@, Dir::ServerToClient) == Route::Decode(Handler::GroundItem),
        live_route("OP_GroundSpawn"@, Dir::ClientToServer) == Route::Ignored,
        live_route("OP_ClickObject"@, Dir::ServerToClient) == Route::Decode(Handler::ClickObject),
        live_route("OP_ClickObject"@, Dir::ClientToServer) == Route::Ignored,
        live_route("OP_SpawnDoor"@, Dir::ServerToClient) == Route::Decode(Handler::Doors),
        live_route("OP_SpawnDoor"@, Dir::ClientToServer) == Route::Ignored,
        live_route("OP_CorpseLocResponse"@, Dir::ServerToClient) == Route::Decode(Handler::CorpseLocation),
        live_route("OP_CorpseLocResponse"@, Dir::ClientToServer) == Route::Ignored,
        live_route("OP_SendZonePoints"@, Dir::ServerToClient) == Route::Decode(Handler::ZonePoints),
        live_route("OP_SendZonePoints"@, Dir::ClientToServer) == Route::Ignored,
        live_route("OP_SpawnAppearance"@, Dir::ServerToClient) == Route::Decode(Handler::SpawnAppearance),
        live_route("OP_SpawnAppearance"@, Dir::ClientToServer) == Route::Decode(Handler::SpawnAppearance),
        live_route("OP_GuildsInZoneList"@, Dir::ServerToClient) == Route::Decode(Handler::GuildsInZoneList),
        live_route("OP_GuildsInZoneList"@, Dir::ClientToServer) == Route::Decode(Handler::GuildsInZoneList),
        live_route("OP_NewGuildInZone"@, Dir::ServerToClient) == Route::Decode(Handler::NewGuildInZone),
        live_route("OP_NewGuildInZone"@, Dir::ClientToServer) == Route::Decode(Handler::NewGuildInZone),
        live_route("OP_GuildMemberList"@, Dir::ServerToClient) == Route::Decode(Handler::GuildRoster),
        live_route("OP_GuildMemberList"@, Dir::ClientToServer) == Route::Decode(Handler::GuildRoster),
        live_route("OP_GuildMOTD"@, Dir::ServerToClient) == Route::Decode(Handler::GuildMotd),
        live_route("OP_GuildMOTD"@, Dir::ClientToServer) == Route::Decode(Handler::GuildMotd),
        live_route("OP_ExpandedGuildInfo"@, Dir::ServerToClient) == Route::Decode(Handler::ExpandedGuildInfo),
        live_route("OP_ExpandedGuildInfo"@, Dir::ClientToServer) == Route::Decode(Handler::ExpandedGuildInfo),
        live_route("OP_ExpUpdate"@, Dir::ServerToClient) == Route::Decode(Handler::Exp),
        live_route("OP_ExpUpdate"@, Dir::ClientToServer) == Route::Decode(Handler::Exp),
        live_route("OP_AAExpUpdate"@, Dir::ServerToClient) == Route::Decode(Handler::AaExp),
        live_route("OP_AAExpUpdate"@, Dir::ClientToServer) == Route::Decode(Handler::AaExp),
        live_route("OP_TimeOfDay"@, Dir::ServerToClient) == Route::Decode(Handler::TimeOfDay),
        live_route("OP_TimeOfDay"@, Dir::ClientToServer) == Route::Ignored,
        live_route("OP_ZoneServerInfo"@, Dir::ServerToClient) == Route::Decode(Handler::ZoneServerInfo),
        live_route("OP_ZoneServerInfo"@, Dir::ClientToServer) == Route::Ignored,
        live_route("OP_GroupFollow"@, Dir::ServerToClient) == Route::Decode(Handler::GroupFollow),
        live_route("OP_GroupFollow"@, Dir::ClientToServer) == Route::Decode(Handler::GroupFollow),
        live_route("OP_GroupDisband"@, Dir::ServerToClient) == Route::Decode(Handler::GroupDisband),
        live_route("OP_GroupDisband"@, Dir::ClientToServer) == Route::Decode(Handler::GroupDisband),
        live_route("OP_GroupDisband2"@, Dir::ServerToClient) == Route::Decode(Handler::GroupDisband),
        live_route("OP_GroupDisband2"@, Dir::ClientToServer) == Route::Decode(Handler::GroupDisband),
        live_route("OP_EnterWorld"@, Dir::ServerToClient) == Route::Ignored,
        live_route("OP_EnterWorld"@, Dir::ClientToServer) == Route::Decode(Handler::EnterWorld),
{
    lemma_opcode_name_lengths();
    lemma_opcode_names_differ();
}

} // verus!
