use seq_backend_eql::backend::{surfaces_chat, Dir, EqlBackend};
use seq_backend_eql::dispatch::{Handler, LiveBackend, Route};

#[test]
fn backend_unknown_opcode_is_unhandled() {
    let d = EqlBackend.route("OP_DoesNotExist", Dir::ServerToClient);
    assert_eq!(d, Route::Unhandled);
}

#[test]
fn backend_entity_broadcasts_validate_direction_before_payload() {
    let backend = EqlBackend;
    for opcode in [
        "OP_ZoneEntry",
        "OP_MobUpdate",
        "OP_NpcMoveUpdate",
        "OP_SpawnDoor",
        "OP_SendZonePoints",
    ] {
        assert_eq!(
            backend.route(opcode, Dir::ClientToServer),
            Route::Ignored,
            "{opcode}"
        );
    }
}

#[test]
fn click_object_c2s_request_is_ignored() {
    let d = EqlBackend.route("OP_ClickObject", Dir::ClientToServer);
    assert_eq!(d, Route::Ignored);
}

#[test]
fn lib_unknown_opcode_is_unhandled() {
    let d = LiveBackend.route("OP_DoesNotExist", Dir::ServerToClient);
    assert_eq!(d, Route::Unhandled);
}

#[test]
fn lib_entity_broadcasts_validate_direction_before_payload() {
    let backend = LiveBackend;
    assert_eq!(
        backend.route("OP_ZoneEntry", Dir::ClientToServer),
        Route::Ignored
    );
    assert_eq!(
        backend.route("OP_NpcMoveUpdate", Dir::ClientToServer),
        Route::Ignored
    );
    assert_eq!(
        backend.route("OP_SpawnDoor", Dir::ClientToServer),
        Route::Ignored
    );
    assert_eq!(
        backend.route("OP_SendZonePoints", Dir::ClientToServer),
        Route::Ignored
    );
}

#[test]
fn click_object_ignores_the_client_request() {
    assert_eq!(
        LiveBackend.route("OP_ClickObject", Dir::ClientToServer),
        Route::Ignored
    );
}

#[test]
fn backends_name_themselves() {
    assert_eq!(EqlBackend.name(), "eql");
    assert_eq!(LiveBackend.name(), "live");
}

#[test]
fn entity_broadcasts_from_the_server_reach_their_decoders() {
    let s2c = Dir::ServerToClient;
    assert_eq!(EqlBackend.route("OP_ZoneEntry", s2c), Route::Decode(Handler::Spawn));
    assert_eq!(EqlBackend.route("OP_MobUpdate", s2c), Route::Decode(Handler::MobUpdate));
    assert_eq!(EqlBackend.route("OP_SpawnDoor", s2c), Route::Decode(Handler::Doors));
    assert_eq!(LiveBackend.route("OP_ZoneEntry", s2c), Route::Decode(Handler::Spawn));
    // Live decodes mob updates either way; EQ Legends only from the server.
    assert_eq!(
        LiveBackend.route("OP_MobUpdate", Dir::ClientToServer),
        Route::Decode(Handler::MobUpdate)
    );
}

#[test]
fn eql_server_messages_from_the_client_are_ignored() {
    for opcode in [
        "OP_SimpleMessage",
        "OP_FormattedMessage",
        "OP_SpecialMesg",
        "OP_LootMessage",
    ] {
        assert_eq!(
            EqlBackend.route(opcode, Dir::ClientToServer),
            Route::Ignored,
            "{opcode}"
        );
    }
    assert_eq!(
        EqlBackend.route("OP_LootMessage", Dir::ServerToClient),
        Route::Decode(Handler::LootMessage)
    );
    assert_eq!(
        EqlBackend.route("OP_SimpleMessage", Dir::ServerToClient),
        Route::Decode(Handler::SimpleMessage)
    );
    // Live has no such filter.
    assert_eq!(
        LiveBackend.route("OP_SimpleMessage", Dir::ClientToServer),
        Route::Decode(Handler::SimpleMessage)
    );
}

#[test]
fn both_appearance_names_reach_one_decoder() {
    for dir in [Dir::ServerToClient, Dir::ClientToServer] {
        assert_eq!(
            EqlBackend.route("OP_SpawnAppearance", dir),
            Route::Decode(Handler::SpawnAppearance)
        );
        assert_eq!(
            EqlBackend.route("OP_SpawnAppearance2", dir),
            Route::Decode(Handler::SpawnAppearance)
        );
    }
    assert_eq!(
        LiveBackend.route("OP_SpawnAppearance2", Dir::ServerToClient),
        Route::Unhandled
    );
}

#[test]
fn eql_only_opcodes_are_routed() {
    let s2c = Dir::ServerToClient;
    assert_eq!(
        EqlBackend.route("OP_LoadoutSwap", s2c),
        Route::Decode(Handler::LoadoutSwap)
    );
    assert_eq!(LiveBackend.route("OP_LoadoutSwap", s2c), Route::Unhandled);
    assert_eq!(EqlBackend.route("OP_BuffList3", s2c), Route::Decode(Handler::BuffList));
    assert_eq!(EqlBackend.route("OP_Stance", s2c), Route::Decode(Handler::Stance));
    assert_eq!(EqlBackend.route("OP_SelfPos", s2c), Route::Decode(Handler::SelfPosBreadcrumb));
    assert_eq!(EqlBackend.route("OP_GroupUpdate", s2c), Route::Ignored);
    assert_eq!(
        EqlBackend.route("OP_GroupUpdate", Dir::ClientToServer),
        Route::Ignored
    );
}

#[test]
fn client_side_opcodes_are_decoded_from_the_client_only() {
    let c2s = Dir::ClientToServer;
    let s2c = Dir::ServerToClient;
    assert_eq!(EqlBackend.route("OP_EnterWorld", c2s), Route::Decode(Handler::EnterWorld));
    assert_eq!(EqlBackend.route("OP_EnterWorld", s2c), Route::Ignored);
    assert_eq!(EqlBackend.route("OP_CastSpell", c2s), Route::Decode(Handler::CastSpell));
    assert_eq!(EqlBackend.route("OP_CastSpell", s2c), Route::Ignored);
    assert_eq!(EqlBackend.route("OP_ZoneChange", s2c), Route::Ignored);
    // Live decodes both halves of a zone change.
    assert_eq!(LiveBackend.route("OP_ZoneChange", s2c), Route::Decode(Handler::ZoneChange));
    assert_eq!(LiveBackend.route("OP_EnterWorld", s2c), Route::Ignored);
}

#[test]
fn chat_drops_the_client_copy_of_echoed_channels() {
    // Say (8) is not echoed: the client's copy is kept.
    assert!(surfaces_chat(8, Dir::ClientToServer));
    // A tell (7) comes back from the server: only that copy is kept.
    assert!(!surfaces_chat(7, Dir::ClientToServer));
    assert!(surfaces_chat(7, Dir::ServerToClient));
    // Channel 1 is no player's.
    assert!(!surfaces_chat(1, Dir::ServerToClient));
}
