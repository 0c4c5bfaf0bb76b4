# seq_backend_eql

Verified EverQuest Legends packet decoding.

`src/` is the library, verified with Verus:

- fixed-layout and walked decoders for the EQ Legends wire (`spawn`,
  `player_profile`, `stat_sync`, `buff_list`, `new_zone`, `npc_move_update`,
  `player_spawn_pos`, `channel_message`, `formatted_message`,
  `special_message`, `zone_server_info`, `ucs_chat`, `decode`), each with a
  contract that states exactly what a payload decodes to and when it is
  rejected;
- the pinned wire records and their sizes (`bindings`, `eqstructs`);
- the two cross-packet trackers: player identity (`self_track`) and loot
  pairing (`loot_track`, with its laws in `loot_laws`);
- the backends' opcode tables, which decide per direction which decoder a
  packet reaches (`dispatch`), the other routing decisions (`backend`) and
  text helpers (`links`, `chars`, `text`, `wire`).

`tests/` runs the library on concrete payloads. `app/` is the host-facing
shell: the C++ ABI for the trackers and decoders, error types with
`std::error::Error`, and the records whose fields are IEEE floats.

Two things stop at the edge of what this crate can hold. The neutral event
vocabulary and the Live decoders live in other crates of the workspace, which
this crate does not depend on. So `EqlBackend` and `LiveBackend` offer
`route`, the opcode-and-direction decision that picks a decoder, rather than a
`decode` that builds events. And `PlayerProfile` carries only the fields the
EQ Legends profile walk fills in; the fields of the shared profile record that
this decoder never sets (bind points, deity, spell and discipline arrays and
the like) are left out.
