use seq_backend_eql::ucs_chat::{parse_ucs_channels, parse_ucs_chat};

/// XOR-encode a plaintext payload the way the server does (the inverse of
/// the decode): cipher[0..4] = plain[0..4], cipher[i] = plain[i] ^ cipher[i-4].
fn encode(plain: &[u8]) -> Vec<u8> {
    let mut c = plain.to_vec();
    for i in 4..plain.len() {
        c[i] = plain[i] ^ c[i - 4];
    }
    c
}

fn build(
    header: &[u8; 4],
    channel: &[u8],
    server_sender: &[u8],
    message: &[u8],
    score: &[u8],
) -> Vec<u8> {
    let mut p = Vec::new();
    p.extend_from_slice(header);
    p.extend_from_slice(channel);
    p.push(0);
    p.extend_from_slice(server_sender);
    p.push(0);
    p.extend_from_slice(message);
    p.push(0);
    p.extend_from_slice(b"SPAM:");
    p.extend_from_slice(score);
    p.push(b':');
    p.push(0);
    p
}

#[test]
fn decodes_one_record() {
    let plain = build(
        b"\x01\x02\x03\x04",
        b"General",
        b"Rivervale.Alice",
        b"hey anyone selling",
        b"0",
    );
    let recs = parse_ucs_chat(&encode(&plain));
    assert_eq!(recs.len(), 1);
    let r = &recs[0];
    assert_eq!(r.channel_first, b'G');
    assert_eq!(r.channel_rest, "eneral");
    assert_eq!(r.channel_run, "General");
    assert_eq!(r.sender, "Alice");
    assert_eq!(r.message, "hey anyone selling");
    assert!(!r.spam);
}

#[test]
fn flags_spam_and_multiple_records() {
    let mut plain = build(
        b"\xaa\xbb\xcc\xdd",
        b"NewPlayers",
        b"Rivervale.Bob",
        b"clean line",
        b"0",
    );
    plain.extend_from_slice(&build(
        b"\x00\x00\x00\x00",
        b"General",
        b"Rivervale.Eve",
        b"spammy",
        b"7",
    ));
    let recs = parse_ucs_chat(&encode(&plain));
    assert_eq!(recs.len(), 2);
    assert_eq!(recs[0].sender, "Bob");
    assert_eq!(recs[0].channel_rest, "ewPlayers");
    assert!(!recs[0].spam);
    assert_eq!(recs[1].sender, "Eve");
    assert!(recs[1].spam);
}

#[test]
fn rejects_short_and_noise() {
    assert!(parse_ucs_chat(b"\x00\x15\x00\x00").is_empty());
    assert!(parse_ucs_chat(&[0u8; 64]).is_empty());
}

#[test]
fn learns_channel_names() {
    let mut plain = b"\x01\x02\x03\x04".to_vec();
    plain.extend_from_slice(b"Channels: 1=General2(400), 2=myraid(1)\0");
    plain.extend_from_slice(b"You have joined raidchat.\0");
    let names = parse_ucs_channels(&encode(&plain));
    assert!(names.contains(&"General2".to_string()));
    assert!(names.contains(&"myraid".to_string()));
    assert!(names.contains(&"raidchat".to_string()));
    assert!(parse_ucs_chat(&encode(&plain)).is_empty());
}

#[test]
fn learned_names_are_kept_once_in_order() {
    let mut plain = b"\x01\x02\x03\x04".to_vec();
    plain.extend_from_slice(b"1=Ab(1) 2=Ab(2) 3=X(1) 4=Cd(2) channel Ab\0");
    let names = parse_ucs_channels(&encode(&plain));
    assert_eq!(names, vec!["Ab".to_string(), "Cd".to_string()]);
    assert!(parse_ucs_channels(&[1u8; 11]).is_empty());
}

#[test]
fn a_server_prefix_is_stripped_and_links_cleaned() {
    let plain = build(
        b"\x05\x06\x07\x08",
        b"Auction",
        b"Alice",
        b"WTS \x12a^'Rusty Sword\x12",
        b"12",
    );
    let recs = parse_ucs_chat(&encode(&plain));
    assert_eq!(recs.len(), 1);
    assert_eq!(recs[0].sender, "Alice");
    assert_eq!(recs[0].message, "WTS Rusty Sword");
    assert!(recs[0].spam);
}

#[test]
fn learned_names_are_words_and_short_payloads_teach_none() {
    let mut plain = b"\x01\x02\x03\x04".to_vec();
    plain.extend_from_slice(b"1=Ab_1(1) 2=C.d(2) channel Raid9\0");
    let names = parse_ucs_channels(&encode(&plain));
    assert!(!names.is_empty());
    for n in &names {
        assert!(n.len() >= 2);
        assert!(n.chars().all(|c| c.is_ascii_alphanumeric() || c == '_'), "{n}");
    }
    assert!(parse_ucs_channels(&[0u8; 11]).is_empty());
}

#[test]
fn chat_lines_are_well_framed() {
    let plain = build(
        b"\x05\x06\x07\x08",
        b"Auction",
        b"server.Alice",
        b"hello",
        b"0",
    );
    let recs = parse_ucs_chat(&encode(&plain));
    assert_eq!(recs.len(), 1);
    assert_eq!(recs[0].sender, "Alice");
    assert!(!recs[0].message.is_empty());
    assert!(parse_ucs_chat(&[0u8; 11]).is_empty());
}
