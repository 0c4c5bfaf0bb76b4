use seq_backend_eql::channel_message::{parse_channel_message, ChannelMessageError};
use seq_backend_eql::formatted_message::{
    parse_formatted_message, FormattedMessageError, HEADER_LEN as FORMATTED_HEADER_LEN,
};
use seq_backend_eql::links::clean_links;
use seq_backend_eql::special_message::{
    parse_special_message, SpecialMessageError, HEADER_LEN as SPECIAL_HEADER_LEN, MID_PADDING,
};
use seq_backend_eql::zone_server_info::{
    parse_zone_server_info, ZoneServerInfo, ZoneServerInfoError, PAYLOAD_LEN, PORT_OFFSET,
};

fn channel_packet(
    sender: &[u8],
    target: &[u8],
    lang: u32,
    chan: u32,
    skill: u32,
    message: &[u8],
) -> Vec<u8> {
    let mut buf = Vec::new();
    buf.extend_from_slice(sender);
    buf.push(0);
    buf.extend_from_slice(target);
    buf.push(0);
    buf.extend_from_slice(&[0u8; 8]);
    buf.extend_from_slice(&lang.to_le_bytes());
    buf.extend_from_slice(&chan.to_le_bytes());
    buf.extend_from_slice(&[0u8; 4]);
    buf.push(0);
    buf.extend_from_slice(&skill.to_le_bytes());
    buf.extend_from_slice(message);
    buf.push(0);
    buf
}

#[test]
fn parses_say() {
    let buf = channel_packet(b"Soandso", b"", 0, 6, 100, b"hi there");
    let m = parse_channel_message(&buf).unwrap();
    assert_eq!(m.sender, "Soandso");
    assert_eq!(m.target, "");
    assert_eq!(m.chan_num, 6);
    assert_eq!(m.skill_in_language, 100);
    assert_eq!(m.message, "hi there");
}

#[test]
fn parses_tell() {
    let buf = channel_packet(b"Alice", b"Bob", 0, 14, 0, b"private msg");
    let m = parse_channel_message(&buf).unwrap();
    assert_eq!(m.sender, "Alice");
    assert_eq!(m.target, "Bob");
    assert_eq!(m.message, "private msg");
}

#[test]
fn channel_message_rejects_truncated() {
    assert!(parse_channel_message(b"Alice").is_err());
}

#[test]
fn channel_message_errors_name_the_field() {
    assert_eq!(
        parse_channel_message(b"Alice"),
        Err(ChannelMessageError::UnterminatedText("sender"))
    );
    assert_eq!(
        parse_channel_message(b"Alice\0Bob"),
        Err(ChannelMessageError::UnterminatedText("target"))
    );
    // Sender, target and five of the eight skipped bytes.
    assert_eq!(
        parse_channel_message(b"A\0B\0\0\0\0\0\0"),
        Err(ChannelMessageError::Truncated(9, 8))
    );
    let mut full = channel_packet(b"A", b"B", 1, 2, 3, b"hey");
    full.pop(); // drop the message terminator
    assert_eq!(
        parse_channel_message(&full),
        Err(ChannelMessageError::UnterminatedText("message"))
    );
}

#[test]
fn channel_message_cleans_links_and_reads_language() {
    let buf = channel_packet(b"A", b"", 7, 5, 9, b"wts \x1263^3686^0^1^'Blood of Pain\x12 cheap");
    let m = parse_channel_message(&buf).unwrap();
    assert_eq!(m.language, 7);
    assert_eq!(m.message, "wts Blood of Pain cheap");
}

/// A 13-byte header (fmt@5, color@9) and a length-prefixed argument blob.
fn formatted_packet(fmt: u32, color: u32, args: &[&[u8]]) -> Vec<u8> {
    let mut b = vec![0u8; FORMATTED_HEADER_LEN];
    b[5..9].copy_from_slice(&fmt.to_le_bytes());
    b[9..13].copy_from_slice(&color.to_le_bytes());
    for a in args {
        b.extend_from_slice(&(a.len() as u32).to_le_bytes());
        b.extend_from_slice(a);
    }
    b
}

#[test]
fn rejects_short_payload() {
    assert_eq!(
        parse_formatted_message(&[0u8; 12]),
        Err(FormattedMessageError::BadLength(12))
    );
}

#[test]
fn header_only_no_args() {
    let m = parse_formatted_message(&formatted_packet(15603, 334, &[b"", b"", b""])).unwrap();
    assert_eq!(m.format_id, 15603);
    assert_eq!(m.msg_color, 334);
    assert!(m.args.is_empty());
}

#[test]
fn combat_damage_args() {
    let link = b"\x1263^3686^0^1^'Blood of Pain\x12";
    let m =
        parse_formatted_message(&formatted_packet(9072, 376, &[b"Lady Vox", b"197", link])).unwrap();
    assert_eq!(m.format_id, 9072);
    assert_eq!(m.args, vec!["Lady Vox", "197", "Blood of Pain"]);
}

#[test]
fn drops_trailing_empty_slots() {
    let m = parse_formatted_message(&formatted_packet(1, 2, &[b"a", b"b", b"", b"", b""])).unwrap();
    assert_eq!(m.args, vec!["a", "b"]);
}

#[test]
fn a_slot_running_past_the_payload_ends_the_args() {
    let mut b = formatted_packet(1, 2, &[b"first"]);
    b.extend_from_slice(&100u32.to_le_bytes());
    b.extend_from_slice(b"short");
    let m = parse_formatted_message(&b).unwrap();
    assert_eq!(m.args, vec!["first"]);
}

#[test]
fn links_reduce_to_their_names() {
    assert_eq!(clean_links("\x1263^3686^0^1^'Blood of Pain\x12"), "Blood of Pain");
    assert_eq!(clean_links("plain text"), "plain text");
    assert_eq!(clean_links("a \x12x^y^Name\x12 b"), "a Name b");
    assert_eq!(clean_links("a \x12Bare\x12 b"), "a Bare b");
    // An unclosed mark is dropped and the rest kept.
    assert_eq!(clean_links("a \x12rest"), "a rest");
    assert_eq!(clean_links(""), "");
}

fn special_packet(source: &[u8], message: &[u8], color: u32, target: u16) -> Vec<u8> {
    let mut buf = vec![0u8; SPECIAL_HEADER_LEN];
    buf[3..7].copy_from_slice(&color.to_le_bytes());
    buf[7..9].copy_from_slice(&target.to_le_bytes());
    buf.extend_from_slice(source);
    buf.push(0);
    buf.extend(std::iter::repeat(0).take(MID_PADDING));
    buf.extend_from_slice(message);
    buf.push(0);
    buf
}

#[test]
fn rejects_short_header() {
    assert!(parse_special_message(&[0; 10]).is_err());
}

#[test]
fn special_message_parses_fields() {
    let buf = special_packet(b"Soandso", b"hello world", 0x05, 42);
    let m = parse_special_message(&buf).unwrap();
    assert_eq!(m.message_color, 0x05);
    assert_eq!(m.target, 42);
    assert_eq!(m.source, "Soandso");
    assert_eq!(m.message, "hello world");
}

#[test]
fn empty_source_and_message() {
    let buf = special_packet(b"", b"", 0, 0);
    let m = parse_special_message(&buf).unwrap();
    assert_eq!(m.source, "");
    assert_eq!(m.message, "");
}

#[test]
fn special_message_errors() {
    assert_eq!(
        parse_special_message(&[0; 10]),
        Err(SpecialMessageError::Truncated(10, 11))
    );
    assert_eq!(
        parse_special_message(&[1; 20]),
        Err(SpecialMessageError::SourceUnterminated)
    );
    let mut b = vec![0u8; SPECIAL_HEADER_LEN];
    b.extend_from_slice(b"ab\0");
    b.extend_from_slice(&[0u8; 4]);
    // The padding is 8 bytes short.
    assert_eq!(
        parse_special_message(&b),
        Err(SpecialMessageError::Truncated(18, 8))
    );
    let mut c = special_packet(b"ab", b"xyz", 1, 2);
    c.pop();
    assert_eq!(
        parse_special_message(&c),
        Err(SpecialMessageError::MessageUnterminated)
    );
}

fn zone_payload(host: &str, port: u16) -> Vec<u8> {
    let mut b = vec![0u8; PAYLOAD_LEN];
    b[..host.len()].copy_from_slice(host.as_bytes());
    b[PORT_OFFSET..].copy_from_slice(&port.to_le_bytes());
    b
}

#[test]
fn parses_host_and_port() {
    let p = zone_payload("lvseqns-livz07.everquestlegends.com", 3229);
    assert_eq!(
        parse_zone_server_info(&p).unwrap(),
        ZoneServerInfo {
            host: "lvseqns-livz07.everquestlegends.com".into(),
            port: 3229,
        }
    );
}

#[test]
fn stops_at_the_terminator_not_the_field_width() {
    let mut p = zone_payload("host.example.com", 1499);
    p[40] = b'X'; // garbage after the NUL
    let z = parse_zone_server_info(&p).unwrap();
    assert_eq!(z.host, "host.example.com");
    assert!(!z.host.contains('X'));
}

#[test]
fn a_short_payload_is_an_error_not_a_panic() {
    assert_eq!(
        parse_zone_server_info(&[0u8; 129]).unwrap_err(),
        ZoneServerInfoError::BadLen(129)
    );
    assert!(parse_zone_server_info(&[]).is_err());
}

#[test]
fn an_unterminated_host_is_bounded_by_the_field() {
    let mut p = vec![b'a'; PAYLOAD_LEN];
    p[PORT_OFFSET..].copy_from_slice(&7u16.to_le_bytes());
    let z = parse_zone_server_info(&p).unwrap();
    assert_eq!(z.host.len(), PORT_OFFSET);
    assert_eq!(z.port, 7);
}

#[test]
fn zone_server_info_rejects_bad_host_and_zero_port() {
    assert_eq!(
        parse_zone_server_info(&zone_payload("", 1499)),
        Err(ZoneServerInfoError::InvalidHost)
    );
    let mut p = zone_payload("host", 1499);
    p[1] = 0x07;
    assert_eq!(
        parse_zone_server_info(&p),
        Err(ZoneServerInfoError::InvalidHost)
    );
    assert_eq!(
        parse_zone_server_info(&zone_payload("host", 0)),
        Err(ZoneServerInfoError::InvalidPort)
    );
}
