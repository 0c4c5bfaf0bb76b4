use seq_backend_eql::new_zone::{parse_new_zone, NewZoneError, NAME_GAP, TAIL_LEN};

const ZONE_ID: usize = 5;
const EXP_MULT: usize = 9;
const SAFE_Y: usize = 123;

#[allow(clippy::too_many_arguments)]
fn build(
    short: &[u8],
    long: &[u8],
    zonefile: &[u8],
    zone_id: u32,
    exp_mult: f32,
    safe_y: f32,
    safe_x: f32,
    safe_z: f32,
) -> Vec<u8> {
    let mut buf = Vec::new();
    buf.extend_from_slice(short);
    buf.push(0);
    buf.extend_from_slice(long);
    buf.push(0);
    buf.extend_from_slice(&[0u8; NAME_GAP]);
    buf.extend_from_slice(zonefile);
    buf.push(0);
    let mut tail = [0u8; TAIL_LEN];
    tail[ZONE_ID..ZONE_ID + 4].copy_from_slice(&zone_id.to_le_bytes());
    tail[EXP_MULT..EXP_MULT + 4].copy_from_slice(&exp_mult.to_le_bytes());
    tail[SAFE_Y..SAFE_Y + 4].copy_from_slice(&safe_y.to_le_bytes());
    tail[SAFE_Y + 4..SAFE_Y + 8].copy_from_slice(&safe_x.to_le_bytes());
    tail[SAFE_Y + 8..SAFE_Y + 12].copy_from_slice(&safe_z.to_le_bytes());
    buf.extend_from_slice(&tail);
    buf
}

#[test]
fn new_zone_parses_fields() {
    let buf = build(b"guktop", b"The City of Guk", b"guktop", 65, 1.0, -36.0, 7.0, 4.0);
    assert_eq!(buf.len(), 339);
    let z = parse_new_zone(&buf).unwrap();
    assert_eq!(z.short_name, "guktop");
    assert_eq!(z.long_name, "The City of Guk");
    assert_eq!(z.zonefile, "guktop");
    assert_eq!(z.zone_id, 65);
    assert_eq!(f32::from_bits(z.zone_exp_multiplier_bits), 1.0);
    assert_eq!(
        (
            f32::from_bits(z.safe_y_bits),
            f32::from_bits(z.safe_x_bits),
            f32::from_bits(z.safe_z_bits)
        ),
        (-36.0, 7.0, 4.0)
    );
}

#[test]
fn wire_shape_has_three_nuls_before_the_zone_file() {
    let buf = build(b"fearplane", b"The Plane of Fear", b"fearplane", 72, 1.0, 0.0, 0.0, 0.0);
    assert_eq!(&buf[27..32], b"\0\0\0\0f");
    assert_eq!(parse_new_zone(&buf).unwrap().zone_id, 72);
}

#[test]
fn new_zone_rejects_truncated() {
    assert!(parse_new_zone(b"short\0long\0").is_err());
    let mut buf = build(b"qeynos", b"South Qeynos", b"qeynos", 1, 1.0, 0.0, 0.0, 0.0);
    buf.pop();
    assert!(matches!(parse_new_zone(&buf), Err(NewZoneError::Truncated(_, 1))));
}

#[test]
fn rejects_names_of_raw_bytes() {
    let mut buf = vec![0x5c, 0xfa, 0x27, 0x1b, 0x00];
    buf.extend_from_slice(b"The Plane of Hate\0");
    assert_eq!(
        parse_new_zone(&buf),
        Err(NewZoneError::ImplausibleName("short_name"))
    );
}

#[test]
fn empty_strings_are_legal() {
    let buf = build(b"", b"", b"", 0, 0.0, 0.0, 0.0, 0.0);
    let z = parse_new_zone(&buf).unwrap();
    assert_eq!(
        (z.short_name.as_str(), z.long_name.as_str(), z.zonefile.as_str()),
        ("", "", "")
    );
}

#[test]
fn new_zone_names_each_unterminated_field() {
    assert_eq!(
        parse_new_zone(b"noterminator"),
        Err(NewZoneError::UnterminatedText("short_name"))
    );
    assert_eq!(
        parse_new_zone(b"short\0"),
        Err(NewZoneError::UnterminatedText("long_name"))
    );
    assert_eq!(
        parse_new_zone(b"a\0b\0\0"),
        Err(NewZoneError::Truncated(5, 2))
    );
    assert_eq!(
        parse_new_zone(b"a\0b\0\0\0\0zone"),
        Err(NewZoneError::UnterminatedText("zonefile"))
    );
}
