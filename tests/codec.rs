use eoip::codec::{
    build_header_template, encapsulate, extract_tunnel_id, payload_slice, source_address,
    stamp_tunnel_id, strip_whitespace, template_from_decoded, tunnel_header, ConfigError,
    PacketError,
};

fn ipv4_header(src: [u8; 4], total_len: u16) -> Vec<u8> {
    let mut h = vec![0x45, 0, (total_len >> 8) as u8, total_len as u8, 0, 0, 0, 0, 64, 47, 0, 0];
    h.extend_from_slice(&src);
    h.extend_from_slice(&[192, 0, 2, 1]);
    h
}

#[test]
fn template_is_decoded_with_spaces_ignored() {
    let t = build_header_template("01 00 64 00 00 00 00 00").unwrap();
    assert_eq!(t, vec![0x01, 0x00, 0x64, 0x00, 0x00, 0x00, 0x00, 0x00]);
    let u = build_header_template("2001640000000000").unwrap();
    assert_eq!(u, vec![0x20, 0x01, 0x64, 0, 0, 0, 0, 0]);
}

#[test]
fn template_of_wrong_length_is_refused() {
    assert_eq!(build_header_template("01 00 64"), Err(ConfigError::WrongLength));
    assert_eq!(build_header_template("01 00 64 00 00 00 00 00 00"), Err(ConfigError::WrongLength));
}

#[test]
fn template_that_is_not_hex_is_refused() {
    assert_eq!(build_header_template("zz 00 64 00 00 00 00 00"), Err(ConfigError::InvalidHex));
    assert_eq!(build_header_template("0 00 64 00 00 00 00 00"), Err(ConfigError::InvalidHex));
}

#[test]
fn template_from_decoded_checks_the_length() {
    assert_eq!(template_from_decoded(Some(vec![1; 8])), Ok(vec![1; 8]));
    assert_eq!(template_from_decoded(Some(vec![1; 7])), Err(ConfigError::WrongLength));
    assert_eq!(template_from_decoded(None), Err(ConfigError::InvalidHex));
}

#[test]
fn whitespace_is_stripped() {
    assert_eq!(strip_whitespace(b" 0a\t0b\r\n 0c "), b"0a0b0c".to_vec());
    assert_eq!(strip_whitespace(b""), Vec::<u8>::new());
}

#[test]
fn stamp_writes_little_endian_id() {
    let mut h = vec![0x01, 0x00, 0x64, 0x00, 0x00, 0x00, 0x00, 0x00];
    stamp_tunnel_id(&mut h, 0x1234);
    assert_eq!(h, vec![0x01, 0x00, 0x64, 0x00, 0x00, 0x00, 0x34, 0x12]);
}

#[test]
fn stamped_id_reads_back_from_a_keepalive() {
    let template = build_header_template("01 00 64 00 00 00 00 00").unwrap();
    for id in [0u16, 1, 2, 255, 256, 0xabcd, u16::MAX] {
        let mut d = ipv4_header([198, 51, 100, 2], 28);
        d.extend_from_slice(&tunnel_header(&template, id));
        assert_eq!(d.len(), 28);
        assert_eq!(extract_tunnel_id(&d), Ok(id));
    }
}

#[test]
fn short_datagram_has_no_tunnel_id() {
    let d = vec![0u8; 27];
    assert_eq!(extract_tunnel_id(&d), Err(PacketError::Malformed));
}

#[test]
fn payload_is_everything_after_the_headers() {
    let mut d = vec![0u8; 28];
    assert!(payload_slice(&d).is_empty());
    d.push(0x5a);
    assert_eq!(payload_slice(&d), vec![0x5a]);
    assert!(payload_slice(&[0u8; 3]).is_empty());
}

#[test]
fn source_address_is_big_endian() {
    let d = ipv4_header([203, 0, 113, 10], 28);
    assert_eq!(source_address(&d), u32::from_be_bytes([203, 0, 113, 10]));
}

#[test]
fn egress_frame_is_header_then_frame() {
    let header = [1u8, 0, 0x64, 0, 0, 0, 1, 0];
    let frame = [0xaa, 0xbb, 0xcc];
    assert_eq!(encapsulate(&header, &frame), vec![1, 0, 0x64, 0, 0, 0, 1, 0, 0xaa, 0xbb, 0xcc]);
    assert_eq!(encapsulate(&header, &[]), header.to_vec());
}
