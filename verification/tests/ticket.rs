//! Decoding tests: well-formed tickets, the TLV round trip, and each typed
//! decode failure.

use sacklite::cursor::ByteCursor;
use sacklite::error::DecodeError;
use sacklite::npticket::NpTicket;
use sacklite::platform::Platform;
use sacklite::ticket_read::{Data, SectionHeader, SectionType};

fn field(tag: u16, payload: &[u8]) -> Vec<u8> {
    let mut out = Vec::new();
    out.extend_from_slice(&tag.to_be_bytes());
    out.extend_from_slice(&(payload.len() as u16).to_be_bytes());
    out.extend_from_slice(payload);
    out
}

fn empty_field() -> Vec<u8> {
    field(0x00, b"")
}

fn u32_field(v: u32) -> Vec<u8> {
    field(0x01, &v.to_be_bytes())
}

fn u64_field(v: u64) -> Vec<u8> {
    field(0x02, &v.to_be_bytes())
}

fn string_field(s: &str) -> Vec<u8> {
    field(0x04, s.as_bytes())
}

fn timestamp_field(v: u64) -> Vec<u8> {
    field(0x07, &v.to_be_bytes())
}

fn binary_field(p: &[u8]) -> Vec<u8> {
    field(0x08, p)
}

fn section(section_type: u8, content: &[u8]) -> Vec<u8> {
    let mut out = Vec::new();
    out.push(0x00);
    out.push(section_type);
    out.extend_from_slice(&(content.len() as u16).to_be_bytes());
    out.extend_from_slice(content);
    out
}

fn body_section() -> Vec<u8> {
    let mut content = Vec::new();
    content.extend_from_slice(&binary_field(&[1, 2, 3, 4]));
    content.extend_from_slice(&u32_field(0x100));
    content.extend_from_slice(&timestamp_field(1_000));
    content.extend_from_slice(&timestamp_field(2_000));
    content.extend_from_slice(&u64_field(0xDEAD_BEEF));
    content.extend_from_slice(&string_field("testuser\0\0"));
    content.extend_from_slice(&binary_field(b"un\0\0"));
    content.extend_from_slice(&string_field("c"));
    content.extend_from_slice(&binary_field(b"UP9000-BCUS98148_00"));
    content.extend_from_slice(&u32_field(0));
    content.extend_from_slice(&empty_field());
    content.extend_from_slice(&empty_field());
    section(0x00, &content)
}

fn footer_section(key_id: &[u8], signature: &[u8]) -> Vec<u8> {
    let mut content = Vec::new();
    content.extend_from_slice(&binary_field(key_id));
    content.extend_from_slice(&binary_field(signature));
    section(0x02, &content)
}

fn ticket(body: &[u8], footer: &[u8]) -> Vec<u8> {
    let mut out = Vec::new();
    out.push(0x21);
    out.push(0x01);
    out.extend_from_slice(&[0, 0, 0, 0]);
    out.extend_from_slice(&((body.len() + footer.len()) as u16).to_be_bytes());
    out.extend_from_slice(body);
    out.extend_from_slice(footer);
    out
}

fn rpcn_ticket() -> Vec<u8> {
    ticket(&body_section(), &footer_section(b"RPCN", &[0xAA; 56]))
}

#[test]
fn decode_well_formed_rpcn_ticket() {
    let bytes = rpcn_ticket();
    let t = NpTicket::parse_from_bytes(bytes.clone()).expect("well-formed ticket must decode");
    assert_eq!(t.version, (2, 1));
    assert_eq!(t.body.serial, vec![1, 2, 3, 4]);
    assert_eq!(t.body.issuer_id, 0x100);
    assert_eq!(t.body.issued_date, 1_000);
    assert_eq!(t.body.expire_date, 2_000);
    assert_eq!(t.body.user_id, 0xDEAD_BEEF);
    assert_eq!(t.body.online_id, "testuser");
    assert_eq!(t.body.region, "un");
    assert_eq!(t.body.domain, "c");
    assert_eq!(t.body.service_id, "UP9000-BCUS98148_00");
    assert_eq!(t.body.status, 0);
    assert_eq!(t.footer.key_id, Platform::Rpcn);
    assert_eq!(t.footer.signature, vec![0xAA; 56]);
    // RPCN signatures cover exactly the body section, which starts after the
    // 8-byte ticket header
    let body = body_section();
    assert_eq!(t.data_to_verify, bytes[8..8 + body.len()].to_vec());
}

#[test]
fn psn_ticket_records_signature_data_start() {
    let bytes = ticket(
        &body_section(),
        &footer_section(&[0x71, 0x9f, 0x1d, 0x4a], &[0xBB; 56]),
    );
    let t = NpTicket::parse_from_bytes(bytes.clone()).expect("decode");
    assert_eq!(t.footer.key_id, Platform::Psn);
    // the PSN range runs from the buffer start to the signature payload:
    // everything but the 56 signature bytes themselves
    let sig_start = bytes.len() - 56;
    assert_eq!(t.footer.sig_data_start, sig_start as u64);
    assert_eq!(t.data_to_verify, bytes[..sig_start].to_vec());
}

#[test]
fn field_round_trip_is_byte_identical() {
    // every typed field of a well-formed ticket re-encodes to exactly the
    // bytes it was decoded from
    let bytes = rpcn_ticket();
    let mut cur = ByteCursor::new(bytes.clone());
    // ticket header, then the body section header
    cur.skip(8).unwrap();
    let header = SectionHeader::parse(&mut cur).unwrap();
    assert_eq!(header.section_type, SectionType::Body);
    for _ in 0..12 {
        let start = cur.position();
        let d = Data::read(&mut cur).expect("field must decode");
        let end = cur.position();
        assert_eq!(d.encode(), bytes[start..end].to_vec());
    }
    // the footer's fields round-trip the same way
    let header = SectionHeader::parse(&mut cur).unwrap();
    assert_eq!(header.section_type, SectionType::Footer);
    for _ in 0..2 {
        let start = cur.position();
        let d = Data::read(&mut cur).expect("field must decode");
        let end = cur.position();
        assert_eq!(d.encode(), bytes[start..end].to_vec());
    }
    assert_eq!(cur.position(), bytes.len());
}

#[test]
fn declared_length_mismatch_is_rejected_without_panic() {
    // a buffer declaring length 100 whose actual size is 50
    let mut bytes = vec![0u8; 50];
    bytes[0] = 0x21;
    bytes[1] = 0x01;
    bytes[6] = 0;
    bytes[7] = 100;
    assert_eq!(NpTicket::parse_from_bytes(bytes).unwrap_err(), DecodeError::LengthMismatch);
}

#[test]
fn unknown_footer_key_id_is_unsupported_platform() {
    let bytes = ticket(&body_section(), &footer_section(b"QRST", &[0xAA; 56]));
    assert_eq!(NpTicket::parse_from_bytes(bytes).unwrap_err(), DecodeError::UnsupportedPlatform);
}

#[test]
fn wrong_version_is_rejected() {
    let mut bytes = rpcn_ticket();
    bytes[0] = 0x31;
    assert_eq!(NpTicket::parse_from_bytes(bytes).unwrap_err(), DecodeError::UnsupportedVersion);
}

#[test]
fn short_buffer_is_truncated() {
    assert_eq!(NpTicket::parse_from_bytes(vec![0x21, 0x01, 0, 0]).unwrap_err(), DecodeError::Truncated);
}

#[test]
fn fixed_size_field_with_wrong_length_is_rejected() {
    // a u32 field declaring 5 bytes
    let mut body_content = field(0x01, &[0, 0, 0, 0, 0]);
    body_content.extend_from_slice(&empty_field());
    let bytes = ticket(
        &section(0x00, &body_content),
        &footer_section(b"RPCN", &[0xAA; 8]),
    );
    assert_eq!(NpTicket::parse_from_bytes(bytes).unwrap_err(), DecodeError::InvalidFieldLength);
}

#[test]
fn invalid_utf8_string_field_is_rejected() {
    let mut cur = ByteCursor::new(field(0x04, &[0xC3, 0x28]));
    assert!(matches!(Data::read(&mut cur), Err(DecodeError::InvalidUtf8)));
}

#[test]
fn unknown_field_tag_is_rejected() {
    let mut cur = ByteCursor::new(field(0x05, b"xy"));
    assert!(matches!(Data::read(&mut cur), Err(DecodeError::InvalidFieldType)));
}

#[test]
fn field_payload_truncation_is_detected() {
    // a binary field declaring 10 payload bytes but carrying 2
    let mut cur = ByteCursor::new(vec![0x00, 0x08, 0x00, 0x0A, 1, 2]);
    assert!(matches!(Data::read(&mut cur), Err(DecodeError::Truncated)));
}

#[test]
fn string_values_have_trailing_nuls_trimmed() {
    let mut cur = ByteCursor::new(field(0x04, b"hello\0\0\0"));
    let s = Data::string(&mut cur).unwrap();
    assert_eq!(s, "hello");
    // interior NULs survive; only the trailing run is cut
    let mut cur = ByteCursor::new(field(0x04, b"a\0b\0"));
    assert_eq!(Data::string(&mut cur).unwrap(), "a\0b");
}

#[test]
fn wrong_field_type_at_position_is_rejected() {
    // the body's first field must be binary, not u32
    let mut body_content = u32_field(7);
    body_content.extend_from_slice(&empty_field());
    let bytes = ticket(
        &section(0x00, &body_content),
        &footer_section(b"RPCN", &[0xAA; 8]),
    );
    assert_eq!(NpTicket::parse_from_bytes(bytes).unwrap_err(), DecodeError::UnexpectedFieldType);
}

#[test]
fn sections_must_come_body_then_footer() {
    let bytes = ticket(
        &footer_section(b"RPCN", &[0xAA; 8]),
        &footer_section(b"RPCN", &[0xAA; 8]),
    );
    assert_eq!(NpTicket::parse_from_bytes(bytes).unwrap_err(), DecodeError::UnexpectedSectionType);
}
