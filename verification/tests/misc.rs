//! Tests for the id wrapping maps, game-version lookup, resource references,
//! resource header parsing, hex, and the login decision.

use sacklite::auth::{login_ticket, AuthError};
use sacklite::cursor::ByteCursor;
use sacklite::db::{wrap_to_i64, wrap_to_u64};
use sacklite::error::{DecodeError, VerifyError};
use sacklite::game_version::{GameVersion, GameVersionError};
use sacklite::hex::{from_hex, to_hex};
use sacklite::platform::Platform;
use sacklite::pub_key_store::{CurveKind, DigestKind, PubKeyStore};
use sacklite::resource::{
    parse_u32_decimal, str_to_hash, ResourceInfo, ResourceRef, ResourceRefError, ResourceType,
};

#[test]
fn wrap_maps_are_inverse_and_order_preserving() {
    for x in [i64::MIN, -2, -1, 0, 1, 42, i64::MAX] {
        assert_eq!(wrap_to_i64(wrap_to_u64(x)), x);
    }
    for y in [0u64, 1, 0x8000_0000_0000_0000, u64::MAX] {
        assert_eq!(wrap_to_u64(wrap_to_i64(y)), y);
    }
    assert_eq!(wrap_to_u64(i64::MIN), 0);
    assert_eq!(wrap_to_u64(0), 0x8000_0000_0000_0000);
    assert_eq!(wrap_to_u64(i64::MAX), u64::MAX);
    assert!(wrap_to_u64(-5) < wrap_to_u64(5));
}

#[test]
fn game_version_lookup_accepts_known_title_ids() {
    assert_eq!(
        GameVersion::from_service_id("UP9000-BCUS98148_00"),
        Ok(GameVersion::Lbp1)
    );
    assert_eq!(
        GameVersion::from_service_id("EP9000-BCES01086_00"),
        Ok(GameVersion::Lbp2)
    );
    assert_eq!(
        GameVersion::from_service_id("UP9000-CUSA00063_00"),
        Ok(GameVersion::Lbp3)
    );
}

#[test]
fn game_version_lookup_rejects_bad_shapes_and_unknown_titles() {
    assert_eq!(
        GameVersion::from_service_id("UP9000-ZZZZ99999_00"),
        Err(GameVersionError::UnknownTitleId)
    );
    for bad in [
        "",
        "UP9000-BCUS98148_01",
        "up9000-BCUS98148_00",
        "UP9000-BCUS9814_00",
        "UP9000_BCUS98148_00",
        "UP9000-BCUS98148_000",
    ] {
        assert_eq!(
            GameVersion::from_service_id(bad),
            Err(GameVersionError::InvalidFormat),
            "{} must be rejected",
            bad
        );
    }
}

#[test]
fn game_version_codes_round_trip() {
    for g in [GameVersion::Lbp1, GameVersion::Lbp2, GameVersion::Lbp3] {
        assert_eq!(GameVersion::try_from_u8(g.to_u8()), Ok(g));
    }
    assert_eq!(GameVersion::try_from_u8(3), Err(()));
    assert_eq!(GameVersion::Lbp2.name(), "lbp2");
}

#[test]
fn platform_codes_round_trip() {
    for p in [Platform::Psn, Platform::Rpcn] {
        assert_eq!(Platform::try_from_u8(p.to_u8()), Ok(p));
    }
    assert_eq!(Platform::try_from_u8(2), Err(()));
}

#[test]
fn platform_from_key_id_accepts_exactly_the_two_constants() {
    assert_eq!(
        Platform::from_key_id(&[0x71, 0x9f, 0x1d, 0x4a]),
        Ok(Platform::Psn)
    );
    assert_eq!(Platform::from_key_id(b"RPCN"), Ok(Platform::Rpcn));
    assert_eq!(
        Platform::from_key_id(b"RPCn"),
        Err(DecodeError::UnsupportedPlatform)
    );
    assert_eq!(
        Platform::from_key_id(b"RPC"),
        Err(DecodeError::UnsupportedPlatform)
    );
    assert_eq!(
        Platform::from_key_id(b"RPCNN"),
        Err(DecodeError::UnsupportedPlatform)
    );
}

#[test]
fn hex_round_trips_and_rejects_non_hex() {
    assert_eq!(to_hex(&[0x00, 0xff, 0x1a]), "00ff1a");
    assert_eq!(from_hex(b"00ff1a"), Some(vec![0x00, 0xff, 0x1a]));
    assert_eq!(from_hex(b"00FF1A"), Some(vec![0x00, 0xff, 0x1a]));
    assert_eq!(from_hex(b"0"), None);
    assert_eq!(from_hex(b"0g"), None);
    assert_eq!(from_hex(b""), Some(vec![]));
}

#[test]
fn decimal_parse_handles_bounds() {
    assert_eq!(parse_u32_decimal(b"0"), Some(0));
    assert_eq!(parse_u32_decimal(b"4294967295"), Some(u32::MAX));
    assert_eq!(parse_u32_decimal(b"4294967296"), None);
    assert_eq!(parse_u32_decimal(b"00000000001"), Some(1));
    assert_eq!(parse_u32_decimal(b""), None);
    assert_eq!(parse_u32_decimal(b"12a"), None);
}

#[test]
fn resource_ref_parses_guids_and_hashes() {
    match ResourceRef::from_str("g123").unwrap() {
        ResourceRef::Guid(g) => assert_eq!(g, 123),
        _ => panic!("expected a guid"),
    }
    let hex40 = "00112233445566778899aabbccddeeff00112233";
    match ResourceRef::from_str(hex40).unwrap() {
        ResourceRef::Hash(h) => {
            assert_eq!(h.len(), 20);
            assert_eq!(to_hex(&h), hex40);
        },
        _ => panic!("expected a hash"),
    }
    assert_eq!(
        ResourceRef::from_str("g99999999999").unwrap_err(),
        ResourceRefError::BadGuid
    );
    assert_eq!(
        ResourceRef::from_str("xyz").unwrap_err(),
        ResourceRefError::BadHash
    );
    assert_eq!(
        ResourceRef::from_str("00ff").unwrap_err(),
        ResourceRefError::BadHashSize
    );
    assert_eq!(str_to_hash(hex40).unwrap().len(), 20);
}

#[test]
fn resource_magics_are_recognised() {
    let cases: [(&[u8], ResourceType); 5] = [
        (b"LVLb\x00\x00\x01\x00\x00", ResourceType::Level),
        (b"TEX \xff\xff", ResourceType::Texture),
        (b"PLNb\x00\x00\x01\x00\x00", ResourceType::Plan),
        (b"\xff\xd8\xff\xe0rest", ResourceType::Jpeg),
        (
            b"\x89\x50\x4e\x47\x0d\x0a\x1a\x0a rest",
            ResourceType::Png,
        ),
    ];
    for (bytes, expected) in cases {
        let mut cur = ByteCursor::new(bytes.to_vec());
        assert_eq!(ResourceType::from_magic(&mut cur), Ok(expected));
    }
    let mut cur = ByteCursor::new(b"????????".to_vec());
    assert_eq!(ResourceType::from_magic(&mut cur), Ok(ResourceType::Unknown));
    let mut cur = ByteCursor::new(b"??".to_vec());
    assert_eq!(
        ResourceType::from_magic(&mut cur),
        Err(DecodeError::Truncated)
    );
}

#[test]
fn resource_header_fields_follow_the_revision() {
    // plain types carry nothing beyond the magic
    let info = ResourceInfo::parse_from_res(b"TEX junk".to_vec()).unwrap();
    assert_eq!(info.res_type, ResourceType::Texture);
    assert_eq!(info.revision, None);

    // an old container revision: revision only
    let mut data = b"LVLb".to_vec();
    data.extend_from_slice(&0x100u32.to_be_bytes());
    let info = ResourceInfo::parse_from_res(data).unwrap();
    assert_eq!(info.revision, Some(0x100));
    assert_eq!(info.dependency_table, None);

    // a modern revision: dependency table, branch, flags, compressed byte
    let mut data = b"LVLb".to_vec();
    data.extend_from_slice(&0x300u32.to_be_bytes());
    data.extend_from_slice(&0xAABBu32.to_be_bytes());
    data.extend_from_slice(&0x4c44u16.to_be_bytes());
    data.extend_from_slice(&2u16.to_be_bytes());
    data.push(7);
    data.push(1);
    let info = ResourceInfo::parse_from_res(data).unwrap();
    assert_eq!(info.revision, Some(0x300));
    assert_eq!(info.dependency_table, Some(0xAABB));
    let branch = info.branch.unwrap();
    assert_eq!((branch.id, branch.revision), (0x4c44, 2));
    assert_eq!(info.compression_flags, Some(7));
    assert_eq!(info.is_compressed, Some(true));

    // the leerdammer case: revision 0x272 on branch LD at branch revision 2
    let mut data = b"LVLb".to_vec();
    data.extend_from_slice(&0x272u32.to_be_bytes());
    data.extend_from_slice(&0u32.to_be_bytes());
    data.extend_from_slice(&0x4c44u16.to_be_bytes());
    data.extend_from_slice(&2u16.to_be_bytes());
    data.push(3);
    data.push(0);
    let info = ResourceInfo::parse_from_res(data).unwrap();
    assert_eq!(info.compression_flags, Some(3));
    assert_eq!(info.is_compressed, Some(false));

    // a mid-range revision reads no branch and no flags
    let mut data = b"LVLb".to_vec();
    data.extend_from_slice(&0x200u32.to_be_bytes());
    data.extend_from_slice(&1u32.to_be_bytes());
    data.push(1);
    let info = ResourceInfo::parse_from_res(data).unwrap();
    assert_eq!(info.branch, None);
    assert_eq!(info.compression_flags, None);
    assert_eq!(info.is_compressed, Some(true));

    // truncation is an error, not a panic
    let mut data = b"LVLb".to_vec();
    data.extend_from_slice(&0x300u32.to_be_bytes());
    assert_eq!(
        ResourceInfo::parse_from_res(data).unwrap_err(),
        DecodeError::Truncated
    );
}

fn minimal_ticket(expire: u64) -> Vec<u8> {
    fn field(tag: u16, payload: &[u8]) -> Vec<u8> {
        let mut out = Vec::new();
        out.extend_from_slice(&tag.to_be_bytes());
        out.extend_from_slice(&(payload.len() as u16).to_be_bytes());
        out.extend_from_slice(payload);
        out
    }
    let mut content = Vec::new();
    content.extend_from_slice(&field(0x08, &[1]));
    content.extend_from_slice(&field(0x01, &0u32.to_be_bytes()));
    content.extend_from_slice(&field(0x07, &0u64.to_be_bytes()));
    content.extend_from_slice(&field(0x07, &expire.to_be_bytes()));
    content.extend_from_slice(&field(0x02, &42u64.to_be_bytes()));
    content.extend_from_slice(&field(0x04, b"who"));
    content.extend_from_slice(&field(0x08, b"un"));
    content.extend_from_slice(&field(0x04, b"c"));
    content.extend_from_slice(&field(0x08, b"UP9000-BCUS98148_00"));
    content.extend_from_slice(&field(0x01, &0u32.to_be_bytes()));
    content.extend_from_slice(&field(0x00, b""));
    content.extend_from_slice(&field(0x00, b""));
    let mut body = vec![0x00, 0x00];
    body.extend_from_slice(&(content.len() as u16).to_be_bytes());
    body.extend_from_slice(&content);
    let mut footer_content = Vec::new();
    footer_content.extend_from_slice(&field(0x08, b"RPCN"));
    footer_content.extend_from_slice(&field(0x08, &[0xAA; 8]));
    let mut footer = vec![0x00, 0x02];
    footer.extend_from_slice(&(footer_content.len() as u16).to_be_bytes());
    footer.extend_from_slice(&footer_content);
    let mut bytes = vec![0x21, 0x01, 0, 0, 0, 0];
    bytes.extend_from_slice(&((body.len() + footer.len()) as u16).to_be_bytes());
    bytes.extend_from_slice(&body);
    bytes.extend_from_slice(&footer);
    bytes
}

#[test]
fn login_rejects_expired_tickets_only_when_enabled() {
    let store = PubKeyStore::new();
    let bytes = minimal_ticket(5_000);

    let err = login_ticket(bytes.clone(), 5_000, true, false, &store).unwrap_err();
    assert_eq!(err, AuthError::Expired);
    assert!(!err.is_bad_request());

    let ok = login_ticket(bytes.clone(), 4_999, true, false, &store).unwrap();
    assert_eq!(ok.platform, Platform::Rpcn);
    assert_eq!(ok.user_id, 42);
    assert_eq!(ok.online_id, "who");
    assert_eq!(ok.service_id, "UP9000-BCUS98148_00");

    // expiry in the past but the check disabled: the ticket passes
    assert!(login_ticket(bytes, 9_999, false, false, &store).is_ok());
}

#[test]
fn login_maps_decode_failures_to_malformed() {
    let store = PubKeyStore::new();
    let err = login_ticket(vec![1, 2, 3], 0, true, true, &store).unwrap_err();
    assert_eq!(err, AuthError::Malformed(DecodeError::Truncated));
    assert!(err.is_bad_request());
}

#[test]
fn login_with_signature_check_rejects_a_bogus_signature() {
    let store = PubKeyStore::new();
    // the minimal ticket's signature is garbage, so with verification on the
    // login must fail with a mismatch (against the real RPCN key)
    let err = login_ticket(minimal_ticket(u64::MAX), 0, true, true, &store).unwrap_err();
    assert!(
        matches!(
            err,
            AuthError::SignatureMismatch | AuthError::SignatureFailure(VerifyError::Backend)
        ),
        "got {:?}",
        err
    );
}

#[test]
fn production_registry_is_fixed() {
    let store = PubKeyStore::new();
    assert_eq!(store.psn.curve, CurveKind::Prime192v1);
    assert_eq!(store.psn.digest, DigestKind::Sha1);
    assert_eq!(store.psn.x.len(), 24);
    assert_eq!(store.psn.y.len(), 24);
    assert_eq!(store.rpcn.curve, CurveKind::Secp224k1);
    assert_eq!(store.rpcn.digest, DigestKind::Sha224);
    assert_eq!(store.rpcn.x.len(), 28);
    assert_eq!(store.rpcn.y.len(), 28);
    assert_eq!(to_hex(&store.psn.x), "39c62d061d4ee35c5f3f7531de0af3cf918346526edac727");
}

#[test]
fn decode_errors_carry_a_description() {
    assert_eq!(DecodeError::Truncated.describe(), "ticket buffer is truncated");
    assert_eq!(
        DecodeError::UnsupportedPlatform.describe(),
        "unknown signature key id"
    );
}

#[test]
fn verify_error_variants_are_reachable() {
    let store = PubKeyStore::new();
    // a PSN ticket whose signature field is a single byte: no DER length
    let mut t = {
        let bytes = minimal_ticket(0);
        sacklite::npticket::NpTicket::parse_from_bytes(bytes).unwrap()
    };
    t.footer.key_id = Platform::Psn;
    t.footer.signature = vec![0x30];
    assert_eq!(
        t.verify_signature(&store),
        Err(VerifyError::MissingDerLength)
    );
    t.footer.signature = vec![0x30, 0x20, 0x02];
    assert_eq!(
        t.verify_signature(&store),
        Err(VerifyError::InvalidDerLength)
    );
}
