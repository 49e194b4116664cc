//! Signature verification tests against freshly generated test keys: a valid
//! PSN ticket verifies, any flipped body byte stops verifying, and trailing
//! padding beyond the DER-declared signature length changes nothing.

use openssl::bn::{BigNum, BigNumContext};
use openssl::ec::{EcGroup, EcKey};
use openssl::hash::MessageDigest;
use openssl::nid::Nid;
use openssl::pkey::PKey;
use openssl::sign::Signer;

use sacklite::npticket::NpTicket;
use sacklite::platform::Platform;
use sacklite::pub_key_store::{CurveKind, DigestKind, KeyParams, PubKeyStore};

fn field(tag: u16, payload: &[u8]) -> Vec<u8> {
    let mut out = Vec::new();
    out.extend_from_slice(&tag.to_be_bytes());
    out.extend_from_slice(&(payload.len() as u16).to_be_bytes());
    out.extend_from_slice(payload);
    out
}

fn body_section() -> Vec<u8> {
    let mut content = Vec::new();
    content.extend_from_slice(&field(0x08, &[9, 9, 9, 9]));
    content.extend_from_slice(&field(0x01, &0x100u32.to_be_bytes()));
    content.extend_from_slice(&field(0x07, &1_000u64.to_be_bytes()));
    content.extend_from_slice(&field(0x07, &2_000u64.to_be_bytes()));
    content.extend_from_slice(&field(0x02, &77u64.to_be_bytes()));
    content.extend_from_slice(&field(0x04, b"player"));
    content.extend_from_slice(&field(0x08, b"un"));
    content.extend_from_slice(&field(0x04, b"c"));
    content.extend_from_slice(&field(0x08, b"UP9000-BCUS98148_00"));
    content.extend_from_slice(&field(0x01, &0u32.to_be_bytes()));
    content.extend_from_slice(&field(0x00, b""));
    content.extend_from_slice(&field(0x00, b""));
    let mut out = vec![0x00, 0x00];
    out.extend_from_slice(&(content.len() as u16).to_be_bytes());
    out.extend_from_slice(&content);
    out
}

/// Assembles a PSN ticket whose fixed-width signature slot holds `slot`
/// bytes, signs everything before the signature payload with the given key,
/// and writes the signature into the slot.
fn signed_psn_ticket(key: &EcKey<openssl::pkey::Private>, slot: usize) -> (Vec<u8>, usize) {
    let body = body_section();
    let mut footer_content = Vec::new();
    footer_content.extend_from_slice(&field(0x08, &[0x71, 0x9f, 0x1d, 0x4a]));
    footer_content.extend_from_slice(&field(0x08, &vec![0u8; slot]));
    let mut footer = vec![0x00, 0x02];
    footer.extend_from_slice(&(footer_content.len() as u16).to_be_bytes());
    footer.extend_from_slice(&footer_content);

    let mut bytes = Vec::new();
    bytes.push(0x21);
    bytes.push(0x01);
    bytes.extend_from_slice(&[0, 0, 0, 0]);
    bytes.extend_from_slice(&((body.len() + footer.len()) as u16).to_be_bytes());
    bytes.extend_from_slice(&body);
    bytes.extend_from_slice(&footer);

    // the PSN scheme signs everything before the signature payload
    let sig_start = bytes.len() - slot;
    let pkey = PKey::from_ec_key(key.clone()).unwrap();
    let mut signer = Signer::new(MessageDigest::sha1(), &pkey).unwrap();
    let sig = signer.sign_oneshot_to_vec(&bytes[..sig_start]).unwrap();
    assert!(sig.len() <= slot, "signature must fit the slot");
    bytes[sig_start..sig_start + sig.len()].copy_from_slice(&sig);
    (bytes, sig.len())
}

/// A registry whose PSN entry is the given test key; the RPCN entry is the
/// production one.
fn test_store(key: &EcKey<openssl::pkey::Private>, group: &EcGroup) -> PubKeyStore {
    let mut ctx = BigNumContext::new().unwrap();
    let mut x = BigNum::new().unwrap();
    let mut y = BigNum::new().unwrap();
    key.public_key()
        .affine_coordinates(group, &mut x, &mut y, &mut ctx)
        .unwrap();
    let production = PubKeyStore::new();
    PubKeyStore {
        psn: KeyParams {
            curve: CurveKind::Prime192v1,
            digest: DigestKind::Sha1,
            x: x.to_vec(),
            y: y.to_vec(),
        },
        rpcn: production.rpcn,
    }
}

#[test]
fn valid_psn_ticket_verifies_and_any_body_flip_fails() {
    let group = EcGroup::from_curve_name(Nid::X9_62_PRIME192V1).unwrap();
    let key = EcKey::generate(&group).unwrap();
    let store = test_store(&key, &group);
    let (bytes, _) = signed_psn_ticket(&key, 64);

    let ticket = NpTicket::parse_from_bytes(bytes.clone()).expect("decode");
    assert_eq!(ticket.footer.key_id, Platform::Psn);
    assert_eq!(ticket.verify_signature(&store), Ok(true));

    // flipping any single byte of the body section must stop verification:
    // either the ticket no longer decodes, or the signature no longer matches
    let body_len = body_section().len();
    for i in 8..8 + body_len {
        let mut tampered = bytes.clone();
        tampered[i] ^= 0xFF;
        if let Ok(t) = NpTicket::parse_from_bytes(tampered) {
            assert_ne!(
                t.verify_signature(&store),
                Ok(true),
                "flipped byte {} must not verify",
                i
            );
        }
    }
}

#[test]
fn psn_der_padding_verifies_identically_to_stripped_signature() {
    let group = EcGroup::from_curve_name(Nid::X9_62_PRIME192V1).unwrap();
    let key = EcKey::generate(&group).unwrap();
    let store = test_store(&key, &group);
    let (bytes, sig_len) = signed_psn_ticket(&key, 64);

    let padded = NpTicket::parse_from_bytes(bytes.clone()).expect("decode");
    assert_eq!(padded.footer.signature.len(), 64);

    // the same ticket value with the zero padding stripped from the stored
    // signature: the verification outcome must be identical
    let mut stripped = NpTicket::parse_from_bytes(bytes).expect("decode");
    stripped.footer.signature.truncate(sig_len);

    let padded_result = padded.verify_signature(&store);
    let stripped_result = stripped.verify_signature(&store);
    assert_eq!(padded_result, stripped_result);
    assert_eq!(padded_result, Ok(true));
}

#[test]
fn psn_signature_shorter_than_der_length_is_an_error() {
    let group = EcGroup::from_curve_name(Nid::X9_62_PRIME192V1).unwrap();
    let key = EcKey::generate(&group).unwrap();
    let store = test_store(&key, &group);
    let (bytes, sig_len) = signed_psn_ticket(&key, 64);

    let mut short = NpTicket::parse_from_bytes(bytes).expect("decode");
    // cut below the DER-declared length: the stored bytes no longer cover it
    short.footer.signature.truncate(sig_len - 1);
    assert_eq!(
        short.verify_signature(&store),
        Err(sacklite::error::VerifyError::InvalidDerLength)
    );
}

#[test]
fn valid_rpcn_ticket_verifies_with_sha224() {
    let group = EcGroup::from_curve_name(Nid::SECP224K1).unwrap();
    let key = EcKey::generate(&group).unwrap();

    // an RPCN ticket: the signature covers exactly the body section
    let body = body_section();
    let mut footer_content = Vec::new();
    footer_content.extend_from_slice(&field(0x08, b"RPCN"));
    let mut bytes = Vec::new();
    bytes.push(0x21);
    bytes.push(0x01);
    bytes.extend_from_slice(&[0, 0, 0, 0]);
    bytes.extend_from_slice(&[0, 0]);
    bytes.extend_from_slice(&body);

    let pkey = PKey::from_ec_key(key.clone()).unwrap();
    let mut signer = Signer::new(MessageDigest::sha224(), &pkey).unwrap();
    let sig = signer.sign_oneshot_to_vec(&body).unwrap();
    footer_content.extend_from_slice(&field(0x08, &sig));
    let mut footer = vec![0x00, 0x02];
    footer.extend_from_slice(&(footer_content.len() as u16).to_be_bytes());
    footer.extend_from_slice(&footer_content);
    bytes.extend_from_slice(&footer);
    let declared = ((bytes.len() - 8) as u16).to_be_bytes();
    bytes[6] = declared[0];
    bytes[7] = declared[1];

    let mut ctx = BigNumContext::new().unwrap();
    let mut x = BigNum::new().unwrap();
    let mut y = BigNum::new().unwrap();
    key.public_key()
        .affine_coordinates(&group, &mut x, &mut y, &mut ctx)
        .unwrap();
    let production = PubKeyStore::new();
    let store = PubKeyStore {
        psn: production.psn,
        rpcn: KeyParams {
            curve: CurveKind::Secp224k1,
            digest: DigestKind::Sha224,
            x: x.to_vec(),
            y: y.to_vec(),
        },
    };

    let ticket = NpTicket::parse_from_bytes(bytes).expect("decode");
    assert_eq!(ticket.footer.key_id, Platform::Rpcn);
    assert_eq!(ticket.verify_signature(&store), Ok(true));
}
