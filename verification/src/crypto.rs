//! The two cryptographic primitives the library leans on: the SHA-1 digest
//! used by the integrity scheme, and one-shot elliptic-curve signature
//! verification over a public key given by its affine coordinates. Both
//! results are named, not restated: nothing here spells out SHA-1 or ECDSA.

use vstd::prelude::*;

use openssl::bn::BigNum;
use openssl::ec::{EcGroup, EcKey};
use openssl::hash::MessageDigest;
use openssl::nid::Nid;
use openssl::pkey::PKey;
use openssl::sign::Verifier;
use sha1::{Digest, Sha1};

use crate::error::VerifyError;
use crate::pub_key_store::{CurveKind, DigestKind};

verus! {

/// The SHA-1 digest of a byte string: a fixed function of the input alone.
pub uninterp spec fn sha1_of(data: Seq<u8>) -> Seq<u8>;

/// Relies on the sha1 crate (`Sha1::new`, `Digest::update`,
/// `Digest::finalize`): the digest depends on the input bytes alone and is
/// 20 bytes long.
#[verifier::external_body]
pub(crate) fn sha1_digest(data: &[u8]) -> (r: Vec<u8>)
    ensures
        r@ == sha1_of(data@),
        r@.len() == 20,
{
    let mut h = Sha1::new();
    h.update(data);
    h.finalize().to_vec()
}

/// Whether the elliptic-curve signature check accepts `sig` over `data`,
/// for the public key with affine coordinates `(x, y)` on `curve`, hashing
/// with `digest`: a fixed function of these arguments alone.
pub uninterp spec fn ec_accepts(
    curve: CurveKind,
    digest: DigestKind,
    x: Seq<u8>,
    y: Seq<u8>,
    sig: Seq<u8>,
    data: Seq<u8>,
) -> bool;

/// Relies on openssl: `EcGroup::from_curve_name`, `BigNum::from_slice`,
/// `EcKey::from_public_key_affine_coordinates`, `PKey::from_ec_key`,
/// `Verifier::new` and `Verifier::verify_oneshot`. The check's outcome is
/// deterministic in the curve, digest algorithm, key coordinates, signature
/// and data; any backend failure surfaces as an error, never as a bogus
/// boolean.
#[verifier::external_body]
pub(crate) fn ec_verify(
    curve: CurveKind,
    digest: DigestKind,
    x: &[u8],
    y: &[u8],
    sig: &[u8],
    data: &[u8],
) -> (r: Result<bool, VerifyError>)
    ensures
        r matches Ok(b) ==> b == ec_accepts(curve, digest, x@, y@, sig@, data@),
        r matches Err(e) ==> e == VerifyError::Backend,
{
    let nid = if matches!(curve, CurveKind::Prime192v1) { Nid::X9_62_PRIME192V1 } else { Nid::SECP224K1 };
    let md = if matches!(digest, DigestKind::Sha1) { MessageDigest::sha1() } else { MessageDigest::sha224() };
    let outcome = (|| -> Result<bool, openssl::error::ErrorStack> {
        let group = EcGroup::from_curve_name(nid)?;
        let bx = BigNum::from_slice(x)?;
        let by = BigNum::from_slice(y)?;
        let key = EcKey::from_public_key_affine_coordinates(&group, &bx, &by)?;
        let pkey = PKey::from_ec_key(key)?;
        let mut verifier = Verifier::new(md, &pkey)?;
        verifier.verify_oneshot(sig, data)
    })();
    outcome.map_err(|_| VerifyError::Backend)
}

} // verus!
