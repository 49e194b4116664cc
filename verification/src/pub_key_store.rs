//! The process-wide, read-only registry of the two providers' elliptic-curve
//! public keys. Built once at startup and never mutated; each entry carries
//! the named curve, the digest algorithm, and the public key's affine
//! coordinates as plain bytes.

use vstd::prelude::*;

use crate::platform::Platform;

verus! {

/// The named curves the providers sign with.
#[derive(Debug, Clone, Copy, PartialEq, Eq, Structural)]
pub enum CurveKind {
    /// The 192-bit prime curve (X9.62 prime192v1).
    Prime192v1,
    /// The 224-bit Koblitz curve (secp224k1).
    Secp224k1,
}

/// The digest algorithms the providers sign with.
#[derive(Debug, Clone, Copy, PartialEq, Eq, Structural)]
pub enum DigestKind {
    Sha1,
    Sha224,
}

/// One provider's verification parameters: a named curve, a digest
/// algorithm, and the public key's affine coordinates.
#[derive(Debug)]
pub struct KeyParams {
    pub curve: CurveKind,
    pub digest: DigestKind,
    pub x: Vec<u8>,
    pub y: Vec<u8>,
}

/// The mathematical value of a key entry.
pub struct KeyParamsValue {
    pub curve: CurveKind,
    pub digest: DigestKind,
    pub x: Seq<u8>,
    pub y: Seq<u8>,
}

impl View for KeyParams {
    type V = KeyParamsValue;

    open spec fn view(&self) -> KeyParamsValue {
        KeyParamsValue { curve: self.curve, digest: self.digest, x: self.x@, y: self.y@ }
    }
}

/// X coordinate of the PSN ticket-signing public key.
pub open spec fn psn_key_x() -> Seq<u8> {
    seq![
        0x39u8, 0xc6u8, 0x2du8, 0x06u8, 0x1du8, 0x4eu8, 0xe3u8, 0x5cu8, 0x5fu8, 0x3fu8, 0x75u8,
        0x31u8, 0xdeu8, 0x0au8, 0xf3u8, 0xcfu8, 0x91u8, 0x83u8, 0x46u8, 0x52u8, 0x6eu8, 0xdau8,
        0xc7u8, 0x27u8,
    ]
}

/// Y coordinate of the PSN ticket-signing public key.
pub open spec fn psn_key_y() -> Seq<u8> {
    seq![
        0xa5u8, 0xd5u8, 0x78u8, 0xb5u8, 0x51u8, 0x13u8, 0xe6u8, 0x12u8, 0xbfu8, 0x18u8, 0x78u8,
        0xd4u8, 0xccu8, 0x93u8, 0x9du8, 0x61u8, 0xa4u8, 0x13u8, 0x18u8, 0x40u8, 0x3bu8, 0x5bu8,
        0xdfu8, 0x86u8,
    ]
}

/// X coordinate of the RPCN ticket-signing public key.
pub open spec fn rpcn_key_x() -> Seq<u8> {
    seq![
        0xb0u8, 0x7bu8, 0xc0u8, 0xf0u8, 0xadu8, 0xdbu8, 0x97u8, 0x65u8, 0x7eu8, 0x9fu8, 0x38u8,
        0x90u8, 0x39u8, 0xe8u8, 0xd2u8, 0xb9u8, 0xc9u8, 0x7du8, 0xc2u8, 0xa3u8, 0x1du8, 0x30u8,
        0x42u8, 0xe7u8, 0xd0u8, 0x47u8, 0x9bu8, 0x93u8,
    ]
}

/// Y coordinate of the RPCN ticket-signing public key.
pub open spec fn rpcn_key_y() -> Seq<u8> {
    seq![
        0xd8u8, 0x1cu8, 0x42u8, 0xb0u8, 0xabu8, 0xdfu8, 0x6cu8, 0x42u8, 0x19u8, 0x1au8, 0x31u8,
        0xe3u8, 0x1fu8, 0x93u8, 0x34u8, 0x2fu8, 0x8fu8, 0x03u8, 0x3bu8, 0xd5u8, 0x29u8, 0xc2u8,
        0xc5u8, 0x7fu8, 0xdbu8, 0x5au8, 0x0au8, 0x7du8,
    ]
}

/// The registry of both providers' keys.
#[derive(Debug)]
pub struct PubKeyStore {
    pub psn: KeyParams,
    pub rpcn: KeyParams,
}

/// The mathematical value of the registry.
pub struct PubKeyStoreValue {
    pub psn: KeyParamsValue,
    pub rpcn: KeyParamsValue,
}

impl View for PubKeyStore {
    type V = PubKeyStoreValue;

    open spec fn view(&self) -> PubKeyStoreValue {
        PubKeyStoreValue { psn: self.psn@, rpcn: self.rpcn@ }
    }
}

impl PubKeyStoreValue {
    /// The entry consulted for a platform: PSN maps to the 192-bit prime
    /// curve with SHA-1, RPCN to the 224-bit Koblitz curve with SHA-224.
    pub open spec fn entry_for(self, p: Platform) -> KeyParamsValue {
        match p {
            Platform::Psn => self.psn,
            Platform::Rpcn => self.rpcn,
        }
    }
}

impl PubKeyStore {
    /// Builds the fixed production registry.
    pub fn new() -> (r: PubKeyStore)
        ensures
            r.psn.curve == CurveKind::Prime192v1,
            r.psn.digest == DigestKind::Sha1,
            r.psn.x@ == psn_key_x(),
            r.psn.y@ == psn_key_y(),
            r.rpcn.curve == CurveKind::Secp224k1,
            r.rpcn.digest == DigestKind::Sha224,
            r.rpcn.x@ == rpcn_key_x(),
            r.rpcn.y@ == rpcn_key_y(),
    {
        let psn_x: Vec<u8> = vec![
            0x39u8, 0xc6u8, 0x2du8, 0x06u8, 0x1du8, 0x4eu8, 0xe3u8, 0x5cu8, 0x5fu8, 0x3fu8,
            0x75u8, 0x31u8, 0xdeu8, 0x0au8, 0xf3u8, 0xcfu8, 0x91u8, 0x83u8, 0x46u8, 0x52u8,
            0x6eu8, 0xdau8, 0xc7u8, 0x27u8,
        ];
        let psn_y: Vec<u8> = vec![
            0xa5u8, 0xd5u8, 0x78u8, 0xb5u8, 0x51u8, 0x13u8, 0xe6u8, 0x12u8, 0xbfu8, 0x18u8,
            0x78u8, 0xd4u8, 0xccu8, 0x93u8, 0x9du8, 0x61u8, 0xa4u8, 0x13u8, 0x18u8, 0x40u8,
            0x3bu8, 0x5bu8, 0xdfu8, 0x86u8,
        ];
        let rpcn_x: Vec<u8> = vec![
            0xb0u8, 0x7bu8, 0xc0u8, 0xf0u8, 0xadu8, 0xdbu8, 0x97u8, 0x65u8, 0x7eu8, 0x9fu8,
            0x38u8, 0x90u8, 0x39u8, 0xe8u8, 0xd2u8, 0xb9u8, 0xc9u8, 0x7du8, 0xc2u8, 0xa3u8,
            0x1du8, 0x30u8, 0x42u8, 0xe7u8, 0xd0u8, 0x47u8, 0x9bu8, 0x93u8,
        ];
        let rpcn_y: Vec<u8> = vec![
            0xd8u8, 0x1cu8, 0x42u8, 0xb0u8, 0xabu8, 0xdfu8, 0x6cu8, 0x42u8, 0x19u8, 0x1au8,
            0x31u8, 0xe3u8, 0x1fu8, 0x93u8, 0x34u8, 0x2fu8, 0x8fu8, 0x03u8, 0x3bu8, 0xd5u8,
            0x29u8, 0xc2u8, 0xc5u8, 0x7fu8, 0xdbu8, 0x5au8, 0x0au8, 0x7du8,
        ];
        proof {
            assert(psn_x@ =~= psn_key_x());
            assert(psn_y@ =~= psn_key_y());
            assert(rpcn_x@ =~= rpcn_key_x());
            assert(rpcn_y@ =~= rpcn_key_y());
        }
        PubKeyStore {
            psn: KeyParams {
                curve: CurveKind::Prime192v1,
                digest: DigestKind::Sha1,
                x: psn_x,
                y: psn_y,
            },
            rpcn: KeyParams {
                curve: CurveKind::Secp224k1,
                digest: DigestKind::Sha224,
                x: rpcn_x,
                y: rpcn_y,
            },
        }
    }

    /// The registry entry for a platform.
    pub fn lookup(&self, p: Platform) -> (r: &KeyParams)
        ensures
            r@ == self@.entry_for(p),
    {
        match p {
            Platform::Psn => &self.psn,
            Platform::Rpcn => &self.rpcn,
        }
    }
}

} // verus!
