//! The two supported identity providers, told apart by the 4-byte key id in
//! a ticket's footer.

use vstd::prelude::*;

use crate::error::DecodeError;

verus! {

/// A closed set of signing platforms; each maps to a fixed curve, digest
/// algorithm and verification byte-range rule.
#[derive(Debug, Clone, Copy, PartialEq, Eq, Structural)]
pub enum Platform {
    Psn,
    Rpcn,
}

/// The 4-byte footer key id that marks a PSN-signed ticket.
pub open spec fn psn_key_id() -> Seq<u8> {
    seq![0x71u8, 0x9fu8, 0x1du8, 0x4au8]
}

/// The 4-byte footer key id that marks an RPCN-signed ticket: the ASCII
/// bytes of "RPCN".
pub open spec fn rpcn_key_id() -> Seq<u8> {
    seq![0x52u8, 0x50u8, 0x43u8, 0x4eu8]
}

impl Platform {
    /// The platform a footer key id denotes: exactly the two known 4-byte
    /// constants are accepted.
    pub open spec fn spec_from_key_id(key_id: Seq<u8>) -> Result<Platform, DecodeError> {
        if key_id == psn_key_id() {
            Ok(Platform::Psn)
        } else if key_id == rpcn_key_id() {
            Ok(Platform::Rpcn)
        } else {
            Err(DecodeError::UnsupportedPlatform)
        }
    }

    pub fn from_key_id(key_id: &[u8]) -> (r: Result<Platform, DecodeError>)
        ensures
            r == Platform::spec_from_key_id(key_id@),
    {
        if key_id.len() == 4 {
            let b0 = key_id[0];
            let b1 = key_id[1];
            let b2 = key_id[2];
            let b3 = key_id[3];
            if b0 == 0x71 && b1 == 0x9f && b2 == 0x1d && b3 == 0x4a {
                proof {
                    assert(key_id@ =~= psn_key_id());
                }
                return Ok(Platform::Psn);
            }
            if b0 == 0x52 && b1 == 0x50 && b2 == 0x43 && b3 == 0x4e {
                proof {
                    assert(key_id@ =~= rpcn_key_id());
                }
                return Ok(Platform::Rpcn);
            }
        }
        proof {
            assert(key_id@ != psn_key_id() && key_id@ != rpcn_key_id()) by {
                if key_id@ == psn_key_id() {
                    assert(key_id@.len() == 4);
                    assert(key_id@[0] == 0x71 && key_id@[1] == 0x9f && key_id@[2] == 0x1d
                        && key_id@[3] == 0x4a);
                }
                if key_id@ == rpcn_key_id() {
                    assert(key_id@.len() == 4);
                    assert(key_id@[0] == 0x52 && key_id@[1] == 0x50 && key_id@[2] == 0x43
                        && key_id@[3] == 0x4e);
                }
            }
        }
        Err(DecodeError::UnsupportedPlatform)
    }

    /// The stable numeric code of a platform, used when a session stores it.
    pub open spec fn spec_to_u8(self) -> u8 {
        match self {
            Platform::Psn => 0,
            Platform::Rpcn => 1,
        }
    }

    pub fn to_u8(self) -> (r: u8)
        ensures
            r == self.spec_to_u8(),
    {
        match self {
            Platform::Psn => 0,
            Platform::Rpcn => 1,
        }
    }

    /// The platform a stored numeric code denotes, if any.
    pub fn try_from_u8(v: u8) -> (r: Result<Platform, ()>)
        ensures
            r matches Ok(p) ==> p.spec_to_u8() == v,
            r is Err <==> v >= 2,
    {
        match v {
            0 => Ok(Platform::Psn),
            1 => Ok(Platform::Rpcn),
            _ => Err(()),
        }
    }
}

} // verus!
