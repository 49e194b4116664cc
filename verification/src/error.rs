//! Error taxonomy: structural ticket failures, unknown signing platforms,
//! signature-layer failures, and the authentication-level outcomes built from
//! them. Every failure here maps to a client-facing rejection, never to a
//! crash: decoding and verification are total over arbitrary input bytes.

use vstd::prelude::*;

verus! {

/// A structural (TLV) violation found while decoding a ticket buffer.
#[derive(Debug, Clone, Copy, PartialEq, Eq, Structural)]
pub enum DecodeError {
    /// The buffer ended before a read completed.
    Truncated,
    /// The ticket version is not the supported (2, 1).
    UnsupportedVersion,
    /// The declared ticket length does not equal the buffer length minus the
    /// 8-byte header.
    LengthMismatch,
    /// A section header carries a type tag that is neither body nor footer.
    InvalidSectionType,
    /// A section appeared out of the required body-then-footer order.
    UnexpectedSectionType,
    /// A field carries an unknown type tag.
    InvalidFieldType,
    /// A fixed-size field declares a length other than its type's size, or an
    /// empty field declares a non-zero length.
    InvalidFieldLength,
    /// A field was well-formed but of a different type than the ticket layout
    /// requires at its position.
    UnexpectedFieldType,
    /// A string field's payload is not valid UTF-8.
    InvalidUtf8,
    /// The footer's key id matches no known signing platform.
    UnsupportedPlatform,
}

/// A failure while preparing a signature for verification, as opposed to a
/// clean "does not verify" result.
#[derive(Debug, Clone, Copy, PartialEq, Eq, Structural)]
pub enum VerifyError {
    /// The signature is too short to carry the DER length byte at offset 1.
    MissingDerLength,
    /// The DER-declared length exceeds the stored signature bytes.
    InvalidDerLength,
    /// The cryptographic backend rejected the key material or the signature
    /// request itself.
    Backend,
}

impl DecodeError {
    /// A short stable description, suitable for a client-facing message.
    pub fn describe(&self) -> (r: &'static str)
        ensures
            r@.len() > 0,
    {
        let s = match self {
            DecodeError::Truncated => "ticket buffer is truncated",
            DecodeError::UnsupportedVersion => "unsupported ticket version",
            DecodeError::LengthMismatch => "ticket length mismatch",
            DecodeError::InvalidSectionType => "invalid section type",
            DecodeError::UnexpectedSectionType => "unexpected section type",
            DecodeError::InvalidFieldType => "invalid field type",
            DecodeError::InvalidFieldLength => "invalid field length",
            DecodeError::UnexpectedFieldType => "unexpected field type",
            DecodeError::InvalidUtf8 => "field is not valid UTF-8",
            DecodeError::UnsupportedPlatform => "unknown signature key id",
        };
        proof {
            reveal_strlit("ticket buffer is truncated");
            reveal_strlit("unsupported ticket version");
            reveal_strlit("ticket length mismatch");
            reveal_strlit("invalid section type");
            reveal_strlit("unexpected section type");
            reveal_strlit("invalid field type");
            reveal_strlit("invalid field length");
            reveal_strlit("unexpected field type");
            reveal_strlit("field is not valid UTF-8");
            reveal_strlit("unknown signature key id");
        }
        s
    }
}

} // verus!
