//! The login decision: decode the presented ticket, check its expiry when
//! that check is enabled, verify its signature when that check is enabled,
//! and hand the session-issuing collaborator exactly the platform, numeric
//! user id, online display name and service id. Everything ticket-derived
//! beyond those four values is discarded with the ticket.
//!
//! The caller supplies the clock reading and the two configuration booleans;
//! this function is a pure decision over them and the raw bytes.

use vstd::prelude::*;

use crate::error::{DecodeError, VerifyError};
use crate::npticket::{spec_parse_ticket, spec_verify_signature, NpTicket, TicketValue};
use crate::platform::Platform;
use crate::pub_key_store::{PubKeyStore, PubKeyStoreValue};

verus! {

/// Why a login was refused. `Malformed` and `SignatureFailure` denote bad
/// client input (an HTTP 400); `Expired` and `SignatureMismatch` denote a
/// failed authentication check (an HTTP 401).
#[derive(Debug, Clone, Copy, PartialEq, Eq, Structural)]
pub enum AuthError {
    /// The ticket buffer does not decode.
    Malformed(DecodeError),
    /// The ticket's expiry timestamp is not in the future.
    Expired,
    /// The signature could not be prepared or checked at all.
    SignatureFailure(VerifyError),
    /// The signature is well-formed but does not match the data and key.
    SignatureMismatch,
}

impl AuthError {
    /// Whether the error is a malformed request (an HTTP 400) rather than a
    /// failed authentication check (an HTTP 401).
    pub open spec fn spec_is_bad_request(self) -> bool {
        self is Malformed || self is SignatureFailure
    }

    pub fn is_bad_request(&self) -> (r: bool)
        ensures
            r == self.spec_is_bad_request(),
    {
        match self {
            AuthError::Malformed(_) => true,
            AuthError::SignatureFailure(_) => true,
            AuthError::Expired => false,
            AuthError::SignatureMismatch => false,
        }
    }
}

/// What a successful login hands to the session-issuing collaborator.
#[derive(Debug)]
pub struct SessionInfo {
    pub platform: Platform,
    pub user_id: u64,
    pub online_id: String,
    pub service_id: String,
}

/// The mathematical value of the session handoff.
pub struct SessionInfoValue {
    pub platform: Platform,
    pub user_id: u64,
    pub online_id: Seq<char>,
    pub service_id: Seq<char>,
}

impl View for SessionInfo {
    type V = SessionInfoValue;

    open spec fn view(&self) -> SessionInfoValue {
        SessionInfoValue {
            platform: self.platform,
            user_id: self.user_id,
            online_id: self.online_id@,
            service_id: self.service_id@,
        }
    }
}

/// The handoff a decoded ticket yields.
pub open spec fn spec_session_of(t: TicketValue) -> SessionInfoValue {
    SessionInfoValue {
        platform: t.footer.key_id,
        user_id: t.body.user_id,
        online_id: t.body.online_id,
        service_id: t.body.service_id,
    }
}

/// The login outcome for a raw ticket buffer: decode, then (when enabled)
/// reject a ticket whose expiry timestamp is at or before `now_ms`, then
/// (when enabled) verify the signature and reject a clean non-match.
pub open spec fn spec_login(
    bytes: Seq<u8>,
    now_ms: u64,
    verify_expiry: bool,
    verify_sig: bool,
    s: PubKeyStoreValue,
) -> Result<SessionInfoValue, AuthError> {
    match spec_parse_ticket(bytes) {
        Err(e) => Err(AuthError::Malformed(e)),
        Ok(t) => if verify_expiry && t.body.expire_date <= now_ms {
            Err(AuthError::Expired)
        } else if verify_sig {
            match spec_verify_signature(t, s) {
                Err(e) => Err(AuthError::SignatureFailure(e)),
                Ok(true) => Ok(spec_session_of(t)),
                Ok(false) => Err(AuthError::SignatureMismatch),
            }
        } else {
            Ok(spec_session_of(t))
        },
    }
}

/// Decides a login request. `now_ms` is the caller's clock reading in
/// milliseconds since the epoch; the two booleans are the externally-owned
/// configuration switches. The outcome agrees exactly with `spec_login`,
/// except that a failure of the cryptographic backend itself surfaces as
/// `SignatureFailure(Backend)`.
pub fn login_ticket(
    bytes: Vec<u8>,
    now_ms: u64,
    verify_expiry: bool,
    verify_sig: bool,
    store: &PubKeyStore,
) -> (r: Result<SessionInfo, AuthError>)
    ensures
        spec_login(bytes@, now_ms, verify_expiry, verify_sig, store@) matches Err(e) ==> ({
            ||| r == Err::<SessionInfo, AuthError>(e)
            ||| (e == AuthError::SignatureMismatch && r == Err::<SessionInfo, AuthError>(
                AuthError::SignatureFailure(VerifyError::Backend),
            ))
        }),
        spec_login(bytes@, now_ms, verify_expiry, verify_sig, store@) matches Ok(v) ==> ({
            ||| ({
                &&& r matches Ok(si)
                &&& si@ == v
            })
            ||| (verify_sig && r == Err::<SessionInfo, AuthError>(
                AuthError::SignatureFailure(VerifyError::Backend),
            ))
        }),
{
    let ticket = match NpTicket::parse_from_bytes(bytes) {
        Ok(t) => t,
        Err(e) => {
            return Err(AuthError::Malformed(e));
        },
    };
    if verify_expiry && ticket.body.expire_date <= now_ms {
        return Err(AuthError::Expired);
    }
    if verify_sig {
        match ticket.verify_signature(store) {
            Err(e) => {
                return Err(AuthError::SignatureFailure(e));
            },
            Ok(false) => {
                return Err(AuthError::SignatureMismatch);
            },
            Ok(true) => {},
        }
    }
    Ok(
        SessionInfo {
            platform: ticket.footer.key_id,
            user_id: ticket.body.user_id,
            online_id: ticket.body.online_id,
            service_id: ticket.body.service_id,
        },
    )
}

} // verus!
