//! The request/response integrity-digest engine.
//!
//! A digest is the lowercase hex of SHA-1 over body, session cookie, path
//! and shared secret, concatenated in that fixed order. Inbound checking
//! skips verification when enforcement is off or the path is exempt;
//! otherwise upload routes exclude the request body and expect the
//! `X-Digest-B` header, while every other route includes the body and
//! expects `X-Digest-A`. A missing or mismatching header rejects the
//! request. The path used in the computation is the request path with the
//! externally-configured base-path prefix stripped, since the client
//! computes its digest against the un-prefixed path.
//!
//! Everything here is a pure function of its arguments: the HTTP plumbing
//! that buffers bodies and re-attaches them lives with the caller, which
//! hands in plain values. Since the scheme defines one digest over the whole
//! body, the caller must buffer the body in full; there is no streaming form.

use vstd::prelude::*;

use vstd::string::StringSliceAdditionalSpecFns;
use vstd::utf8::{encode_utf8, encode_utf8_decode_utf8};

use crate::crypto::{sha1_digest, sha1_of};
use crate::hex::{hex_of, to_hex};
use crate::strutil::{append_bytes, bytes_eq};

verus! {

/// The integrity digest of the given parts: lowercase hex of SHA-1 over
/// body, then cookie, then path, then secret.
pub open spec fn spec_digest_bytes(
    body: Seq<u8>,
    cookie: Seq<u8>,
    path: Seq<u8>,
    secret: Seq<u8>,
) -> Seq<char> {
    hex_of(sha1_of(body + cookie + path + secret))
}

/// Computes the integrity digest. The concatenation order is fixed by the
/// protocol; reordering it would desynchronize from the client's own
/// computation.
pub fn compute_digest(body: &[u8], cookie: &str, path: &str, secret: &str) -> (r: String)
    ensures
        r@ == spec_digest_bytes(body@, cookie.spec_bytes(), path.spec_bytes(), secret.spec_bytes()),
        r@.len() == 40,
{
    let mut buf: Vec<u8> = Vec::new();
    append_bytes(&mut buf, body);
    append_bytes(&mut buf, cookie.as_bytes());
    append_bytes(&mut buf, path.as_bytes());
    append_bytes(&mut buf, secret.as_bytes());
    let d = sha1_digest(buf.as_slice());
    to_hex(d.as_slice())
}

/// The eight paths that skip digest verification: the game does not send
/// digests before the announcement, and these endpoints are reachable
/// without one.
pub open spec fn spec_is_exempt_path(p: Seq<u8>) -> bool {
    ||| p == "/login".spec_bytes()
    ||| p == "/eula".spec_bytes()
    ||| p == "/announce".spec_bytes()
    ||| p == "/status".spec_bytes()
    ||| p == "/farc_hashes".spec_bytes()
    ||| p == "/t_conf".spec_bytes()
    ||| p == "/network_settings.nws".spec_bytes()
    ||| p == "/ChallengeConfig.xml".spec_bytes()
}

/// Whether a path (base prefix already stripped) skips digest verification.
pub fn is_exempt_path(path: &[u8]) -> (r: bool)
    ensures
        r == spec_is_exempt_path(path@),
{
    bytes_eq(path, "/login".as_bytes()) || bytes_eq(path, "/eula".as_bytes()) || bytes_eq(
        path,
        "/announce".as_bytes(),
    ) || bytes_eq(path, "/status".as_bytes()) || bytes_eq(path, "/farc_hashes".as_bytes())
        || bytes_eq(path, "/t_conf".as_bytes()) || bytes_eq(path, "/network_settings.nws".as_bytes())
        || bytes_eq(path, "/ChallengeConfig.xml".as_bytes())
}

/// The prefix that marks a resource-upload route.
pub open spec fn spec_upload_prefix() -> Seq<u8> {
    "/upload/".spec_bytes()
}

/// Whether a path (base prefix already stripped) is an upload route: the
/// game computes upload digests without the request body.
pub open spec fn spec_is_upload_path(p: Seq<u8>) -> bool {
    p.len() >= spec_upload_prefix().len() && p.subrange(0, spec_upload_prefix().len() as int)
        == spec_upload_prefix()
}

pub fn is_upload_path(path: &[u8]) -> (r: bool)
    ensures
        r == spec_is_upload_path(path@),
{
    let prefix = "/upload/".as_bytes();
    if path.len() < prefix.len() {
        return false;
    }
    bytes_eq(vstd::slice::slice_subrange(path, 0, prefix.len()), prefix)
}

/// `p` with the prefix `base` removed if it starts with it, else `p` itself.
pub open spec fn spec_strip_prefix(p: Seq<u8>, base: Seq<u8>) -> Seq<u8> {
    if base.len() <= p.len() && p.subrange(0, base.len() as int) == base {
        p.subrange(base.len() as int, p.len() as int)
    } else {
        p
    }
}

/// Copy of `path` with the base-path prefix removed if present.
pub fn strip_prefix_bytes(path: &[u8], base: &[u8]) -> (r: Vec<u8>)
    ensures
        r@ == spec_strip_prefix(path@, base@),
{
    if base.len() <= path.len() && bytes_eq(
        vstd::slice::slice_subrange(path, 0, base.len()),
        base,
    ) {
        vstd::slice::slice_to_vec(vstd::slice::slice_subrange(path, base.len(), path.len()))
    } else {
        vstd::slice::slice_to_vec(path)
    }
}

/// The digest-relevant path of a request: its path with the base prefix
/// stripped, as UTF-8 bytes.
pub open spec fn spec_request_path(path: Seq<char>, base: Seq<char>) -> Seq<u8> {
    spec_strip_prefix(encode_utf8(path), encode_utf8(base))
}

/// The digest a client is expected to send for a request (and the digest
/// stamped on the matching response): computed over the body for ordinary
/// routes, over an empty body for upload routes, always over the stripped
/// path.
pub open spec fn spec_expected_digest(
    path: Seq<char>,
    base: Seq<char>,
    cookie: Seq<char>,
    secret: Seq<char>,
    body: Seq<u8>,
) -> Seq<char> {
    let stripped = spec_request_path(path, base);
    let selected_body: Seq<u8> = if spec_is_upload_path(stripped) {
        Seq::empty()
    } else {
        body
    };
    spec_digest_bytes(selected_body, encode_utf8(cookie), stripped, encode_utf8(secret))
}

/// Outcome of checking an inbound request's digest.
#[derive(Debug, Clone, Copy, PartialEq, Eq, Structural)]
pub enum DigestOutcome {
    /// Verification passed, was disabled, or the path is exempt.
    Accepted,
    /// The expected digest header is absent.
    MissingHeader,
    /// The header is present but does not match the recomputed digest.
    Mismatch,
}

/// The view of an optional header value.
pub open spec fn spec_opt_str(o: Option<&str>) -> Option<Seq<char>> {
    match o {
        Some(s) => Some(s@),
        None => None,
    }
}

/// The decision the digest middleware owes a request: skip when enforcement
/// is off or the stripped path is exempt; otherwise consult `X-Digest-B` for
/// upload routes and `X-Digest-A` for the rest, and accept exactly a present,
/// matching header.
pub open spec fn spec_request_outcome(
    enforce: bool,
    path: Seq<char>,
    base: Seq<char>,
    cookie: Seq<char>,
    secret: Seq<char>,
    body: Seq<u8>,
    header_a: Option<Seq<char>>,
    header_b: Option<Seq<char>>,
) -> DigestOutcome {
    let stripped = spec_request_path(path, base);
    let header = if spec_is_upload_path(stripped) {
        header_b
    } else {
        header_a
    };
    if !enforce || spec_is_exempt_path(stripped) {
        DigestOutcome::Accepted
    } else {
        match header {
            None => DigestOutcome::MissingHeader,
            Some(h) => if h == spec_expected_digest(path, base, cookie, secret, body) {
                DigestOutcome::Accepted
            } else {
                DigestOutcome::Mismatch
            },
        }
    }
}

/// The result of checking a request: the decision, and the recomputed digest
/// (which responses are stamped with).
pub struct RequestDigestCheck {
    pub outcome: DigestOutcome,
    pub expected: String,
}

/// Checks an inbound request's integrity digest. The caller hands in the
/// full request path, the configured base path, the session cookie value
/// (empty if absent), the shared secret, the fully buffered body, and the
/// two digest headers as received; the body itself is never consumed, so the
/// caller can pass it on downstream unchanged.
pub fn check_request_digest(
    enforce: bool,
    base_path: &str,
    path: &str,
    cookie: &str,
    secret: &str,
    body: &[u8],
    header_a: Option<&str>,
    header_b: Option<&str>,
) -> (r: RequestDigestCheck)
    ensures
        r.expected@ == spec_expected_digest(path@, base_path@, cookie@, secret@, body@),
        r.outcome == spec_request_outcome(
            enforce,
            path@,
            base_path@,
            cookie@,
            secret@,
            body@,
            spec_opt_str(header_a),
            spec_opt_str(header_b),
        ),
{
    let stripped = strip_prefix_bytes(path.as_bytes(), base_path.as_bytes());
    let upload = is_upload_path(stripped.as_slice());
    let empty_body: Vec<u8> = Vec::new();
    let selected_body: &[u8] = if upload {
        empty_body.as_slice()
    } else {
        body
    };
    let mut buf: Vec<u8> = Vec::new();
    append_bytes(&mut buf, selected_body);
    append_bytes(&mut buf, cookie.as_bytes());
    append_bytes(&mut buf, stripped.as_slice());
    append_bytes(&mut buf, secret.as_bytes());
    let d = sha1_digest(buf.as_slice());
    let expected = to_hex(d.as_slice());
    let header = if upload {
        header_b
    } else {
        header_a
    };
    let outcome = if !enforce || is_exempt_path(stripped.as_slice()) {
        DigestOutcome::Accepted
    } else {
        match header {
            None => DigestOutcome::MissingHeader,
            Some(h) => {
                if str_eq_string(h, &expected) {
                    DigestOutcome::Accepted
                } else {
                    DigestOutcome::Mismatch
                }
            },
        }
    };
    RequestDigestCheck { outcome, expected }
}

/// Exact equality of a header value and a computed digest.
fn str_eq_string(a: &str, b: &String) -> (r: bool)
    ensures
        r == (a@ == b@),
{
    let r = bytes_eq(a.as_bytes(), b.as_str().as_bytes());
    proof {
        encode_utf8_decode_utf8(a@);
        encode_utf8_decode_utf8(b@);
    }
    r
}

/// Computes the digest a response (or an upload-route request) is stamped
/// with: the same formula, over the response's own fully buffered body.
pub fn compute_route_digest(
    base_path: &str,
    path: &str,
    cookie: &str,
    secret: &str,
    body: &[u8],
) -> (r: String)
    ensures
        r@ == spec_expected_digest(path@, base_path@, cookie@, secret@, body@),
{
    let stripped = strip_prefix_bytes(path.as_bytes(), base_path.as_bytes());
    let upload = is_upload_path(stripped.as_slice());
    let empty_body: Vec<u8> = Vec::new();
    let selected_body: &[u8] = if upload {
        empty_body.as_slice()
    } else {
        body
    };
    let mut buf: Vec<u8> = Vec::new();
    append_bytes(&mut buf, selected_body);
    append_bytes(&mut buf, cookie.as_bytes());
    append_bytes(&mut buf, stripped.as_slice());
    append_bytes(&mut buf, secret.as_bytes());
    let d = sha1_digest(buf.as_slice());
    to_hex(d.as_slice())
}

/// An exempt path always passes the digest middleware, headers or no
/// headers, whatever the body holds.
pub proof fn lemma_exempt_path_passes(
    path: Seq<char>,
    base: Seq<char>,
    cookie: Seq<char>,
    secret: Seq<char>,
    body: Seq<u8>,
    header_a: Option<Seq<char>>,
    header_b: Option<Seq<char>>,
    enforce: bool,
)
    requires
        spec_is_exempt_path(spec_request_path(path, base)),
    ensures
        spec_request_outcome(enforce, path, base, cookie, secret, body, header_a, header_b)
            == DigestOutcome::Accepted,
{
}

/// An upload route's digest never depends on the request body: the expected
/// digest, and therefore the whole decision, is the same for any two bodies.
pub proof fn lemma_upload_digest_excludes_body(
    path: Seq<char>,
    base: Seq<char>,
    cookie: Seq<char>,
    secret: Seq<char>,
    body1: Seq<u8>,
    body2: Seq<u8>,
    header_a: Option<Seq<char>>,
    header_b: Option<Seq<char>>,
    enforce: bool,
)
    requires
        spec_is_upload_path(spec_request_path(path, base)),
    ensures
        spec_expected_digest(path, base, cookie, secret, body1) == spec_expected_digest(
            path,
            base,
            cookie,
            secret,
            body2,
        ),
        spec_request_outcome(enforce, path, base, cookie, secret, body1, header_a, header_b)
            == spec_request_outcome(
            enforce,
            path,
            base,
            cookie,
            secret,
            body2,
            header_a,
            header_b,
        ),
{
}

} // verus!
