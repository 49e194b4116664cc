//! The authentication-ticket decoder and its signature verifier.
//!
//! A ticket is an 8-byte header (version pair, four reserved bytes, a
//! declared length that must equal the buffer length minus 8), a body
//! section of typed fields in a fixed order, and a footer carrying the
//! signing platform's 4-byte key id and the signature. Decoding records the
//! byte offsets that verification later covers: PSN signatures cover the
//! buffer from its start up to the signature payload, RPCN signatures cover
//! exactly the body section. Decoding is a pure function of the buffer and
//! never panics; every failure is a typed `DecodeError`.

use vstd::prelude::*;

use crate::crypto::{ec_accepts, ec_verify};
use crate::cursor::{be_val, ByteCursor};
use crate::error::{DecodeError, VerifyError};
use crate::platform::Platform;
use crate::pub_key_store::{KeyParamsValue, PubKeyStore, PubKeyStoreValue};
use crate::ticket_read::{spec_read_binary, spec_read_binary_as_string, spec_read_empty,
    spec_read_section_header, spec_read_string, spec_read_timestamp, spec_read_u32, spec_read_u64,
    Data, SectionHeader, SectionType};

verus! {

/// The decoded body section: the ticket's typed fields in wire order.
#[derive(Debug)]
pub struct BodySection {
    pub serial: Vec<u8>,
    pub issuer_id: u32,
    pub issued_date: u64,
    pub expire_date: u64,
    pub user_id: u64,
    pub online_id: String,
    pub region: String,
    pub domain: String,
    pub service_id: String,
    pub status: u32,
}

/// The mathematical value of a decoded body section.
pub struct BodyValue {
    pub serial: Seq<u8>,
    pub issuer_id: u32,
    pub issued_date: u64,
    pub expire_date: u64,
    pub user_id: u64,
    pub online_id: Seq<char>,
    pub region: Seq<char>,
    pub domain: Seq<char>,
    pub service_id: Seq<char>,
    pub status: u32,
}

impl View for BodySection {
    type V = BodyValue;

    open spec fn view(&self) -> BodyValue {
        BodyValue {
            serial: self.serial@,
            issuer_id: self.issuer_id,
            issued_date: self.issued_date,
            expire_date: self.expire_date,
            user_id: self.user_id,
            online_id: self.online_id@,
            region: self.region@,
            domain: self.domain@,
            service_id: self.service_id@,
            status: self.status,
        }
    }
}

/// Reads the body section at `pos`: its section header (which must carry the
/// body tag), then the typed fields in this exact order: serial (binary),
/// issuer id (u32), issued and expiry timestamps, user id (u64), online id
/// (string), region (binary as string), domain (string), service id (binary
/// as string), status (u32), and two discarded empty padding fields.
pub open spec fn spec_parse_body(b: Seq<u8>, pos: int) -> Result<(BodyValue, int), DecodeError> {
    match spec_read_section_header(b, pos) {
        Err(e) => Err(e),
        Ok((h, p0)) => if !(h.section_type is Body) {
            Err(DecodeError::UnexpectedSectionType)
        } else {
            match spec_read_binary(b, p0) {
                Err(e) => Err(e),
                Ok((serial, p1)) => match spec_read_u32(b, p1) {
                    Err(e) => Err(e),
                    Ok((issuer_id, p2)) => match spec_read_timestamp(b, p2) {
                        Err(e) => Err(e),
                        Ok((issued_date, p3)) => match spec_read_timestamp(b, p3) {
                            Err(e) => Err(e),
                            Ok((expire_date, p4)) => match spec_read_u64(b, p4) {
                                Err(e) => Err(e),
                                Ok((user_id, p5)) => match spec_read_string(b, p5) {
                                    Err(e) => Err(e),
                                    Ok((online_id, p6)) => match spec_read_binary_as_string(
                                        b,
                                        p6,
                                    ) {
                                        Err(e) => Err(e),
                                        Ok((region, p7)) => match spec_read_string(b, p7) {
                                            Err(e) => Err(e),
                                            Ok((domain, p8)) => match spec_read_binary_as_string(
                                                b,
                                                p8,
                                            ) {
                                                Err(e) => Err(e),
                                                Ok((service_id, p9)) => match spec_read_u32(
                                                    b,
                                                    p9,
                                                ) {
                                                    Err(e) => Err(e),
                                                    Ok((status, p10)) => match spec_read_empty(
                                                        b,
                                                        p10,
                                                    ) {
                                                        Err(e) => Err(e),
                                                        Ok(p11) => match spec_read_empty(b, p11) {
                                                            Err(e) => Err(e),
                                                            Ok(p12) => Ok(
                                                                (
                                                                    BodyValue {
                                                                        serial,
                                                                        issuer_id,
                                                                        issued_date,
                                                                        expire_date,
                                                                        user_id,
                                                                        online_id,
                                                                        region,
                                                                        domain,
                                                                        service_id,
                                                                        status,
                                                                    },
                                                                    p12,
                                                                ),
                                                            ),
                                                        },
                                                    },
                                                },
                                            },
                                        },
                                    },
                                },
                            },
                        },
                    },
                },
            }
        },
    }
}

impl BodySection {
    pub fn parse(cur: &mut ByteCursor) -> (r: Result<BodySection, DecodeError>)
        requires
            old(cur).wf(),
        ensures
            final(cur).wf(),
            final(cur).data == old(cur).data,
            spec_parse_body(old(cur).data@, old(cur).pos as int) matches Ok(bp) ==> ({
                &&& r matches Ok(body)
                &&& body@ == bp.0
                &&& final(cur).pos == bp.1
            }),
            spec_parse_body(old(cur).data@, old(cur).pos as int) matches Err(e) ==> r == Err::<
                BodySection,
                DecodeError,
            >(e),
    {
        let header = match SectionHeader::parse(cur) {
            Ok(h) => h,
            Err(e) => {
                return Err(e);
            },
        };
        match header.section_type {
            SectionType::Body => {},
            _ => {
                return Err(DecodeError::UnexpectedSectionType);
            },
        }
        let serial = match Data::binary(cur) {
            Ok(v) => v,
            Err(e) => {
                return Err(e);
            },
        };
        let issuer_id = match Data::u32(cur) {
            Ok(v) => v,
            Err(e) => {
                return Err(e);
            },
        };
        let issued_date = match Data::timestamp(cur) {
            Ok(v) => v,
            Err(e) => {
                return Err(e);
            },
        };
        let expire_date = match Data::timestamp(cur) {
            Ok(v) => v,
            Err(e) => {
                return Err(e);
            },
        };
        let user_id = match Data::u64(cur) {
            Ok(v) => v,
            Err(e) => {
                return Err(e);
            },
        };
        let online_id = match Data::string(cur) {
            Ok(v) => v,
            Err(e) => {
                return Err(e);
            },
        };
        let region = match Data::binary_as_str(cur) {
            Ok(v) => v,
            Err(e) => {
                return Err(e);
            },
        };
        let domain = match Data::string(cur) {
            Ok(v) => v,
            Err(e) => {
                return Err(e);
            },
        };
        let service_id = match Data::binary_as_str(cur) {
            Ok(v) => v,
            Err(e) => {
                return Err(e);
            },
        };
        let status = match Data::u32(cur) {
            Ok(v) => v,
            Err(e) => {
                return Err(e);
            },
        };
        match Data::empty(cur) {
            Ok(v) => v,
            Err(e) => {
                return Err(e);
            },
        };
        match Data::empty(cur) {
            Ok(v) => v,
            Err(e) => {
                return Err(e);
            },
        };
        Ok(
            BodySection {
                serial,
                issuer_id,
                issued_date,
                expire_date,
                user_id,
                online_id,
                region,
                domain,
                service_id,
                status,
            },
        )
    }
}

/// The decoded footer section: the signing platform, the byte offset where
/// the signature's payload starts (the end of the PSN verification range),
/// and the signature bytes.
#[derive(Debug)]
pub struct FooterSection {
    pub key_id: Platform,
    pub sig_data_start: u64,
    pub signature: Vec<u8>,
}

/// The mathematical value of a decoded footer section.
pub struct FooterValue {
    pub key_id: Platform,
    pub sig_data_start: int,
    pub signature: Seq<u8>,
}

impl View for FooterSection {
    type V = FooterValue;

    open spec fn view(&self) -> FooterValue {
        FooterValue {
            key_id: self.key_id,
            sig_data_start: self.sig_data_start as int,
            signature: self.signature@,
        }
    }
}

/// Reads the footer section at `pos`: its section header (which must carry
/// the footer tag), the platform key id as a binary field whose 4 raw bytes
/// must name a known platform, and the signature as a binary field. The
/// recorded signature-data-start offset is the position just after the
/// key-id field plus the 4 bytes of the signature field's own header: the
/// start of the signature payload.
pub open spec fn spec_parse_footer(b: Seq<u8>, pos: int) -> Result<
    (FooterValue, int),
    DecodeError,
> {
    match spec_read_section_header(b, pos) {
        Err(e) => Err(e),
        Ok((h, p0)) => if !(h.section_type is Footer) {
            Err(DecodeError::UnexpectedSectionType)
        } else {
            match spec_read_binary(b, p0) {
                Err(e) => Err(e),
                Ok((kid, p1)) => match Platform::spec_from_key_id(kid) {
                    Err(e) => Err(e),
                    Ok(key_id) => match spec_read_binary(b, p1) {
                        Err(e) => Err(e),
                        Ok((signature, p2)) => Ok(
                            (FooterValue { key_id, sig_data_start: p1 + 4, signature }, p2),
                        ),
                    },
                },
            }
        },
    }
}

impl FooterSection {
    pub fn parse(cur: &mut ByteCursor) -> (r: Result<FooterSection, DecodeError>)
        requires
            old(cur).wf(),
            old(cur).data@.len() + 4 <= u64::MAX,
        ensures
            final(cur).wf(),
            final(cur).data == old(cur).data,
            spec_parse_footer(old(cur).data@, old(cur).pos as int) matches Ok(fp) ==> ({
                &&& r matches Ok(f)
                &&& f@ == fp.0
                &&& final(cur).pos == fp.1
            }),
            spec_parse_footer(old(cur).data@, old(cur).pos as int) matches Err(e) ==> r == Err::<
                FooterSection,
                DecodeError,
            >(e),
    {
        let header = match SectionHeader::parse(cur) {
            Ok(h) => h,
            Err(e) => {
                return Err(e);
            },
        };
        match header.section_type {
            SectionType::Footer => {},
            _ => {
                return Err(DecodeError::UnexpectedSectionType);
            },
        }
        let kid = match Data::binary(cur) {
            Ok(v) => v,
            Err(e) => {
                return Err(e);
            },
        };
        let key_id = match Platform::from_key_id(kid.as_slice()) {
            Ok(p) => p,
            Err(e) => {
                return Err(e);
            },
        };
        let sig_data_start = cur.position() as u64 + 4;
        let signature = match Data::binary(cur) {
            Ok(v) => v,
            Err(e) => {
                return Err(e);
            },
        };
        Ok(FooterSection { key_id, sig_data_start, signature })
    }
}

/// The byte range a platform's signature covers: for PSN, the buffer from
/// its start up to the signature payload; for RPCN, exactly the body section
/// (which starts right after the 8-byte ticket header).
pub open spec fn spec_data_to_verify(
    b: Seq<u8>,
    body_start: int,
    body_end: int,
    f: FooterValue,
) -> Seq<u8> {
    match f.key_id {
        Platform::Psn => b.subrange(0, f.sig_data_start),
        Platform::Rpcn => b.subrange(body_start, body_end),
    }
}

/// A decoded authentication ticket.
#[derive(Debug)]
pub struct NpTicket {
    pub version: (u8, u8),
    pub body: BodySection,
    pub footer: FooterSection,
    pub data_to_verify: Vec<u8>,
}

/// The mathematical value of a decoded ticket.
pub struct TicketValue {
    pub version: (u8, u8),
    pub body: BodyValue,
    pub footer: FooterValue,
    pub data_to_verify: Seq<u8>,
}

impl View for NpTicket {
    type V = TicketValue;

    open spec fn view(&self) -> TicketValue {
        TicketValue {
            version: self.version,
            body: self.body@,
            footer: self.footer@,
            data_to_verify: self.data_to_verify@,
        }
    }
}

/// Decodes a whole ticket buffer: an 8-byte header whose version pair must
/// be (2, 1) and whose declared length must equal the buffer length minus 8,
/// then the body section, then the footer section.
pub open spec fn spec_parse_ticket(b: Seq<u8>) -> Result<TicketValue, DecodeError> {
    if b.len() < 8 {
        Err(DecodeError::Truncated)
    } else if b[0] >> 4 != 2 || b[1] != 1 {
        Err(DecodeError::UnsupportedVersion)
    } else if be_val(b.subrange(6, 8)) != b.len() - 8 {
        Err(DecodeError::LengthMismatch)
    } else {
        match spec_parse_body(b, 8) {
            Err(e) => Err(e),
            Ok((body, body_end)) => match spec_parse_footer(b, body_end) {
                Err(e) => Err(e),
                Ok((footer, _end)) => Ok(
                    TicketValue {
                        version: ((b[0] >> 4) as u8, b[1]),
                        body,
                        footer,
                        data_to_verify: spec_data_to_verify(b, 8, body_end, footer),
                    },
                ),
            },
        }
    }
}

impl NpTicket {
    /// Decodes a raw ticket buffer. The decoder is a pure function of the
    /// bytes: it agrees exactly with `spec_parse_ticket` on success and on
    /// every typed failure.
    pub fn parse_from_bytes(bytes: Vec<u8>) -> (r: Result<NpTicket, DecodeError>)
        ensures
            spec_parse_ticket(bytes@) matches Ok(t) ==> ({
                &&& r matches Ok(ticket)
                &&& ticket@ == t
            }),
            spec_parse_ticket(bytes@) matches Err(e) ==> r == Err::<NpTicket, DecodeError>(e),
    {
        if bytes.len() < 8 {
            return Err(DecodeError::Truncated);
        }
        // the 8-byte ticket header is not included in the declared length
        let real_ticket_len = bytes.len() - 8;
        let mut cur = ByteCursor::new(bytes);
        let b0 = match cur.read_u8() {
            Ok(v) => v,
            Err(e) => {
                return Err(e);
            },
        };
        let b1 = match cur.read_u8() {
            Ok(v) => v,
            Err(e) => {
                return Err(e);
            },
        };
        if b0 >> 4 != 2 || b1 != 1 {
            return Err(DecodeError::UnsupportedVersion);
        }
        // four reserved bytes
        match cur.skip(4) {
            Ok(v) => v,
            Err(e) => {
                return Err(e);
            },
        };
        let ticket_len = match cur.read_u16_be() {
            Ok(v) => v,
            Err(e) => {
                return Err(e);
            },
        };
        if ticket_len as usize != real_ticket_len {
            return Err(DecodeError::LengthMismatch);
        }
        let body_start = cur.position();
        let body = match BodySection::parse(&mut cur) {
            Ok(v) => v,
            Err(e) => {
                return Err(e);
            },
        };
        let body_end = cur.position();
        let footer = match FooterSection::parse(&mut cur) {
            Ok(v) => v,
            Err(e) => {
                return Err(e);
            },
        };
        let buf = cur.into_inner();
        let data_to_verify = match footer.key_id {
            Platform::Psn => {
                let end = footer.sig_data_start as usize;
                vstd::slice::slice_to_vec(vstd::slice::slice_subrange(buf.as_slice(), 0, end))
            },
            Platform::Rpcn => {
                vstd::slice::slice_to_vec(
                    vstd::slice::slice_subrange(buf.as_slice(), body_start, body_end),
                )
            },
        };
        Ok(NpTicket { version: (b0 >> 4, b1), body, footer, data_to_verify })
    }
}

/// The signature bytes actually verified for a PSN ticket: the wire field is
/// a fixed-width slot that may carry trailing padding, so the stored bytes
/// are cut down to the DER-declared length (the length byte at offset 1,
/// plus 2 for the DER tag and length bytes themselves).
pub open spec fn spec_psn_effective_sig(sig: Seq<u8>) -> Result<Seq<u8>, VerifyError> {
    if sig.len() < 2 {
        Err(VerifyError::MissingDerLength)
    } else if sig[1] + 2 > sig.len() {
        Err(VerifyError::InvalidDerLength)
    } else {
        Ok(sig.subrange(0, sig[1] + 2))
    }
}

/// Cuts a PSN signature down to its DER-declared length.
pub fn psn_effective_signature(sig: &Vec<u8>) -> (r: Result<Vec<u8>, VerifyError>)
    ensures
        spec_psn_effective_sig(sig@) matches Ok(s) ==> ({
            &&& r matches Ok(v)
            &&& v@ == s
        }),
        spec_psn_effective_sig(sig@) matches Err(e) ==> r == Err::<Vec<u8>, VerifyError>(e),
{
    if sig.len() < 2 {
        return Err(VerifyError::MissingDerLength);
    }
    let der_len = sig[1] as usize + 2;
    if der_len > sig.len() {
        return Err(VerifyError::InvalidDerLength);
    }
    Ok(vstd::slice::slice_to_vec(vstd::slice::slice_subrange(sig.as_slice(), 0, der_len)))
}

/// The verification outcome for a decoded ticket against a key registry:
/// the platform picks the registry entry and the byte range rule; PSN
/// signatures are first cut to their DER-declared length; the boolean is
/// the elliptic-curve check's answer.
pub open spec fn spec_verify_signature(t: TicketValue, s: PubKeyStoreValue) -> Result<
    bool,
    VerifyError,
> {
    let key: KeyParamsValue = s.entry_for(t.footer.key_id);
    let sig_result = match t.footer.key_id {
        Platform::Psn => spec_psn_effective_sig(t.footer.signature),
        Platform::Rpcn => Ok(t.footer.signature),
    };
    match sig_result {
        Err(e) => Err(e),
        Ok(sig) => Ok(ec_accepts(key.curve, key.digest, key.x, key.y, sig, t.data_to_verify)),
    }
}

impl NpTicket {
    /// Verifies the ticket's signature against the registry. A clean "does
    /// not verify" is the `Ok(false)` result; `Err` is reserved for a
    /// malformed signature (an unreadable or invalid DER length) or a
    /// failure of the cryptographic backend itself.
    pub fn verify_signature(&self, store: &PubKeyStore) -> (r: Result<bool, VerifyError>)
        ensures
            spec_verify_signature(self@, store@) matches Err(e) ==> r == Err::<bool, VerifyError>(
                e,
            ),
            spec_verify_signature(self@, store@) matches Ok(b) ==> (r == Ok::<bool, VerifyError>(b)
                || r == Err::<bool, VerifyError>(VerifyError::Backend)),
    {
        let entry = store.lookup(self.footer.key_id);
        match self.footer.key_id {
            Platform::Psn => {
                let effective = match psn_effective_signature(&self.footer.signature) {
                    Ok(v) => v,
                    Err(e) => {
                        return Err(e);
                    },
                };
                ec_verify(
                    entry.curve,
                    entry.digest,
                    entry.x.as_slice(),
                    entry.y.as_slice(),
                    effective.as_slice(),
                    self.data_to_verify.as_slice(),
                )
            },
            Platform::Rpcn => {
                ec_verify(
                    entry.curve,
                    entry.digest,
                    entry.x.as_slice(),
                    entry.y.as_slice(),
                    self.footer.signature.as_slice(),
                    self.data_to_verify.as_slice(),
                )
            },
        }
    }
}

/// Trailing padding beyond a PSN signature's DER-declared length never
/// changes the verification outcome: a ticket whose stored signature is the
/// exact DER bytes and one whose stored signature has padding appended
/// verify identically, whatever the padding holds.
pub proof fn lemma_psn_padding_irrelevant(t1: TicketValue, t2: TicketValue, s: PubKeyStoreValue)
    requires
        t1.footer.key_id is Psn,
        t2.footer.key_id is Psn,
        t2.body == t1.body,
        t2.version == t1.version,
        t2.data_to_verify == t1.data_to_verify,
        t2.footer.sig_data_start == t1.footer.sig_data_start,
        t1.footer.signature.len() >= 2,
        t1.footer.signature.len() == t1.footer.signature[1] + 2,
        t2.footer.signature.len() >= t1.footer.signature.len(),
        t2.footer.signature.subrange(0, t1.footer.signature.len() as int) == t1.footer.signature,
    ensures
        spec_verify_signature(t2, s) == spec_verify_signature(t1, s),
{
    let sig1 = t1.footer.signature;
    let sig2 = t2.footer.signature;
    assert(sig2[1] == sig1[1]);
    assert(sig1.subrange(0, sig1[1] + 2) =~= sig1);
    assert(sig2.subrange(0, sig2[1] + 2) =~= sig1);
}

} // verus!
