//! The TLV (type-length-value) layer of the ticket wire format.
//!
//! Every typed field is a 2-byte big-endian type tag, a 2-byte big-endian
//! length, then that many payload bytes. Fixed-size types must declare
//! exactly their size. String payloads must be valid UTF-8; string values
//! have trailing NUL bytes trimmed. Sections are framed by a 4-byte header
//! whose second byte is the section type tag.
//!
//! The grammar is stated once as spec functions over the byte sequence; the
//! executable reader is proved to agree with it, and `lemma_field_round_trip`
//! shows that re-encoding a decoded field reproduces the exact bytes read.

use vstd::prelude::*;

use vstd::arithmetic::div_mod::lemma_fundamental_div_mod_converse;
use vstd::string::StrSliceExecFns;
use vstd::utf8::{decode_utf8, decode_utf8_encode_utf8, encode_utf8, encode_utf8_valid_utf8,
    valid_utf8};

use crate::cursor::{be_val, lemma_be_val_bound, pow256, ByteCursor};
use crate::error::DecodeError;
use crate::strutil::{append_bytes, lemma_trim_trailing_zeros_valid_utf8,
    string_from_utf8, trim_trailing_zeros, trim_trailing_zeros_vec};

verus! {

/// The big-endian byte string of length `n` whose value is `v`.
pub open spec fn be_bytes(v: nat, n: nat) -> Seq<u8>
    decreases n,
{
    if n == 0 {
        Seq::empty()
    } else {
        be_bytes(v / 256, (n - 1) as nat).push((v % 256) as u8)
    }
}

/// Re-encoding the value of a byte string at its own width gives the bytes
/// back.
pub proof fn lemma_be_bytes_of_val(b: Seq<u8>)
    ensures
        be_bytes(be_val(b), b.len()) == b,
    decreases b.len(),
{
    if b.len() > 0 {
        lemma_be_bytes_of_val(b.drop_last());
        let v = be_val(b);
        assert(v == be_val(b.drop_last()) * 256 + b.last());
        lemma_fundamental_div_mod_converse(
            v as int,
            256,
            be_val(b.drop_last()) as int,
            b.last() as int,
        );
        assert(be_bytes(be_val(b), b.len()) =~= b);
    } else {
        assert(be_bytes(be_val(b), b.len()) =~= b);
    }
}

/// Appends the `n`-byte big-endian encoding of `v`.
pub fn push_be(out: &mut Vec<u8>, v: u64, n: usize)
    requires
        n <= 8,
        v < pow256(n as nat),
    ensures
        final(out)@ == old(out)@ + be_bytes(v as nat, n as nat),
    decreases n,
{
    if n == 0 {
        proof {
            assert(old(out)@ + be_bytes(v as nat, 0) =~= old(out)@);
        }
    } else {
        proof {
            assert((v / 256) < pow256((n - 1) as nat)) by (nonlinear_arith)
                requires
                    v < pow256(n as nat),
                    pow256(n as nat) == 256 * pow256((n - 1) as nat),
            ;
        }
        push_be(out, v / 256, n - 1);
        out.push((v % 256) as u8);
        proof {
            assert(final(out)@ =~= old(out)@ + be_bytes(v as nat, n as nat));
        }
    }
}

/// Section type tags: the body section (0x00) and the footer section (0x02).
#[derive(Debug, Clone, Copy, PartialEq, Eq, Structural)]
pub enum SectionType {
    Body,
    Footer,
}

impl SectionType {
    /// The section type a tag byte denotes, if any.
    pub open spec fn spec_from_id(id: u8) -> Result<SectionType, DecodeError> {
        if id == 0x00 {
            Ok(SectionType::Body)
        } else if id == 0x02 {
            Ok(SectionType::Footer)
        } else {
            Err(DecodeError::InvalidSectionType)
        }
    }

    pub fn from_id(id: u8) -> (r: Result<SectionType, DecodeError>)
        ensures
            r == SectionType::spec_from_id(id),
    {
        match id {
            0x00 => Ok(SectionType::Body),
            0x02 => Ok(SectionType::Footer),
            _ => Err(DecodeError::InvalidSectionType),
        }
    }
}

/// A section header: one reserved byte, the section type tag, and the
/// declared section length.
#[derive(Debug, Clone, Copy, PartialEq, Eq, Structural)]
pub struct SectionHeader {
    pub section_type: SectionType,
    pub length: u16,
}

/// Reads a section header at `pos`: a skipped byte, a type tag byte, and a
/// big-endian length.
pub open spec fn spec_read_section_header(b: Seq<u8>, pos: int) -> Result<
    (SectionHeader, int),
    DecodeError,
> {
    if pos + 2 > b.len() {
        Err(DecodeError::Truncated)
    } else {
        match SectionType::spec_from_id(b[pos + 1]) {
            Err(e) => Err(e),
            Ok(t) => if pos + 4 > b.len() {
                Err(DecodeError::Truncated)
            } else {
                Ok(
                    (
                        SectionHeader {
                            section_type: t,
                            length: be_val(b.subrange(pos + 2, pos + 4)) as u16,
                        },
                        pos + 4,
                    ),
                )
            },
        }
    }
}

impl SectionHeader {
    pub fn parse(cur: &mut ByteCursor) -> (r: Result<SectionHeader, DecodeError>)
        requires
            old(cur).wf(),
        ensures
            final(cur).wf(),
            final(cur).data == old(cur).data,
            spec_read_section_header(old(cur).data@, old(cur).pos as int) matches Ok(hp) ==> ({
                &&& r matches Ok(h)
                &&& h == hp.0
                &&& final(cur).pos == hp.1
            }),
            spec_read_section_header(old(cur).data@, old(cur).pos as int) matches Err(e) ==> r
                == Err::<SectionHeader, DecodeError>(e),
    {
        let _reserved = match cur.read_u8() {
            Ok(v) => v,
            Err(e) => {
                return Err(e);
            },
        };
        let tag = match cur.read_u8() {
            Ok(v) => v,
            Err(e) => {
                return Err(e);
            },
        };
        let section_type = match SectionType::from_id(tag) {
            Ok(t) => t,
            Err(e) => {
                return Err(e);
            },
        };
        let length = match cur.read_u16_be() {
            Ok(v) => v,
            Err(e) => {
                return Err(e);
            },
        };
        proof {
            lemma_be_val_bound(old(cur).data@.subrange(old(cur).pos + 2, old(cur).pos + 4));
            reveal_with_fuel(pow256, 3);
        }
        Ok(SectionHeader { section_type, length })
    }
}

/// A typed field's decoded value.
pub enum Data {
    Empty,
    U32(u32),
    U64(u64),
    String(String),
    Timestamp(u64),
    Binary(Vec<u8>),
}

/// The mathematical value of a typed field.
pub enum DataValue {
    Empty,
    U32(u32),
    U64(u64),
    Str(Seq<char>),
    Timestamp(u64),
    Binary(Seq<u8>),
}

impl View for Data {
    type V = DataValue;

    open spec fn view(&self) -> DataValue {
        match self {
            Data::Empty => DataValue::Empty,
            Data::U32(v) => DataValue::U32(*v),
            Data::U64(v) => DataValue::U64(*v),
            Data::String(s) => DataValue::Str(s@),
            Data::Timestamp(v) => DataValue::Timestamp(*v),
            Data::Binary(p) => DataValue::Binary(p@),
        }
    }
}

/// Reads one typed field at `pos`: tag, length, then payload. Fixed-size
/// types must declare exactly their size; an empty field must declare zero;
/// string payloads must be valid UTF-8.
pub open spec fn spec_read_field(b: Seq<u8>, pos: int) -> Result<(DataValue, int), DecodeError> {
    if pos + 4 > b.len() {
        Err(DecodeError::Truncated)
    } else {
        let tag = be_val(b.subrange(pos, pos + 2));
        let len = be_val(b.subrange(pos + 2, pos + 4));
        if tag == 0x00 {
            if len != 0 {
                Err(DecodeError::InvalidFieldLength)
            } else {
                Ok((DataValue::Empty, pos + 4))
            }
        } else if tag == 0x01 {
            if len != 4 {
                Err(DecodeError::InvalidFieldLength)
            } else if pos + 8 > b.len() {
                Err(DecodeError::Truncated)
            } else {
                Ok((DataValue::U32(be_val(b.subrange(pos + 4, pos + 8)) as u32), pos + 8))
            }
        } else if tag == 0x02 {
            if len != 8 {
                Err(DecodeError::InvalidFieldLength)
            } else if pos + 12 > b.len() {
                Err(DecodeError::Truncated)
            } else {
                Ok((DataValue::U64(be_val(b.subrange(pos + 4, pos + 12)) as u64), pos + 12))
            }
        } else if tag == 0x04 {
            if pos + 4 + len > b.len() {
                Err(DecodeError::Truncated)
            } else {
                let payload = b.subrange(pos + 4, pos + 4 + len);
                if !valid_utf8(payload) {
                    Err(DecodeError::InvalidUtf8)
                } else {
                    Ok((DataValue::Str(decode_utf8(payload)), pos + 4 + len))
                }
            }
        } else if tag == 0x07 {
            if len != 8 {
                Err(DecodeError::InvalidFieldLength)
            } else if pos + 12 > b.len() {
                Err(DecodeError::Truncated)
            } else {
                Ok((DataValue::Timestamp(be_val(b.subrange(pos + 4, pos + 12)) as u64), pos + 12))
            }
        } else if tag == 0x08 {
            if pos + 4 + len > b.len() {
                Err(DecodeError::Truncated)
            } else {
                Ok((DataValue::Binary(b.subrange(pos + 4, pos + 4 + len)), pos + 4 + len))
            }
        } else {
            Err(DecodeError::InvalidFieldType)
        }
    }
}

/// The TLV encoding of a field value: tag, length, payload.
pub open spec fn spec_encode_field(d: DataValue) -> Seq<u8> {
    match d {
        DataValue::Empty => be_bytes(0x00, 2) + be_bytes(0, 2),
        DataValue::U32(v) => be_bytes(0x01, 2) + be_bytes(4, 2) + be_bytes(v as nat, 4),
        DataValue::U64(v) => be_bytes(0x02, 2) + be_bytes(8, 2) + be_bytes(v as nat, 8),
        DataValue::Str(s) => be_bytes(0x04, 2) + be_bytes(encode_utf8(s).len(), 2) + encode_utf8(
            s,
        ),
        DataValue::Timestamp(v) => be_bytes(0x07, 2) + be_bytes(8, 2) + be_bytes(v as nat, 8),
        DataValue::Binary(p) => be_bytes(0x08, 2) + be_bytes(p.len(), 2) + p,
    }
}

/// Whether a field value fits the wire format: payloads must be expressible
/// by the 16-bit length.
pub open spec fn spec_field_encodable(d: DataValue) -> bool {
    match d {
        DataValue::Str(s) => encode_utf8(s).len() < 0x10000,
        DataValue::Binary(p) => p.len() < 0x10000,
        _ => true,
    }
}

/// Round-trip law: re-encoding a successfully decoded field reproduces
/// exactly the bytes that were read, and the value fits the wire format.
pub proof fn lemma_field_round_trip(b: Seq<u8>, pos: int)
    requires
        0 <= pos,
        spec_read_field(b, pos) is Ok,
    ensures
        spec_read_field(b, pos) matches Ok(dp) ==> spec_field_encodable(dp.0) && spec_encode_field(
            dp.0,
        ) == b.subrange(pos, dp.1),
{
    let tag_bytes = b.subrange(pos, pos + 2);
    let len_bytes = b.subrange(pos + 2, pos + 4);
    let tag = be_val(tag_bytes);
    let len = be_val(len_bytes);
    lemma_be_bytes_of_val(tag_bytes);
    lemma_be_bytes_of_val(len_bytes);
    lemma_be_val_bound(len_bytes);
    reveal_with_fuel(pow256, 3);
    let dp = spec_read_field(b, pos)->Ok_0;
    reveal_with_fuel(pow256, 9);
    if tag == 0x00 {
        assert(b.subrange(pos, dp.1) =~= tag_bytes + len_bytes);
        assert(spec_encode_field(dp.0) == b.subrange(pos, dp.1));
    } else if tag == 0x01 {
        let payload = b.subrange(pos + 4, pos + 8);
        lemma_be_bytes_of_val(payload);
        lemma_be_val_bound(payload);
        assert(dp.0 == DataValue::U32(be_val(payload) as u32));
        assert((be_val(payload) as u32) as nat == be_val(payload));
        assert(be_bytes((be_val(payload) as u32) as nat, 4) == payload);
        assert(b.subrange(pos, dp.1) =~= tag_bytes + len_bytes + payload);
        assert(spec_encode_field(dp.0) == b.subrange(pos, dp.1));
    } else if tag == 0x02 || tag == 0x07 {
        let payload = b.subrange(pos + 4, pos + 12);
        lemma_be_bytes_of_val(payload);
        lemma_be_val_bound(payload);
        assert((be_val(payload) as u64) as nat == be_val(payload));
        assert(be_bytes((be_val(payload) as u64) as nat, 8) == payload);
        assert(b.subrange(pos, dp.1) =~= tag_bytes + len_bytes + payload);
        assert(spec_encode_field(dp.0) == b.subrange(pos, dp.1));
    } else if tag == 0x04 {
        let payload = b.subrange(pos + 4, pos + 4 + len);
        decode_utf8_encode_utf8(payload);
        assert(encode_utf8(decode_utf8(payload)) == payload);
        assert(dp.0 == DataValue::Str(decode_utf8(payload)));
        assert(be_bytes(encode_utf8(decode_utf8(payload)).len(), 2) == len_bytes);
        assert(b.subrange(pos, dp.1) =~= tag_bytes + len_bytes + payload);
        assert(spec_encode_field(dp.0) == b.subrange(pos, dp.1));
    } else {
        let payload = b.subrange(pos + 4, pos + 4 + len);
        assert(dp.0 == DataValue::Binary(payload));
        assert(be_bytes(payload.len(), 2) == len_bytes);
        assert(b.subrange(pos, dp.1) =~= tag_bytes + len_bytes + payload);
        assert(spec_encode_field(dp.0) == b.subrange(pos, dp.1));
    }
}

impl Data {
    /// Reads one typed field from the cursor.
    pub fn read(cur: &mut ByteCursor) -> (r: Result<Data, DecodeError>)
        requires
            old(cur).wf(),
        ensures
            final(cur).wf(),
            final(cur).data == old(cur).data,
            spec_read_field(old(cur).data@, old(cur).pos as int) matches Ok(dp) ==> ({
                &&& r matches Ok(d)
                &&& d@ == dp.0
                &&& final(cur).pos == dp.1
            }),
            spec_read_field(old(cur).data@, old(cur).pos as int) matches Err(e) ==> r == Err::<
                Data,
                DecodeError,
            >(e),
    {
        let data_type = match cur.read_u16_be() {
            Ok(v) => v,
            Err(e) => {
                return Err(e);
            },
        };
        let len = match cur.read_u16_be() {
            Ok(v) => v,
            Err(e) => {
                return Err(e);
            },
        };
        match data_type {
            0x00 => {
                if len != 0 {
                    return Err(DecodeError::InvalidFieldLength);
                }
                Ok(Data::Empty)
            },
            0x01 => {
                if len != 4 {
                    return Err(DecodeError::InvalidFieldLength);
                }
                match cur.read_u32_be() {
                    Ok(v) => Ok(Data::U32(v)),
                    Err(e) => Err(e),
                }
            },
            0x02 => {
                if len != 8 {
                    return Err(DecodeError::InvalidFieldLength);
                }
                match cur.read_u64_be() {
                    Ok(v) => Ok(Data::U64(v)),
                    Err(e) => Err(e),
                }
            },
            0x04 => {
                let payload = match cur.read_bytes(len as usize) {
                    Ok(p) => p,
                    Err(e) => {
                        return Err(e);
                    },
                };
                match string_from_utf8(payload) {
                    Some(s) => Ok(Data::String(s)),
                    None => Err(DecodeError::InvalidUtf8),
                }
            },
            0x07 => {
                if len != 8 {
                    return Err(DecodeError::InvalidFieldLength);
                }
                match cur.read_u64_be() {
                    Ok(v) => Ok(Data::Timestamp(v)),
                    Err(e) => Err(e),
                }
            },
            0x08 => {
                match cur.read_bytes(len as usize) {
                    Ok(p) => Ok(Data::Binary(p)),
                    Err(e) => Err(e),
                }
            },
            _ => Err(DecodeError::InvalidFieldType),
        }
    }

    /// Encodes the field back into its TLV bytes.
    pub fn encode(&self) -> (r: Vec<u8>)
        requires
            spec_field_encodable(self@),
        ensures
            r@ == spec_encode_field(self@),
    {
        let mut out: Vec<u8> = Vec::new();
        proof {
            reveal_with_fuel(pow256, 9);
        }
        match self {
            Data::Empty => {
                push_be(&mut out, 0x00, 2);
                push_be(&mut out, 0, 2);
            },
            Data::U32(v) => {
                push_be(&mut out, 0x01, 2);
                push_be(&mut out, 4, 2);
                push_be(&mut out, *v as u64, 4);
            },
            Data::U64(v) => {
                push_be(&mut out, 0x02, 2);
                push_be(&mut out, 8, 2);
                push_be(&mut out, *v, 8);
            },
            Data::String(s) => {
                push_be(&mut out, 0x04, 2);
                let bytes = s.as_str().as_bytes_vec();
                push_be(&mut out, bytes.len() as u64, 2);
                append_bytes(&mut out, bytes.as_slice());
            },
            Data::Timestamp(v) => {
                push_be(&mut out, 0x07, 2);
                push_be(&mut out, 8, 2);
                push_be(&mut out, *v, 8);
            },
            Data::Binary(p) => {
                push_be(&mut out, 0x08, 2);
                push_be(&mut out, p.len() as u64, 2);
                append_bytes(&mut out, p.as_slice());
            },
        }
        proof {
            assert(out@ =~= spec_encode_field(self@));
        }
        out
    }
}

/// The trimmed value of a string field: its UTF-8 bytes with trailing NULs
/// removed, decoded again.
pub open spec fn spec_trimmed_str(s: Seq<char>) -> Seq<char> {
    decode_utf8(trim_trailing_zeros(encode_utf8(s)))
}

/// Reads a field that must be `Empty`.
pub open spec fn spec_read_empty(b: Seq<u8>, pos: int) -> Result<int, DecodeError> {
    match spec_read_field(b, pos) {
        Err(e) => Err(e),
        Ok((d, p)) => match d {
            DataValue::Empty => Ok(p),
            _ => Err(DecodeError::UnexpectedFieldType),
        },
    }
}

/// Reads a field that must be a `U32`.
pub open spec fn spec_read_u32(b: Seq<u8>, pos: int) -> Result<(u32, int), DecodeError> {
    match spec_read_field(b, pos) {
        Err(e) => Err(e),
        Ok((d, p)) => match d {
            DataValue::U32(v) => Ok((v, p)),
            _ => Err(DecodeError::UnexpectedFieldType),
        },
    }
}

/// Reads a field that must be a `U64`.
pub open spec fn spec_read_u64(b: Seq<u8>, pos: int) -> Result<(u64, int), DecodeError> {
    match spec_read_field(b, pos) {
        Err(e) => Err(e),
        Ok((d, p)) => match d {
            DataValue::U64(v) => Ok((v, p)),
            _ => Err(DecodeError::UnexpectedFieldType),
        },
    }
}

/// Reads a field that must be a `Timestamp`.
pub open spec fn spec_read_timestamp(b: Seq<u8>, pos: int) -> Result<(u64, int), DecodeError> {
    match spec_read_field(b, pos) {
        Err(e) => Err(e),
        Ok((d, p)) => match d {
            DataValue::Timestamp(v) => Ok((v, p)),
            _ => Err(DecodeError::UnexpectedFieldType),
        },
    }
}

/// Reads a field that must be `Binary`.
pub open spec fn spec_read_binary(b: Seq<u8>, pos: int) -> Result<(Seq<u8>, int), DecodeError> {
    match spec_read_field(b, pos) {
        Err(e) => Err(e),
        Ok((d, p)) => match d {
            DataValue::Binary(v) => Ok((v, p)),
            _ => Err(DecodeError::UnexpectedFieldType),
        },
    }
}

/// Reads a field that must be a `String`; the value has trailing NUL bytes
/// trimmed.
pub open spec fn spec_read_string(b: Seq<u8>, pos: int) -> Result<(Seq<char>, int), DecodeError> {
    match spec_read_field(b, pos) {
        Err(e) => Err(e),
        Ok((d, p)) => match d {
            DataValue::Str(s) => Ok((spec_trimmed_str(s), p)),
            _ => Err(DecodeError::UnexpectedFieldType),
        },
    }
}

/// Reads a `Binary` field reinterpreted as a string: the raw bytes must be
/// valid UTF-8, and the value has trailing NUL bytes trimmed.
pub open spec fn spec_read_binary_as_string(b: Seq<u8>, pos: int) -> Result<
    (Seq<char>, int),
    DecodeError,
> {
    match spec_read_field(b, pos) {
        Err(e) => Err(e),
        Ok((d, p)) => match d {
            DataValue::Binary(v) => if valid_utf8(v) {
                Ok((decode_utf8(trim_trailing_zeros(v)), p))
            } else {
                Err(DecodeError::InvalidUtf8)
            },
            _ => Err(DecodeError::UnexpectedFieldType),
        },
    }
}

/// Copy of `s` with trailing NUL characters removed, by trimming trailing
/// zero bytes of its UTF-8 form.
fn trimmed_string(s: &String) -> (r: String)
    ensures
        r@ == spec_trimmed_str(s@),
{
    let bytes = s.as_str().as_bytes_vec();
    let t = trim_trailing_zeros_vec(bytes.as_slice());
    proof {
        encode_utf8_valid_utf8(s@);
        lemma_trim_trailing_zeros_valid_utf8(bytes@);
    }
    match string_from_utf8(t) {
        Some(r) => r,
        None => {
            proof {
                assert(false);
            }
            String::new()
        },
    }
}

impl Data {
    /// Reads a field and requires it to be empty padding.
    pub fn empty(cur: &mut ByteCursor) -> (r: Result<(), DecodeError>)
        requires
            old(cur).wf(),
        ensures
            final(cur).wf(),
            final(cur).data == old(cur).data,
            spec_read_empty(old(cur).data@, old(cur).pos as int) matches Ok(p) ==> ({
                &&& r is Ok
                &&& final(cur).pos == p
            }),
            spec_read_empty(old(cur).data@, old(cur).pos as int) matches Err(e) ==> r == Err::<
                (),
                DecodeError,
            >(e),
    {
        match Data::read(cur) {
            Ok(Data::Empty) => Ok(()),
            Ok(_) => Err(DecodeError::UnexpectedFieldType),
            Err(e) => Err(e),
        }
    }

    /// Reads a field and requires it to be a `U32`.
    pub fn u32(cur: &mut ByteCursor) -> (r: Result<u32, DecodeError>)
        requires
            old(cur).wf(),
        ensures
            final(cur).wf(),
            final(cur).data == old(cur).data,
            spec_read_u32(old(cur).data@, old(cur).pos as int) matches Ok(vp) ==> ({
                &&& r matches Ok(v)
                &&& v == vp.0
                &&& final(cur).pos == vp.1
            }),
            spec_read_u32(old(cur).data@, old(cur).pos as int) matches Err(e) ==> r == Err::<
                u32,
                DecodeError,
            >(e),
    {
        match Data::read(cur) {
            Ok(Data::U32(v)) => Ok(v),
            Ok(_) => Err(DecodeError::UnexpectedFieldType),
            Err(e) => Err(e),
        }
    }

    /// Reads a field and requires it to be a `U64`.
    pub fn u64(cur: &mut ByteCursor) -> (r: Result<u64, DecodeError>)
        requires
            old(cur).wf(),
        ensures
            final(cur).wf(),
            final(cur).data == old(cur).data,
            spec_read_u64(old(cur).data@, old(cur).pos as int) matches Ok(vp) ==> ({
                &&& r matches Ok(v)
                &&& v == vp.0
                &&& final(cur).pos == vp.1
            }),
            spec_read_u64(old(cur).data@, old(cur).pos as int) matches Err(e) ==> r == Err::<
                u64,
                DecodeError,
            >(e),
    {
        match Data::read(cur) {
            Ok(Data::U64(v)) => Ok(v),
            Ok(_) => Err(DecodeError::UnexpectedFieldType),
            Err(e) => Err(e),
        }
    }

    /// Reads a field and requires it to be a `Timestamp`.
    pub fn timestamp(cur: &mut ByteCursor) -> (r: Result<u64, DecodeError>)
        requires
            old(cur).wf(),
        ensures
            final(cur).wf(),
            final(cur).data == old(cur).data,
            spec_read_timestamp(old(cur).data@, old(cur).pos as int) matches Ok(vp) ==> ({
                &&& r matches Ok(v)
                &&& v == vp.0
                &&& final(cur).pos == vp.1
            }),
            spec_read_timestamp(old(cur).data@, old(cur).pos as int) matches Err(e) ==> r == Err::<
                u64,
                DecodeError,
            >(e),
    {
        match Data::read(cur) {
            Ok(Data::Timestamp(v)) => Ok(v),
            Ok(_) => Err(DecodeError::UnexpectedFieldType),
            Err(e) => Err(e),
        }
    }

    /// Reads a field and requires it to be `Binary`.
    pub fn binary(cur: &mut ByteCursor) -> (r: Result<Vec<u8>, DecodeError>)
        requires
            old(cur).wf(),
        ensures
            final(cur).wf(),
            final(cur).data == old(cur).data,
            spec_read_binary(old(cur).data@, old(cur).pos as int) matches Ok(vp) ==> ({
                &&& r matches Ok(v)
                &&& v@ == vp.0
                &&& final(cur).pos == vp.1
            }),
            spec_read_binary(old(cur).data@, old(cur).pos as int) matches Err(e) ==> r == Err::<
                Vec<u8>,
                DecodeError,
            >(e),
    {
        match Data::read(cur) {
            Ok(Data::Binary(v)) => Ok(v),
            Ok(_) => Err(DecodeError::UnexpectedFieldType),
            Err(e) => Err(e),
        }
    }

    /// Reads a field and requires it to be a `String`; trailing NUL bytes are
    /// trimmed from the value.
    pub fn string(cur: &mut ByteCursor) -> (r: Result<String, DecodeError>)
        requires
            old(cur).wf(),
        ensures
            final(cur).wf(),
            final(cur).data == old(cur).data,
            spec_read_string(old(cur).data@, old(cur).pos as int) matches Ok(sp) ==> ({
                &&& r matches Ok(s)
                &&& s@ == sp.0
                &&& final(cur).pos == sp.1
            }),
            spec_read_string(old(cur).data@, old(cur).pos as int) matches Err(e) ==> r == Err::<
                String,
                DecodeError,
            >(e),
    {
        match Data::read(cur) {
            Ok(Data::String(s)) => Ok(trimmed_string(&s)),
            Ok(_) => Err(DecodeError::UnexpectedFieldType),
            Err(e) => Err(e),
        }
    }

    /// Reads a `Binary` field and reinterprets its raw bytes as a string;
    /// trailing NUL bytes are trimmed from the value.
    pub fn binary_as_str(cur: &mut ByteCursor) -> (r: Result<String, DecodeError>)
        requires
            old(cur).wf(),
        ensures
            final(cur).wf(),
            final(cur).data == old(cur).data,
            spec_read_binary_as_string(old(cur).data@, old(cur).pos as int) matches Ok(sp) ==> ({
                &&& r matches Ok(s)
                &&& s@ == sp.0
                &&& final(cur).pos == sp.1
            }),
            spec_read_binary_as_string(old(cur).data@, old(cur).pos as int) matches Err(e) ==> r
                == Err::<String, DecodeError>(e),
    {
        match Data::read(cur) {
            Ok(Data::Binary(p)) => {
                let ghost payload = p@;
                match string_from_utf8(p) {
                    Some(s) => {
                        proof {
                            decode_utf8_encode_utf8(payload);
                        }
                        Ok(trimmed_string(&s))
                    },
                    None => Err(DecodeError::InvalidUtf8),
                }
            },
            Ok(_) => Err(DecodeError::UnexpectedFieldType),
            Err(e) => Err(e),
        }
    }
}

} // verus!
