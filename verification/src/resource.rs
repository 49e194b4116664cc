//! References to uploaded resources and the header sniffing of resource
//! files. A resource is referred to either by a numeric GUID (spelled
//! `g<decimal>`) or by the 20-byte SHA-1 hash of its content (spelled as 40
//! hex digits). A resource file starts with a 4-byte magic (8 for PNG) that
//! names its type; container types then carry a revision, a dependency-table
//! offset, and revision-dependent branch and compression bytes.

use vstd::prelude::*;

use vstd::string::StringSliceAdditionalSpecFns;

use crate::cursor::{be_val, ByteCursor};
use crate::error::DecodeError;
use crate::hex::{bytes_from_hex, from_hex, is_hex_digit};
use crate::strutil::bytes_eq;

verus! {

/// The value of a decimal digit string, most significant digit first.
pub open spec fn spec_dec_val(s: Seq<u8>) -> nat
    decreases s.len(),
{
    if s.len() == 0 {
        0
    } else {
        (spec_dec_val(s.drop_last()) * 10 + (s.last() - 48)) as nat
    }
}

/// The number an ASCII decimal string denotes, if it is non-empty, all
/// digits, and fits in 32 bits.
pub open spec fn spec_parse_u32_decimal(s: Seq<u8>) -> Option<u32> {
    if s.len() > 0 && (forall|j: int| 0 <= j < s.len() ==> crate::game_version::spec_is_ascii_digit(
        #[trigger] s[j],
    )) && spec_dec_val(s) <= u32::MAX {
        Some(spec_dec_val(s) as u32)
    } else {
        None
    }
}

/// A digit string's value only grows as digits are appended.
proof fn lemma_dec_val_prefix_le(s: Seq<u8>, j: int)
    requires
        0 <= j <= s.len(),
        forall|k: int| 0 <= k < s.len() ==> crate::game_version::spec_is_ascii_digit(
            #[trigger] s[k],
        ),
    ensures
        spec_dec_val(s.subrange(0, j)) <= spec_dec_val(s),
    decreases s.len() - j,
{
    if j < s.len() {
        assert(s.subrange(0, j + 1).drop_last() =~= s.subrange(0, j));
        assert(spec_dec_val(s.subrange(0, j)) <= spec_dec_val(s.subrange(0, j + 1)));
        lemma_dec_val_prefix_le(s, j + 1);
    } else {
        assert(s.subrange(0, j) =~= s);
    }
}

/// Parses an ASCII decimal string into a `u32`: `None` on an empty string, a
/// non-digit, or overflow.
pub fn parse_u32_decimal(s: &[u8]) -> (r: Option<u32>)
    ensures
        r == spec_parse_u32_decimal(s@),
{
    if s.len() == 0 {
        return None;
    }
    let mut acc: u32 = 0;
    let mut i: usize = 0;
    proof {
        assert(s@.subrange(0, 0) =~= Seq::<u8>::empty());
    }
    while i < s.len()
        invariant
            i <= s.len(),
            forall|k: int| 0 <= k < i ==> crate::game_version::spec_is_ascii_digit(#[trigger] s@[k]),
            acc == spec_dec_val(s@.subrange(0, i as int)),
        decreases s.len() - i,
    {
        let b = s[i];
        if b < 48 || b > 57 {
            return None;
        }
        let d = b - 48;
        if acc > (u32::MAX - d as u32) / 10 {
            proof {
                assert(s@.subrange(0, i + 1).drop_last() =~= s@.subrange(0, i as int));
                assert(spec_dec_val(s@.subrange(0, i + 1)) > u32::MAX);
                if forall|k: int|
                    0 <= k < s@.len() ==> crate::game_version::spec_is_ascii_digit(
                        #[trigger] s@[k],
                    ) {
                    lemma_dec_val_prefix_le(s@, i + 1);
                }
            }
            return None;
        }
        proof {
            assert(s@.subrange(0, i + 1).drop_last() =~= s@.subrange(0, i as int));
        }
        acc = acc * 10 + d as u32;
        i = i + 1;
    }
    proof {
        assert(s@.subrange(0, s@.len() as int) =~= s@);
    }
    Some(acc)
}

/// A reference to a stored resource: either a numeric GUID or the 20-byte
/// hash of the resource's content.
#[derive(Debug, Clone)]
pub enum ResourceRef {
    Guid(u32),
    Hash(Vec<u8>),
}

/// The mathematical value of a resource reference.
pub enum ResourceRefValue {
    Guid(u32),
    Hash(Seq<u8>),
}

impl View for ResourceRef {
    type V = ResourceRefValue;

    open spec fn view(&self) -> ResourceRefValue {
        match self {
            ResourceRef::Guid(g) => ResourceRefValue::Guid(*g),
            ResourceRef::Hash(h) => ResourceRefValue::Hash(h@),
        }
    }
}

/// Why a resource reference string was rejected.
#[derive(Debug, Clone, Copy, PartialEq, Eq, Structural)]
pub enum ResourceRefError {
    /// After the `g` prefix, not a decimal number that fits in 32 bits.
    BadGuid,
    /// Not a string of hex digit pairs.
    BadHash,
    /// Hex digits, but not exactly 20 bytes of them.
    BadHashSize,
}

/// The 20-byte hash a hex string denotes: the string must be 40 hex digits.
pub open spec fn spec_str_to_hash(s: Seq<u8>) -> Result<Seq<u8>, ResourceRefError> {
    if !(s.len() % 2 == 0 && (forall|j: int| 0 <= j < s.len() ==> is_hex_digit(#[trigger] s[j]))) {
        Err(ResourceRefError::BadHash)
    } else if bytes_from_hex(s).len() != 20 {
        Err(ResourceRefError::BadHashSize)
    } else {
        Ok(bytes_from_hex(s))
    }
}

/// Decodes a 40-digit hex string into a 20-byte resource hash.
pub fn str_to_hash(s: &str) -> (r: Result<Vec<u8>, ResourceRefError>)
    ensures
        spec_str_to_hash(s.spec_bytes()) matches Ok(h) ==> ({
            &&& r matches Ok(v)
            &&& v@ == h
        }),
        spec_str_to_hash(s.spec_bytes()) matches Err(e) ==> r == Err::<Vec<u8>, ResourceRefError>(
            e,
        ),
{
    match from_hex(s.as_bytes()) {
        None => Err(ResourceRefError::BadHash),
        Some(v) => {
            if v.len() != 20 {
                Err(ResourceRefError::BadHashSize)
            } else {
                Ok(v)
            }
        },
    }
}

/// How a reference string is read: `g` followed by a decimal number is a
/// GUID; anything else must be a 40-digit hex hash.
pub open spec fn spec_parse_resource_ref(s: Seq<u8>) -> Result<
    ResourceRefValue,
    ResourceRefError,
> {
    if s.len() > 0 && s[0] == 103 {
        match spec_parse_u32_decimal(s.skip(1)) {
            Some(g) => Ok(ResourceRefValue::Guid(g)),
            None => Err(ResourceRefError::BadGuid),
        }
    } else {
        match spec_str_to_hash(s) {
            Ok(h) => Ok(ResourceRefValue::Hash(h)),
            Err(e) => Err(e),
        }
    }
}

impl ResourceRef {
    /// Parses a reference string.
    pub fn from_str(s: &str) -> (r: Result<ResourceRef, ResourceRefError>)
        ensures
            spec_parse_resource_ref(s.spec_bytes()) matches Ok(v) ==> ({
                &&& r matches Ok(rr)
                &&& rr@ == v
            }),
            spec_parse_resource_ref(s.spec_bytes()) matches Err(e) ==> r == Err::<
                ResourceRef,
                ResourceRefError,
            >(e),
    {
        let bytes = s.as_bytes();
        if bytes.len() > 0 && bytes[0] == 103 {
            let rest = vstd::slice::slice_subrange(bytes, 1, bytes.len());
            proof {
                assert(rest@ =~= s.spec_bytes().skip(1));
            }
            match parse_u32_decimal(rest) {
                Some(g) => Ok(ResourceRef::Guid(g)),
                None => Err(ResourceRefError::BadGuid),
            }
        } else {
            match str_to_hash(s) {
                Ok(h) => Ok(ResourceRef::Hash(h)),
                Err(e) => Err(e),
            }
        }
    }
}

/// The resource types named by file magics.
#[derive(Debug, Clone, Copy, PartialEq, Eq, Structural)]
pub enum ResourceType {
    Texture,
    GtfTexture,
    Level,
    Plan,
    FishScript,
    Mesh,
    GfxMaterial,
    Voice,
    Painting,
    CrossLevel,
    MoveRecording,
    Quest,
    AdventureCreate,
    AdventureShared,
    StreamingChunk,
    Jpeg,
    Png,
    Unknown,
}

/// The JPEG file magic.
pub open spec fn jpeg_magic() -> Seq<u8> {
    seq![0xffu8, 0xd8u8, 0xffu8, 0xe0u8]
}

/// The PNG file magic.
pub open spec fn png_magic() -> Seq<u8> {
    seq![0x89u8, 0x50u8, 0x4eu8, 0x47u8, 0x0du8, 0x0au8, 0x1au8, 0x0au8]
}

/// The type a buffer's magic names, with the cursor position after the
/// sniff: 4 bytes for the named magics and JPEG, 8 for the PNG check and for
/// an unknown file.
pub open spec fn spec_from_magic(b: Seq<u8>) -> Result<(ResourceType, int), DecodeError> {
    if b.len() < 4 {
        Err(DecodeError::Truncated)
    } else {
        let m = b.subrange(0, 4);
        if m == "TEX ".spec_bytes() {
            Ok((ResourceType::Texture, 4))
        } else if m == "GTF ".spec_bytes() {
            Ok((ResourceType::GtfTexture, 4))
        } else if m == "LVLb".spec_bytes() {
            Ok((ResourceType::Level, 4))
        } else if m == "PLNb".spec_bytes() {
            Ok((ResourceType::Plan, 4))
        } else if m == "FSHb".spec_bytes() {
            Ok((ResourceType::FishScript, 4))
        } else if m == "MSHb".spec_bytes() {
            Ok((ResourceType::Mesh, 4))
        } else if m == "GMTb".spec_bytes() {
            Ok((ResourceType::GfxMaterial, 4))
        } else if m == "VOPb".spec_bytes() {
            Ok((ResourceType::Voice, 4))
        } else if m == "PTGb".spec_bytes() {
            Ok((ResourceType::Painting, 4))
        } else if m == "PRFb".spec_bytes() {
            Ok((ResourceType::CrossLevel, 4))
        } else if m == "RECb".spec_bytes() {
            Ok((ResourceType::MoveRecording, 4))
        } else if m == "QSTb".spec_bytes() {
            Ok((ResourceType::Quest, 4))
        } else if m == "ADCb".spec_bytes() {
            Ok((ResourceType::AdventureCreate, 4))
        } else if m == "ADSb".spec_bytes() {
            Ok((ResourceType::AdventureShared, 4))
        } else if m == "CHKb".spec_bytes() {
            Ok((ResourceType::StreamingChunk, 4))
        } else if m == jpeg_magic() {
            Ok((ResourceType::Jpeg, 4))
        } else if b.len() < 8 {
            Err(DecodeError::Truncated)
        } else if b.subrange(0, 8) == png_magic() {
            Ok((ResourceType::Png, 8))
        } else {
            Ok((ResourceType::Unknown, 8))
        }
    }
}

impl ResourceType {
    /// Sniffs the resource type from the magic at the start of the buffer.
    pub fn from_magic(cur: &mut ByteCursor) -> (r: Result<ResourceType, DecodeError>)
        requires
            old(cur).wf(),
            old(cur).pos == 0,
        ensures
            final(cur).wf(),
            final(cur).data == old(cur).data,
            spec_from_magic(old(cur).data@) matches Ok(tp) ==> ({
                &&& r matches Ok(t)
                &&& t == tp.0
                &&& final(cur).pos == tp.1
            }),
            spec_from_magic(old(cur).data@) matches Err(e) ==> r == Err::<
                ResourceType,
                DecodeError,
            >(e),
    {
        let magic = match cur.read_bytes(4) {
            Ok(m) => m,
            Err(e) => {
                return Err(e);
            },
        };
        let m = magic.as_slice();
        if bytes_eq(m, "TEX ".as_bytes()) {
            Ok(ResourceType::Texture)
        } else if bytes_eq(m, "GTF ".as_bytes()) {
            Ok(ResourceType::GtfTexture)
        } else if bytes_eq(m, "LVLb".as_bytes()) {
            Ok(ResourceType::Level)
        } else if bytes_eq(m, "PLNb".as_bytes()) {
            Ok(ResourceType::Plan)
        } else if bytes_eq(m, "FSHb".as_bytes()) {
            Ok(ResourceType::FishScript)
        } else if bytes_eq(m, "MSHb".as_bytes()) {
            Ok(ResourceType::Mesh)
        } else if bytes_eq(m, "GMTb".as_bytes()) {
            Ok(ResourceType::GfxMaterial)
        } else if bytes_eq(m, "VOPb".as_bytes()) {
            Ok(ResourceType::Voice)
        } else if bytes_eq(m, "PTGb".as_bytes()) {
            Ok(ResourceType::Painting)
        } else if bytes_eq(m, "PRFb".as_bytes()) {
            Ok(ResourceType::CrossLevel)
        } else if bytes_eq(m, "RECb".as_bytes()) {
            Ok(ResourceType::MoveRecording)
        } else if bytes_eq(m, "QSTb".as_bytes()) {
            Ok(ResourceType::Quest)
        } else if bytes_eq(m, "ADCb".as_bytes()) {
            Ok(ResourceType::AdventureCreate)
        } else if bytes_eq(m, "ADSb".as_bytes()) {
            Ok(ResourceType::AdventureShared)
        } else if bytes_eq(m, "CHKb".as_bytes()) {
            Ok(ResourceType::StreamingChunk)
        } else {
            let is_jpeg = m.len() == 4 && m[0] == 0xff && m[1] == 0xd8 && m[2] == 0xff && m[3]
                == 0xe0;
            if is_jpeg {
                proof {
                    assert(magic@ =~= jpeg_magic());
                }
                return Ok(ResourceType::Jpeg);
            }
            proof {
                assert(magic@ != jpeg_magic());
            }
            cur.set_position(0);
            let magic8 = match cur.read_bytes(8) {
                Ok(m) => m,
                Err(e) => {
                    return Err(e);
                },
            };
            let m8 = magic8.as_slice();
            let is_png = m8.len() == 8 && m8[0] == 0x89 && m8[1] == 0x50 && m8[2] == 0x4e && m8[3]
                == 0x47 && m8[4] == 0x0d && m8[5] == 0x0a && m8[6] == 0x1a && m8[7] == 0x0a;
            if is_png {
                proof {
                    assert(magic8@ =~= png_magic());
                }
                Ok(ResourceType::Png)
            } else {
                proof {
                    assert(magic8@ != png_magic()) by {
                        if magic8@ == png_magic() {
                            assert(magic8@[0] == 0x89 && magic8@[1] == 0x50 && magic8@[2] == 0x4e
                                && magic8@[3] == 0x47 && magic8@[4] == 0x0d && magic8@[5] == 0x0a
                                && magic8@[6] == 0x1a && magic8@[7] == 0x0a);
                        }
                    }
                }
                Ok(ResourceType::Unknown)
            }
        }
    }

    /// Whether the type's file format carries a revision header after the
    /// magic.
    pub open spec fn spec_is_container(self) -> bool {
        !(self is Texture || self is GtfTexture || self is Jpeg || self is Png || self is Unknown)
    }
}

/// The branch marker inside newer container revisions.
#[derive(Debug, Clone, Copy, PartialEq, Eq, Structural)]
pub struct ResourceBranch {
    pub id: u16,
    pub revision: u16,
}

/// What the header of an uploaded resource declares.
#[derive(Debug)]
pub struct ResourceInfo {
    pub res_type: ResourceType,
    pub revision: Option<u32>,
    pub dependency_table: Option<u32>,
    pub branch: Option<ResourceBranch>,
    pub compression_flags: Option<u8>,
    pub is_compressed: Option<bool>,
}

/// Parses a resource header: the magic, then for container types the
/// revision, and with growing revisions the dependency-table offset, the
/// branch marker, the compression flags (also for the branched revision
/// 0x272 of the `LD` branch at branch revision 2 or later), and the
/// compressed flag.
pub open spec fn spec_parse_resource(b: Seq<u8>) -> Result<ResourceInfo, DecodeError> {
    match spec_from_magic(b) {
        Err(e) => Err(e),
        Ok((rt, p0)) => if !rt.spec_is_container() {
            Ok(
                ResourceInfo {
                    res_type: rt,
                    revision: None,
                    dependency_table: None,
                    branch: None,
                    compression_flags: None,
                    is_compressed: None,
                },
            )
        } else if p0 + 4 > b.len() {
            Err(DecodeError::Truncated)
        } else {
            let rev = be_val(b.subrange(p0, p0 + 4)) as u32;
            if rev < 0x109 {
                Ok(
                    ResourceInfo {
                        res_type: rt,
                        revision: Some(rev),
                        dependency_table: None,
                        branch: None,
                        compression_flags: None,
                        is_compressed: None,
                    },
                )
            } else if p0 + 8 > b.len() {
                Err(DecodeError::Truncated)
            } else {
                let dep = be_val(b.subrange(p0 + 4, p0 + 8)) as u32;
                if rev < 0x189 || rt is Mesh {
                    Ok(
                        ResourceInfo {
                            res_type: rt,
                            revision: Some(rev),
                            dependency_table: Some(dep),
                            branch: None,
                            compression_flags: None,
                            is_compressed: None,
                        },
                    )
                } else {
                    let p1 = p0 + 8;
                    if rev >= 0x271 && p1 + 4 > b.len() {
                        Err(DecodeError::Truncated)
                    } else {
                        let branch: Option<ResourceBranch> = if rev >= 0x271 {
                            Some(
                                ResourceBranch {
                                    id: be_val(b.subrange(p1, p1 + 2)) as u16,
                                    revision: be_val(b.subrange(p1 + 2, p1 + 4)) as u16,
                                },
                            )
                        } else {
                            None
                        };
                        let p2: int = if rev >= 0x271 {
                            p1 + 4
                        } else {
                            p1
                        };
                        let wants_flags = rev >= 0x297 || (rev == 0x272 && (
                        branch matches Some(br) && br.id == 0x4c44 && br.revision >= 2));
                        if wants_flags && p2 + 1 > b.len() {
                            Err(DecodeError::Truncated)
                        } else {
                            let flags: Option<u8> = if wants_flags {
                                Some(b[p2])
                            } else {
                                None
                            };
                            let p3: int = if wants_flags {
                                p2 + 1
                            } else {
                                p2
                            };
                            if p3 + 1 > b.len() {
                                Err(DecodeError::Truncated)
                            } else {
                                Ok(
                                    ResourceInfo {
                                        res_type: rt,
                                        revision: Some(rev),
                                        dependency_table: Some(dep),
                                        branch,
                                        compression_flags: flags,
                                        is_compressed: Some(b[p3] != 0),
                                    },
                                )
                            }
                        }
                    }
                }
            }
        },
    }
}

impl ResourceInfo {
    /// Parses the header of an uploaded resource. Unlike the rest of the
    /// decoder family this data arrives from trusted disk contents in the
    /// original flow, but parsing is still total: a truncated buffer is an
    /// error, never a panic.
    pub fn parse_from_res(data: Vec<u8>) -> (r: Result<ResourceInfo, DecodeError>)
        ensures
            spec_parse_resource(data@) matches Ok(info) ==> r == Ok::<ResourceInfo, DecodeError>(
                info,
            ),
            spec_parse_resource(data@) matches Err(e) ==> r == Err::<ResourceInfo, DecodeError>(e),
    {
        let mut cur = ByteCursor::new(data);
        let res_type = match ResourceType::from_magic(&mut cur) {
            Ok(t) => t,
            Err(e) => {
                return Err(e);
            },
        };
        let container = match res_type {
            ResourceType::Texture => false,
            ResourceType::GtfTexture => false,
            ResourceType::Jpeg => false,
            ResourceType::Png => false,
            ResourceType::Unknown => false,
            _ => true,
        };
        if !container {
            return Ok(
                ResourceInfo {
                    res_type,
                    revision: None,
                    dependency_table: None,
                    branch: None,
                    compression_flags: None,
                    is_compressed: None,
                },
            );
        }
        let rev = match cur.read_u32_be() {
            Ok(v) => v,
            Err(e) => {
                return Err(e);
            },
        };
        if rev < 0x109 {
            return Ok(
                ResourceInfo {
                    res_type,
                    revision: Some(rev),
                    dependency_table: None,
                    branch: None,
                    compression_flags: None,
                    is_compressed: None,
                },
            );
        }
        let dep = match cur.read_u32_be() {
            Ok(v) => v,
            Err(e) => {
                return Err(e);
            },
        };
        let is_mesh = match res_type {
            ResourceType::Mesh => true,
            _ => false,
        };
        if rev < 0x189 || is_mesh {
            return Ok(
                ResourceInfo {
                    res_type,
                    revision: Some(rev),
                    dependency_table: Some(dep),
                    branch: None,
                    compression_flags: None,
                    is_compressed: None,
                },
            );
        }
        let mut branch: Option<ResourceBranch> = None;
        if rev >= 0x271 {
            let id = match cur.read_u16_be() {
                Ok(v) => v,
                Err(e) => {
                    return Err(e);
                },
            };
            let branch_revision = match cur.read_u16_be() {
                Ok(v) => v,
                Err(e) => {
                    return Err(e);
                },
            };
            branch = Some(ResourceBranch { id, revision: branch_revision });
        }
        let wants_flags = rev >= 0x297 || (rev == 0x272 && match branch {
            Some(br) => br.id == 0x4c44 && br.revision >= 2,
            None => false,
        });
        let mut compression_flags: Option<u8> = None;
        if wants_flags {
            let f = match cur.read_u8() {
                Ok(v) => v,
                Err(e) => {
                    return Err(e);
                },
            };
            compression_flags = Some(f);
        }
        let c = match cur.read_u8() {
            Ok(v) => v,
            Err(e) => {
                return Err(e);
            },
        };
        Ok(
            ResourceInfo {
                res_type,
                revision: Some(rev),
                dependency_table: Some(dep),
                branch,
                compression_flags,
                is_compressed: Some(c != 0),
            },
        )
    }
}

} // verus!
