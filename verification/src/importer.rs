//! The mesh importer: wavefront bytes in, a fixed-point [`MeshData`]
//! out.
//!
//! Parsing is the `obj` crate's work, behind trusted items; the numeric
//! conversion from the parser's binary32 coordinates to this crate's
//! fixed-point scalars is verified bit-decoding code, so only the
//! parser itself is taken on trust.

use vstd::prelude::*;
use crate::fx::{fx_in_range, FX_LIMIT, FX_ONE};
use crate::model::ImportError;
use crate::wavefront::{MeshData, MeshObject};

verus! {

/// A parsed mesh with its binary32 coordinates still as raw `u32` bit
/// patterns; the object, group and polygon structure already in its
/// final shape.
#[derive(Clone, Debug)]
pub struct RawMesh {
    pub position: Vec<[u32; 3]>,
    pub texture: Vec<[u32; 2]>,
    pub normal: Vec<[u32; 3]>,
    pub objects: Vec<MeshObject>,
}

/// The fixed-point reading of one binary32 bit pattern: the value
/// scaled by [`FX_ONE`], truncated toward zero and saturated at
/// [`FX_LIMIT`]; subnormals fall below the scale and read as zero, and
/// infinities and NaNs saturate.
pub open spec fn spec_fx_of_bits(b: u32) -> int {
    let sign = b >> 31;
    let e = (b >> 23) & 0xFF;
    let m = b & 0x7F_FFFF;
    if e == 255 {
        if sign == 1 {
            -(FX_LIMIT as int)
        } else {
            FX_LIMIT as int
        }
    } else if e == 0 {
        0
    } else {
        let mant = ((m + 0x80_0000) * (FX_ONE as int)) as u128;
        let mag: u128 = if e >= 150 {
            if e - 150 >= 64 {
                FX_LIMIT as u128
            } else {
                mant << (((e - 150) as u128))
            }
        } else {
            if 150 - e >= 64 {
                0
            } else {
                mant >> (((150 - e) as u128))
            }
        };
        let clipped: int = if mag > FX_LIMIT as u128 {
            FX_LIMIT as int
        } else {
            mag as int
        };
        if sign == 1 {
            -clipped
        } else {
            clipped
        }
    }
}

/// Decode one binary32 bit pattern into a fixed-point scalar.
pub fn fx_from_bits(b: u32) -> (r: i64)
    ensures
        r as int == spec_fx_of_bits(b),
        fx_in_range(r),
{
    let sign: u32 = b >> 31;
    let e: u32 = (b >> 23) & 0xFF;
    let m: u32 = b & 0x7F_FFFF;
    proof {
        assert(sign <= 1 && e <= 255 && m <= 0x7F_FFFF) by (bit_vector)
            requires
                sign == b >> 31,
                e == (b >> 23) & 0xFF,
                m == b & 0x7F_FFFF,
        ;
    }
    if e == 255 {
        if sign == 1 {
            -FX_LIMIT
        } else {
            FX_LIMIT
        }
    } else if e == 0 {
        0
    } else {
        proof {
            assert((m as int + 0x80_0000) * (FX_ONE as int) < 0x1_0000_0000_0000
                && (m as int + 0x80_0000) * (FX_ONE as int) >= 0) by (nonlinear_arith)
                requires
                    0 <= m <= 0x7F_FFFF,
            ;
        }
        let mant: u128 = ((m as u128) + 0x80_0000) * (FX_ONE as u128);
        let mag: u128 = if e >= 150 {
            let k: u32 = e - 150;
            if k >= 64 {
                FX_LIMIT as u128
            } else {
                mant << (k as u128)
            }
        } else {
            let k: u32 = 150 - e;
            if k >= 64 {
                0
            } else {
                mant >> (k as u128)
            }
        };
        let clipped: u128 = if mag > FX_LIMIT as u128 {
            FX_LIMIT as u128
        } else {
            mag
        };
        if sign == 1 {
            -(clipped as i64)
        } else {
            clipped as i64
        }
    }
}

/// The fixed-point reading of a triple of bit patterns.
pub open spec fn spec_triple_of_bits(b: [u32; 3]) -> (i64, i64, i64) {
    (
        spec_fx_of_bits(b[0]) as i64,
        spec_fx_of_bits(b[1]) as i64,
        spec_fx_of_bits(b[2]) as i64,
    )
}

/// The fixed-point reading of a pair of bit patterns.
pub open spec fn spec_pair_of_bits(b: [u32; 2]) -> (i64, i64) {
    (spec_fx_of_bits(b[0]) as i64, spec_fx_of_bits(b[1]) as i64)
}

fn triple_from_bits(b: &[u32; 3]) -> (r: (i64, i64, i64))
    ensures
        r == spec_triple_of_bits(*b),
{
    (fx_from_bits(b[0]), fx_from_bits(b[1]), fx_from_bits(b[2]))
}

fn pair_from_bits(b: &[u32; 2]) -> (r: (i64, i64))
    ensures
        r == spec_pair_of_bits(*b),
{
    (fx_from_bits(b[0]), fx_from_bits(b[1]))
}

/// Whether every byte is plain ASCII, the alphabet of the wavefront
/// format.  The parser slices object and group name lines by byte
/// position, which panics when a multi-byte character straddles the
/// cut, so only ASCII input is ever handed to it; anything else is
/// rejected as malformed before the parser runs.
pub open spec fn ascii_bytes(s: Seq<u8>) -> bool {
    forall|i: int| 0 <= i < s.len() ==> s[i] < 128
}

fn is_ascii_bytes(bytes: &[u8]) -> (r: bool)
    ensures
        r == ascii_bytes(bytes@),
{
    let mut i: usize = 0;
    while i < bytes.len()
        invariant
            0 <= i <= bytes@.len(),
            forall|j: int| 0 <= j < i ==> bytes@[j] < 128,
        decreases bytes@.len() - i,
    {
        if bytes[i] >= 128 {
            return false;
        }
        i = i + 1;
    }
    true
}

/// What the wavefront parser yields for given bytes: a pure function
/// of the bytes alone, so it carries a name rather than a restatement
/// of the parser's grammar.
pub uninterp spec fn spec_parse_obj(bytes: Seq<u8>) -> Result<RawMesh, ImportError>;

/// How a converted mesh relates to the raw parse output: every
/// coordinate array decoded element-wise, the structure identical.
pub open spec fn mesh_matches_raw(m: MeshData, raw: RawMesh) -> bool {
    &&& m.position@ == raw.position@.map_values(|b: [u32; 3]| spec_triple_of_bits(b))
    &&& m.texture@ == raw.texture@.map_values(|b: [u32; 2]| spec_pair_of_bits(b))
    &&& m.normal@ == raw.normal@.map_values(|b: [u32; 3]| spec_triple_of_bits(b))
    &&& m.objects@ == raw.objects@
}

/// Parse and convert: wavefront bytes to a fixed-point mesh.
/// Non-ASCII content is rejected as malformed before the parser runs;
/// for ASCII content the outcome is exactly the parser's, with every
/// coordinate the decoded reading of the parser's bits and the
/// structure unchanged.
pub(crate) fn import(bytes: &[u8]) -> (r: Result<MeshData, ImportError>)
    ensures
        !ascii_bytes(bytes@) ==> r is Err && r->Err_0 == ImportError::Malformed,
        ascii_bytes(bytes@) ==> match spec_parse_obj(bytes@) {
            Result::Ok(raw) => r matches Ok(m) && mesh_matches_raw(m, raw),
            Result::Err(e) => r is Err && r->Err_0 == e,
        },
{
    if !is_ascii_bytes(bytes) {
        return Result::Err(ImportError::Malformed);
    }
    match parse_obj(bytes) {
        Result::Ok(raw) => {
            let ghost raw0 = raw;
            let converted = mesh_of_raw(raw);
            proof {
                assert(mesh_matches_raw(converted, raw0));
            }
            Result::Ok(converted)
        },
        Result::Err(e) => Result::Err(e),
    }
}

/// Every coordinate array decoded element-wise, structure moved as is.
fn mesh_of_raw(raw: RawMesh) -> (r: MeshData)
    ensures
        r.position@ == raw.position@.map_values(|b: [u32; 3]| spec_triple_of_bits(b)),
        r.texture@ == raw.texture@.map_values(|b: [u32; 2]| spec_pair_of_bits(b)),
        r.normal@ == raw.normal@.map_values(|b: [u32; 3]| spec_triple_of_bits(b)),
        r.objects@ == raw.objects@,
{
    let position = triples_from_bits(&raw.position);
    let texture = pairs_from_bits(&raw.texture);
    let normal = triples_from_bits(&raw.normal);
    MeshData { position, texture, normal, objects: raw.objects }
}

fn triples_from_bits(bits: &Vec<[u32; 3]>) -> (r: Vec<(i64, i64, i64)>)
    ensures
        r@ == bits@.map_values(|b: [u32; 3]| spec_triple_of_bits(b)),
{
    let ghost f = |b: [u32; 3]| spec_triple_of_bits(b);
    let mut out: Vec<(i64, i64, i64)> = Vec::new();
    let mut i: usize = 0;
    while i < bits.len()
        invariant
            0 <= i <= bits@.len(),
            f == (|b: [u32; 3]| spec_triple_of_bits(b)),
            out@ == bits@.take(i as int).map_values(f),
        decreases bits@.len() - i,
    {
        out.push(triple_from_bits(&bits[i]));
        proof {
            assert(bits@.take(i + 1 as int).drop_last() =~= bits@.take(i as int));
            assert(out@ =~= bits@.take(i + 1 as int).map_values(f));
        }
        i = i + 1;
    }
    proof {
        assert(bits@.take(bits@.len() as int) =~= bits@);
    }
    out
}

fn pairs_from_bits(bits: &Vec<[u32; 2]>) -> (r: Vec<(i64, i64)>)
    ensures
        r@ == bits@.map_values(|b: [u32; 2]| spec_pair_of_bits(b)),
{
    let ghost f = |b: [u32; 2]| spec_pair_of_bits(b);
    let mut out: Vec<(i64, i64)> = Vec::new();
    let mut i: usize = 0;
    while i < bits.len()
        invariant
            0 <= i <= bits@.len(),
            f == (|b: [u32; 2]| spec_pair_of_bits(b)),
            out@ == bits@.take(i as int).map_values(f),
        decreases bits@.len() - i,
    {
        out.push(pair_from_bits(&bits[i]));
        proof {
            assert(bits@.take(i + 1 as int).drop_last() =~= bits@.take(i as int));
            assert(out@ =~= bits@.take(i + 1 as int).map_values(f));
        }
        i = i + 1;
    }
    proof {
        assert(bits@.take(bits@.len() as int) =~= bits@);
    }
    out
}

#[verifier::external_type_specification]
#[verifier::external_body]
pub struct ExObjObject(obj::Object);

#[verifier::external_type_specification]
#[verifier::external_body]
pub struct ExObjData(obj::ObjData);

/// Relies on `obj::ObjData::load_buf`: it parses wavefront text from
/// any reader and is the sole judge of well-formedness; an I/O failure
/// of the reader maps to `Unreadable` and every parse failure to
/// `Malformed`.  The parsed coordinates are carried out as raw bits
/// (`f32::to_bits`), the object, group and polygon structure and names
/// as they were parsed, each polygon a list of index triples in order.
/// The parse is a function of the bytes alone, so its outcome carries
/// the name [`spec_parse_obj`].  Only ASCII bytes are admitted: the
/// parser slices object and group name lines by byte position, which
/// panics when byte one or two of such a line is not a character
/// boundary — possible only with multi-byte characters.
#[verifier::external_body]
fn parse_obj(bytes: &[u8]) -> (r: Result<RawMesh, ImportError>)
    requires
        ascii_bytes(bytes@),
    ensures
        r == spec_parse_obj(bytes@),
{
    let d = match obj::ObjData::load_buf(bytes) {
        Ok(d) => d,
        Err(obj::ObjError::Io(_)) => return Err(ImportError::Unreadable),
        Err(_) => return Err(ImportError::Malformed),
    };
    Ok(RawMesh {
        position: position_bits(&d),
        texture: texture_bits(&d),
        normal: normal_bits(&d),
        objects: d.objects.into_iter().map(raw_object).collect(),
    })
}

/// Relies on the parsed `obj::ObjData` shape: its `position` array is
/// `Vec<[f32; 3]>`; each coordinate leaves as its raw bits.
#[verifier::external_body]
fn position_bits(d: &obj::ObjData) -> (r: Vec<[u32; 3]>) {
    d.position.iter().map(|v| [v[0].to_bits(), v[1].to_bits(), v[2].to_bits()]).collect()
}

/// Relies on the parsed `obj::ObjData` shape: its `texture` array is
/// `Vec<[f32; 2]>`; each coordinate leaves as its raw bits.
#[verifier::external_body]
fn texture_bits(d: &obj::ObjData) -> (r: Vec<[u32; 2]>) {
    d.texture.iter().map(|v| [v[0].to_bits(), v[1].to_bits()]).collect()
}

/// Relies on the parsed `obj::ObjData` shape: its `normal` array is
/// `Vec<[f32; 3]>`; each coordinate leaves as its raw bits.
#[verifier::external_body]
fn normal_bits(d: &obj::ObjData) -> (r: Vec<[u32; 3]>) {
    d.normal.iter().map(|v| [v[0].to_bits(), v[1].to_bits(), v[2].to_bits()]).collect()
}

/// Relies on the `obj` crate's parsed `Object` shape: its groups hold
/// `SimplePolygon`s of `IndexTuple(position, texture, normal)`; this
/// moves those fields, one for one, into the crate's own records.
#[verifier::external_body]
fn raw_object(o: obj::Object) -> (r: MeshObject) {
    MeshObject {
        name: o.name,
        groups: o.groups.into_iter().map(|g| crate::wavefront::MeshGroup {
            name: g.name,
            polys: g.polys.into_iter().map(|p| p.0.into_iter().map(|t| {
                crate::wavefront::PolyVertex { position: t.0, texture: t.1, normal: t.2 }
            }).collect()).collect(),
        }).collect(),
    }
}

} // verus!
