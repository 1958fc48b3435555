//! The serialized envelope record: a compact binary form of the metadata,
//! with a fixed field order and length-prefixed UTF-8 strings.
//!
//! Layout, in order: compression-variant name, creation timestamp, TTL unit
//! name, TTL magnitude, compressed payload.  Each string field is its UTF-8
//! bytes prefixed by their count as a little-endian `u64`; the magnitude is
//! a two's-complement `i64` stored as a little-endian `u64`.  Serialization
//! and parsing are exact inverses, proved below.

use vstd::prelude::*;
use vstd::bytes::{
    lemma_auto_spec_u64_to_from_le_bytes, spec_u64_from_le_bytes, spec_u64_to_le_bytes,
    u64_from_le_bytes, u64_to_le_bytes,
};
use vstd::slice::{slice_subrange, slice_to_vec};
use vstd::string::StrSliceExecFns;
use vstd::utf8::{decode_utf8, encode_utf8, valid_utf8};

verus! {

broadcast use vstd::utf8::encode_utf8_valid_utf8, vstd::utf8::encode_utf8_decode_utf8;

/// The mathematical content of an envelope record.
#[verifier::ext_equal]
pub struct MetaView {
    pub compression_name: Seq<char>,
    pub created_at: Seq<char>,
    pub unit_name: Seq<char>,
    pub magnitude: i64,
    pub payload: Seq<char>,
}

/// Every string field's UTF-8 encoding is short enough for its `u64` length
/// prefix.  Values built by executable code always are.
pub open spec fn wf_meta(m: MetaView) -> bool {
    &&& encode_utf8(m.compression_name).len() < 0x1_0000_0000_0000_0000
    &&& encode_utf8(m.created_at).len() < 0x1_0000_0000_0000_0000
    &&& encode_utf8(m.unit_name).len() < 0x1_0000_0000_0000_0000
    &&& encode_utf8(m.payload).len() < 0x1_0000_0000_0000_0000
}

/// The two's-complement reading of an `i64` as a `u64`.
pub open spec fn i64_as_u64(n: i64) -> u64 {
    if n >= 0 {
        n as u64
    } else {
        (n + 0x1_0000_0000_0000_0000) as u64
    }
}

/// The inverse of `i64_as_u64`.
pub open spec fn u64_as_i64(n: u64) -> i64 {
    if n <= 0x7fff_ffff_ffff_ffff {
        n as i64
    } else {
        (n - 0x1_0000_0000_0000_0000) as i64
    }
}

/// A length-prefixed string field: the UTF-8 bytes of `s`, preceded by
/// their count as a little-endian `u64`.
pub open spec fn lp_string_bytes(s: Seq<char>) -> Seq<u8> {
    spec_u64_to_le_bytes(encode_utf8(s).len() as u64) + encode_utf8(s)
}

/// The serialized record: the five fields in their fixed order.
pub open spec fn record_bytes(m: MetaView) -> Seq<u8> {
    lp_string_bytes(m.compression_name) + lp_string_bytes(m.created_at) + lp_string_bytes(
        m.unit_name,
    ) + spec_u64_to_le_bytes(i64_as_u64(m.magnitude)) + lp_string_bytes(m.payload)
}

/// Reads one length-prefixed string field at offset `start`; yields the
/// decoded field and the offset just past it.
pub open spec fn spec_read_lp(bytes: Seq<u8>, start: int) -> Option<(Seq<char>, int)> {
    if start + 8 <= bytes.len() {
        let n = spec_u64_from_le_bytes(bytes.subrange(start, start + 8)) as int;
        if start + 8 + n <= bytes.len() {
            let field = bytes.subrange(start + 8, start + 8 + n);
            if valid_utf8(field) {
                Some((decode_utf8(field), start + 8 + n))
            } else {
                None
            }
        } else {
            None
        }
    } else {
        None
    }
}

/// Reads one little-endian `u64` at offset `start`.
pub open spec fn spec_read_u64(bytes: Seq<u8>, start: int) -> Option<(u64, int)> {
    if start + 8 <= bytes.len() {
        Some((spec_u64_from_le_bytes(bytes.subrange(start, start + 8)), start + 8))
    } else {
        None
    }
}

/// Parses a whole record; fails on any byte sequence that is not exactly a
/// serialized record.
pub open spec fn spec_parse_record(bytes: Seq<u8>) -> Option<MetaView> {
    match spec_read_lp(bytes, 0) {
        None => None,
        Some((compression_name, i1)) => match spec_read_lp(bytes, i1) {
            None => None,
            Some((created_at, i2)) => match spec_read_lp(bytes, i2) {
                None => None,
                Some((unit_name, i3)) => match spec_read_u64(bytes, i3) {
                    None => None,
                    Some((mag, i4)) => match spec_read_lp(bytes, i4) {
                        None => None,
                        Some((payload, i5)) => if i5 == bytes.len() {
                            Some(
                                MetaView {
                                    compression_name,
                                    created_at,
                                    unit_name,
                                    magnitude: u64_as_i64(mag),
                                    payload,
                                },
                            )
                        } else {
                            None
                        },
                    },
                },
            },
        },
    }
}

/// Casting an `i64` to its two's-complement `u64` and back is the identity.
pub proof fn lemma_i64_u64_round_trip(n: i64)
    ensures
        u64_as_i64(i64_as_u64(n)) == n,
{
}

/// Reading a length-prefixed field out of its place in a longer sequence
/// gives the field back and stops just past it.
proof fn lemma_read_lp_at(pre: Seq<u8>, s: Seq<char>, suf: Seq<u8>)
    requires
        encode_utf8(s).len() < 0x1_0000_0000_0000_0000,
    ensures
        spec_read_lp(pre + lp_string_bytes(s) + suf, pre.len() as int) == Some(
            (s, pre.len() + lp_string_bytes(s).len() as int),
        ),
{
    lemma_auto_spec_u64_to_from_le_bytes();
    let all = pre + lp_string_bytes(s) + suf;
    let eb = encode_utf8(s);
    let n = eb.len() as u64;
    let start = pre.len() as int;
    assert(spec_u64_to_le_bytes(n).len() == 8);
    assert(all.subrange(start, start + 8) =~= spec_u64_to_le_bytes(n));
    assert(spec_u64_from_le_bytes(all.subrange(start, start + 8)) == n);
    assert(all.subrange(start + 8, start + 8 + n as int) =~= eb);
    assert(decode_utf8(eb) == s);
}

/// Reading a little-endian `u64` out of its place in a longer sequence.
proof fn lemma_read_u64_at(pre: Seq<u8>, x: u64, suf: Seq<u8>)
    ensures
        spec_read_u64(pre + spec_u64_to_le_bytes(x) + suf, pre.len() as int) == Some(
            (x, pre.len() + 8 as int),
        ),
{
    lemma_auto_spec_u64_to_from_le_bytes();
    let all = pre + spec_u64_to_le_bytes(x) + suf;
    let start = pre.len() as int;
    assert(spec_u64_to_le_bytes(x).len() == 8);
    assert(all.subrange(start, start + 8) =~= spec_u64_to_le_bytes(x));
}

/// Serialization and parsing are exact inverses: parsing the serialized
/// form of any well-formed record yields that record.
pub proof fn lemma_record_round_trip(m: MetaView)
    requires
        wf_meta(m),
    ensures
        spec_parse_record(record_bytes(m)) == Some(m),
{
    lemma_auto_spec_u64_to_from_le_bytes();
    let b1 = lp_string_bytes(m.compression_name);
    let b2 = lp_string_bytes(m.created_at);
    let b3 = lp_string_bytes(m.unit_name);
    let b4 = spec_u64_to_le_bytes(i64_as_u64(m.magnitude));
    let b5 = lp_string_bytes(m.payload);
    let all = record_bytes(m);
    assert(all =~= Seq::<u8>::empty() + b1 + (b2 + b3 + b4 + b5));
    lemma_read_lp_at(Seq::<u8>::empty(), m.compression_name, b2 + b3 + b4 + b5);
    assert(spec_read_lp(all, 0) == Some((m.compression_name, b1.len() as int)));
    assert(all =~= b1 + b2 + (b3 + b4 + b5));
    lemma_read_lp_at(b1, m.created_at, b3 + b4 + b5);
    assert(spec_read_lp(all, b1.len() as int) == Some((m.created_at, b1.len() + b2.len() as int)));
    assert(all =~= (b1 + b2) + b3 + (b4 + b5));
    lemma_read_lp_at(b1 + b2, m.unit_name, b4 + b5);
    assert(spec_read_lp(all, (b1.len() + b2.len()) as int) == Some(
        (m.unit_name, b1.len() + b2.len() + b3.len() as int),
    ));
    assert(all =~= (b1 + b2 + b3) + b4 + b5);
    lemma_read_u64_at(b1 + b2 + b3, i64_as_u64(m.magnitude), b5);
    assert(spec_read_u64(all, (b1.len() + b2.len() + b3.len()) as int) == Some(
        (i64_as_u64(m.magnitude), b1.len() + b2.len() + b3.len() + 8 as int),
    ));
    assert(all =~= (b1 + b2 + b3 + b4) + b5 + Seq::<u8>::empty());
    lemma_read_lp_at(b1 + b2 + b3 + b4, m.payload, Seq::<u8>::empty());
    assert(spec_read_lp(all, (b1.len() + b2.len() + b3.len() + b4.len()) as int) == Some(
        (m.payload, all.len() as int),
    ));
    lemma_i64_u64_round_trip(m.magnitude);
    assert(spec_parse_record(record_bytes(m)) == Some(m));
}

/// The envelope metadata record: the sole unit of persisted state.
///
/// `compression_name` and `unit_name` of a record built by `encode` always
/// hold canonical names; a decode that meets any other string fails.
pub struct CacherInfo {
    pub compression_type: String,
    pub creation_time: String,
    pub remaining_time_unit: String,
    pub remaining_time: i64,
    pub data: String,
}

impl View for CacherInfo {
    type V = MetaView;

    open spec fn view(&self) -> MetaView {
        MetaView {
            compression_name: self.compression_type@,
            created_at: self.creation_time@,
            unit_name: self.remaining_time_unit@,
            magnitude: self.remaining_time,
            payload: self.data@,
        }
    }
}

/// Relies on `String::from_utf8`: succeeds exactly on valid UTF-8 and then
/// returns the decoded characters.
#[verifier::external_body]
fn string_from_utf8(bytes: Vec<u8>) -> (r: Option<String>)
    ensures
        (r is Some) == valid_utf8(bytes@),
        r is Some ==> r->Some_0@ == decode_utf8(bytes@),
{
    String::from_utf8(bytes).ok()
}

/// The two's-complement `u64` of an `i64`.
fn i64_to_u64(n: i64) -> (r: u64)
    ensures
        r == i64_as_u64(n),
{
    if n >= 0 {
        n as u64
    } else {
        let mag: u64 = (-(n + 1)) as u64;
        u64::MAX - mag
    }
}

/// The inverse of `i64_to_u64`.
fn u64_to_i64(n: u64) -> (r: i64)
    ensures
        r == u64_as_i64(n),
{
    if n <= 0x7fff_ffff_ffff_ffff {
        n as i64
    } else {
        let mag: u64 = u64::MAX - n;
        -(mag as i64) - 1
    }
}

/// Appends one length-prefixed string field.
fn push_lp_string(out: &mut Vec<u8>, s: &str)
    ensures
        final(out)@ == old(out)@ + lp_string_bytes(s@),
        encode_utf8(s@).len() < 0x1_0000_0000_0000_0000,
{
    let mut field = s.as_bytes_vec();
    let n: u64 = field.len() as u64;
    let mut prefix = u64_to_le_bytes(n);
    out.append(&mut prefix);
    out.append(&mut field);
}

/// Serializes a record into its compact binary form.
pub fn serialize_record(info: &CacherInfo) -> (r: Vec<u8>)
    ensures
        r@ == record_bytes(info@),
        wf_meta(info@),
{
    let mut out: Vec<u8> = Vec::new();
    push_lp_string(&mut out, info.compression_type.as_str());
    push_lp_string(&mut out, info.creation_time.as_str());
    push_lp_string(&mut out, info.remaining_time_unit.as_str());
    let mut mag = u64_to_le_bytes(i64_to_u64(info.remaining_time));
    out.append(&mut mag);
    push_lp_string(&mut out, info.data.as_str());
    out
}

/// Reads one length-prefixed string field at `idx`.
fn read_lp_string(bytes: &[u8], idx: usize) -> (r: Option<(String, usize)>)
    requires
        idx <= bytes@.len(),
    ensures
        (r is Some) == (spec_read_lp(bytes@, idx as int) is Some),
        r matches Some(p) ==> spec_read_lp(bytes@, idx as int) == Some((p.0@, p.1 as int)),
{
    let n = bytes.len();
    if n - idx < 8 {
        return None;
    }
    let len64 = u64_from_le_bytes(slice_subrange(bytes, idx, idx + 8));
    let remaining = n - (idx + 8);
    if len64 > remaining as u64 {
        return None;
    }
    let flen = len64 as usize;
    let field = slice_to_vec(slice_subrange(bytes, idx + 8, idx + 8 + flen));
    match string_from_utf8(field) {
        Some(s) => Some((s, idx + 8 + flen)),
        None => None,
    }
}

/// Parses a serialized record; fails on anything that is not exactly the
/// output of `serialize_record`.
pub fn parse_record(bytes: &[u8]) -> (r: Option<CacherInfo>)
    ensures
        (r is Some) == (spec_parse_record(bytes@) is Some),
        r matches Some(info) ==> spec_parse_record(bytes@) == Some(info@),
{
    let compression = match read_lp_string(bytes, 0) {
        Some(p) => p,
        None => {
            return None;
        },
    };
    let created = match read_lp_string(bytes, compression.1) {
        Some(p) => p,
        None => {
            return None;
        },
    };
    let unit = match read_lp_string(bytes, created.1) {
        Some(p) => p,
        None => {
            return None;
        },
    };
    let i3 = unit.1;
    if bytes.len() - i3 < 8 {
        return None;
    }
    let mag64 = u64_from_le_bytes(slice_subrange(bytes, i3, i3 + 8));
    let i4 = i3 + 8;
    let payload = match read_lp_string(bytes, i4) {
        Some(p) => p,
        None => {
            return None;
        },
    };
    if payload.1 != bytes.len() {
        return None;
    }
    Some(
        CacherInfo {
            compression_type: compression.0,
            creation_time: created.0,
            remaining_time_unit: unit.0,
            remaining_time: u64_to_i64(mag64),
            data: payload.0,
        },
    )
}

} // verus!
