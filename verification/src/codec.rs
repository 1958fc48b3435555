//! The string codec: compresses a payload string under a chosen variant and
//! decompresses it back given the variant's canonical name.
//!
//! The four concrete algorithms come from the `lz_str` crate; each call is
//! wrapped in a trusted item whose contract states the crate's documented
//! round-trip guarantee.

use vstd::prelude::*;
use vstd::string::StrSliceExecFns;
use crate::errors::CacherError;
use crate::variants::{CacherCompression, parse_variant_spec};

verus! {

/// What `lz_str::compress` followed by a UTF-16 reinterpretation returns:
/// the compact encoding, as a string when the raw code units happen to form
/// valid UTF-16, and `None` otherwise.
pub uninterp spec fn lz_compress_invalid(s: Seq<char>) -> Option<Seq<char>>;

/// What `lz_str::compress_to_utf16` returns.
pub uninterp spec fn lz_compress_utf16(s: Seq<char>) -> Seq<char>;

/// What `lz_str::compress_to_base64` returns.
pub uninterp spec fn lz_compress_base64(s: Seq<char>) -> Seq<char>;

/// What `lz_str::compress_to_encoded_uri_component` returns.
pub uninterp spec fn lz_compress_uri(s: Seq<char>) -> Seq<char>;

/// The encoded text a variant produces for a payload, when it produces one.
/// Only `InvalidUtf16` can fail: its raw code units need not form a string.
pub open spec fn compressed_text(v: CacherCompression, s: Seq<char>) -> Option<Seq<char>> {
    match v {
        CacherCompression::InvalidUtf16 => lz_compress_invalid(s),
        CacherCompression::ValidUtf16 => Some(lz_compress_utf16(s)),
        CacherCompression::Base64 => Some(lz_compress_base64(s)),
        CacherCompression::Uri => Some(lz_compress_uri(s)),
    }
}

/// No character of `s` has a code point below 32 (the space character).
pub open spec fn no_control_chars(s: Seq<char>) -> bool {
    forall|i: int| 0 <= i < s.len() ==> #[trigger] (s[i] as u32) >= 32
}

/// An encoded text from which the matching decompressor is guaranteed to
/// recover `orig`: it is the variant's encoding of `orig`, and for
/// `ValidUtf16` it is free of control characters, which genuine encodings
/// always are.
pub open spec fn decodable(v: CacherCompression, enc: Seq<char>, orig: Seq<char>) -> bool {
    &&& compressed_text(v, orig) == Some(enc)
    &&& (v == CacherCompression::ValidUtf16 ==> no_control_chars(enc))
}

/// Relies on `lz_str::compress` and `String::from_utf16`: the raw encoding is
/// a function of the input alone, and is returned whenever its code units
/// form valid UTF-16.
#[verifier::external_body]
fn compress_invalid_utf16(data: &str) -> (r: Option<String>)
    ensures
        (r is Some) == (lz_compress_invalid(data@) is Some),
        r is Some ==> r->Some_0@ == lz_compress_invalid(data@)->Some_0,
{
    match String::from_utf16(&lz_str::compress(data)) {
        Ok(s) => Some(s),
        Err(_) => None,
    }
}

/// Relies on `lz_str::decompress` and `String::from_utf16`: decompression
/// recovers exactly the string whose raw encoding the input is.
#[verifier::external_body]
fn decompress_invalid_utf16(compressed: &str) -> (r: Option<String>)
    ensures
        forall|orig: Seq<char>| #[trigger] lz_compress_invalid(orig) == Some(compressed@)
            ==> r is Some && r->Some_0@ == orig,
{
    match lz_str::decompress(compressed) {
        Some(units) => match String::from_utf16(&units) {
            Ok(s) => Some(s),
            Err(_) => None,
        },
        None => None,
    }
}

/// Relies on `lz_str::compress_to_utf16`: the result is a function of the
/// input alone, and every character of it has code point 32 or above (the
/// algorithm emits code units offset by 32, plus a trailing space).
#[verifier::external_body]
fn compress_valid_utf16(data: &str) -> (r: String)
    ensures
        r@ == lz_compress_utf16(data@),
        no_control_chars(r@),
{
    lz_str::compress_to_utf16(data)
}

/// Relies on `lz_str::decompress_from_utf16`: decompression recovers exactly
/// the string whose encoding the input is.  Inputs holding characters below
/// code point 32 are excluded: the algorithm subtracts 32 from every code
/// unit, which would underflow on them.
#[verifier::external_body]
fn decompress_valid_utf16(compressed: &str) -> (r: Option<String>)
    requires
        no_control_chars(compressed@),
    ensures
        forall|orig: Seq<char>| #[trigger] lz_compress_utf16(orig) == compressed@
            ==> r is Some && r->Some_0@ == orig,
{
    match lz_str::decompress_from_utf16(compressed) {
        Some(units) => match String::from_utf16(&units) {
            Ok(s) => Some(s),
            Err(_) => None,
        },
        None => None,
    }
}

/// Relies on `lz_str::compress_to_base64`: the result is a function of the
/// input alone.
#[verifier::external_body]
fn compress_base64(data: &str) -> (r: String)
    ensures
        r@ == lz_compress_base64(data@),
{
    lz_str::compress_to_base64(data)
}

/// Relies on `lz_str::decompress_from_base64`: decompression recovers exactly
/// the string whose encoding the input is.
#[verifier::external_body]
fn decompress_base64(compressed: &str) -> (r: Option<String>)
    ensures
        forall|orig: Seq<char>| #[trigger] lz_compress_base64(orig) == compressed@
            ==> r is Some && r->Some_0@ == orig,
{
    match lz_str::decompress_from_base64(compressed) {
        Some(units) => match String::from_utf16(&units) {
            Ok(s) => Some(s),
            Err(_) => None,
        },
        None => None,
    }
}

/// Relies on `lz_str::compress_to_encoded_uri_component`: the result is a
/// function of the input alone.
#[verifier::external_body]
fn compress_uri(data: &str) -> (r: String)
    ensures
        r@ == lz_compress_uri(data@),
{
    lz_str::compress_to_encoded_uri_component(data)
}

/// Relies on `lz_str::decompress_from_encoded_uri_component`: decompression
/// recovers exactly the string whose encoding the input is.
#[verifier::external_body]
fn decompress_uri(compressed: &str) -> (r: Option<String>)
    ensures
        forall|orig: Seq<char>| #[trigger] lz_compress_uri(orig) == compressed@
            ==> r is Some && r->Some_0@ == orig,
{
    match lz_str::decompress_from_encoded_uri_component(compressed) {
        Some(units) => match String::from_utf16(&units) {
            Ok(s) => Some(s),
            Err(_) => None,
        },
        None => None,
    }
}

/// Whether `s` holds a character below code point 32.
fn has_control_char(s: &str) -> (r: bool)
    ensures
        r == !no_control_chars(s@),
{
    let len = s.unicode_len();
    let mut i: usize = 0;
    while i < len
        invariant
            len == s@.len(),
            i <= len,
            forall|j: int| 0 <= j < i ==> #[trigger] (s@[j] as u32) >= 32,
        decreases len - i,
    {
        let c = s.get_char(i);
        if (c as u32) < 32 {
            return true;
        }
        i += 1;
    }
    false
}

/// Compresses `data` under the algorithm of `compression_type`.
///
/// Succeeds for every input under `ValidUtf16`, `Base64` and `Uri`; under
/// `InvalidUtf16` it fails with `CorruptPayload` exactly when the raw code
/// units of the encoding do not form a valid string.
pub fn str_compress(compression_type: CacherCompression, data: &str) -> (r: Result<
    String,
    CacherError,
>)
    ensures
        r is Ok <==> compressed_text(compression_type, data@) is Some,
        r is Ok ==> r->Ok_0@ == compressed_text(compression_type, data@)->Some_0,
        r is Ok ==> decodable(compression_type, r->Ok_0@, data@),
        r is Err ==> r == Err::<String, CacherError>(CacherError::CorruptPayload)
            && compression_type == CacherCompression::InvalidUtf16,
{
    match compression_type {
        CacherCompression::InvalidUtf16 => match compress_invalid_utf16(data) {
            Some(s) => Ok(s),
            None => Err(CacherError::CorruptPayload),
        },
        CacherCompression::ValidUtf16 => Ok(compress_valid_utf16(data)),
        CacherCompression::Base64 => Ok(compress_base64(data)),
        CacherCompression::Uri => Ok(compress_uri(data)),
    }
}

/// Decompresses `compressed` under the variant named by `compressed_type`.
///
/// Fails with `UnrecognizedVariant` exactly when the name is not canonical;
/// otherwise recovers the original payload from every genuine encoding, and
/// fails with `CorruptPayload` when the text is not one.
pub fn str_decompress(compressed: &str, compressed_type: &str) -> (r: Result<String, CacherError>)
    ensures
        (parse_variant_spec(compressed_type@) is None) <==> r == Err::<String, CacherError>(
            CacherError::UnrecognizedVariant,
        ),
        parse_variant_spec(compressed_type@) matches Some(v) ==> {
            &&& forall|orig: Seq<char>| #[trigger] decodable(v, compressed@, orig)
                ==> r is Ok && r->Ok_0@ == orig
            &&& (r is Err ==> r == Err::<String, CacherError>(CacherError::CorruptPayload))
        },
{
    let parsed = CacherCompression::from_str(compressed_type);
    let v = match parsed {
        Ok(v) => v,
        Err(_) => {
            return Err(CacherError::UnrecognizedVariant);
        },
    };
    let decompressed = match v {
        CacherCompression::InvalidUtf16 => decompress_invalid_utf16(compressed),
        CacherCompression::ValidUtf16 => {
            if has_control_char(compressed) {
                None
            } else {
                decompress_valid_utf16(compressed)
            }
        },
        CacherCompression::Base64 => decompress_base64(compressed),
        CacherCompression::Uri => decompress_uri(compressed),
    };
    match decompressed {
        Some(s) => Ok(s),
        None => Err(CacherError::CorruptPayload),
    }
}

} // verus!
