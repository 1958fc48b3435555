//! The envelope codec: serializes the metadata record, applies the outer
//! generic block compression, and undoes both, deciding expiry on the way.
//!
//! The outer pass is `lz4_flex`'s block format with the uncompressed length
//! prepended, behind trusted wrappers stating the crate's round-trip
//! guarantee.

use vstd::prelude::*;
use vstd::bytes::spec_u32_to_le_bytes;
use crate::codec::{compressed_text, decodable, str_compress, str_decompress};
use crate::errors::CacherError;
use crate::expiry::{
    check_if_expired, expired_spec, now_formatted, now_unix_millis, timestamp_seconds,
};
use crate::options::CacherOptions;
use crate::record::{
    lemma_record_round_trip, parse_record, record_bytes, serialize_record, wf_meta, CacherInfo,
    MetaView,
};
use crate::variants::{
    parse_unit_spec, parse_variant_spec, unit_name, variant_name, CacherCompression,
    CacherDateRemainingUnit,
};

verus! {

/// What decoding an envelope returns: the decompressed payload and whether
/// the envelope had already expired when it was decoded.
#[derive(Debug)]
pub struct CacherReturnInfo {
    pub is_expired: bool,
    pub data: String,
}

impl CacherReturnInfo {
    /// An empty, unexpired result.
    pub fn new() -> (r: Self)
        ensures
            r.is_expired == false,
            r.data@ == Seq::<char>::empty(),
    {
        Self { is_expired: false, data: String::new() }
    }

    /// The decompressed payload.
    pub fn data(&self) -> (r: String)
        ensures
            r@ == self.data@,
    {
        self.data.clone()
    }

    /// Whether the envelope had expired.
    pub fn is_expired(&self) -> (r: bool)
        ensures
            r == self.is_expired,
    {
        self.is_expired
    }
}

/// What `lz4_flex::block::compress_prepend_size` returns: the block
/// compression of the input, preceded by the input's length as a
/// little-endian `u32`.  The crate picks its match-finding strategy by the
/// build's pointer width, so the compressed bytes may differ between
/// builds; the contracts below rely only on the length prefix and on the
/// round trip, which hold on every build.
pub uninterp spec fn lz4_wrap(bytes: Seq<u8>) -> Seq<u8>;

/// Relies on `lz4_flex::block::compress_prepend_size`: the result is a
/// function of the input alone.  Inputs beyond the `u32` length prefix's
/// range are excluded.
#[verifier::external_body]
fn outer_compress(data: &Vec<u8>) -> (r: Vec<u8>)
    requires
        data@.len() <= u32::MAX,
    ensures
        r@ == lz4_wrap(data@),
        r@.len() >= 4,
        r@.subrange(0, 4) == spec_u32_to_le_bytes(data@.len() as u32),
{
    lz4_flex::block::compress_prepend_size(data.as_slice())
}

/// Relies on `lz4_flex::block::decompress_size_prepended`: decompression
/// recovers exactly the bytes whose compressed form the input is, and an
/// input shorter than its four length-prefix bytes is rejected.
#[verifier::external_body]
fn outer_decompress(data: &[u8]) -> (r: Option<Vec<u8>>)
    ensures
        forall|orig: Seq<u8>| orig.len() <= u32::MAX && #[trigger] lz4_wrap(orig) == data@
            ==> r is Some && r->Some_0@ == orig,
        data@.len() < 4 ==> r is None,
{
    lz4_flex::block::decompress_size_prepended(data).ok()
}

/// The full envelope: the serialized record under the outer compression.
pub open spec fn envelope_bytes(m: MetaView) -> Seq<u8> {
    lz4_wrap(record_bytes(m))
}

/// `bytes` is the envelope of the record `m`, and `m` is representable:
/// its fields fit their length prefixes and the whole record fits the outer
/// layer's `u32` length prefix.
pub open spec fn envelope_of(m: MetaView, bytes: Seq<u8>) -> bool {
    &&& wf_meta(m)
    &&& record_bytes(m).len() <= u32::MAX
    &&& bytes == envelope_bytes(m)
}

/// The record `m` an envelope holds, once recovered, determines the outcome
/// of a decode at time `now_ms`: each malformed field gives its own error,
/// checked in the fixed order (variant name, unit name, timestamp, payload),
/// and a well-formed record gives the payload and the expiry flag.
pub open spec fn decode_matches(
    m: MetaView,
    now_ms: i64,
    r: Result<CacherReturnInfo, CacherError>,
) -> bool {
    match parse_variant_spec(m.compression_name) {
        None => r == Err::<CacherReturnInfo, CacherError>(CacherError::UnrecognizedVariant),
        Some(v) => match parse_unit_spec(m.unit_name) {
            None => r == Err::<CacherReturnInfo, CacherError>(CacherError::UnrecognizedUnit),
            Some(unit) => match timestamp_seconds(m.created_at) {
                None => r == Err::<CacherReturnInfo, CacherError>(CacherError::InvalidTimestamp),
                Some(created_s) => {
                    &&& forall|orig: Seq<char>| #[trigger] decodable(v, m.payload, orig)
                        ==> r is Ok && r->Ok_0.data@ == orig && r->Ok_0.is_expired == expired_spec(
                        created_s,
                        now_ms,
                        unit,
                        m.magnitude,
                    )
                    &&& (r is Err ==> r == Err::<CacherReturnInfo, CacherError>(
                        CacherError::CorruptPayload,
                    ))
                },
            },
        },
    }
}

/// Decoding `bytes` at time `now_ms` gave `r`: whatever record the envelope
/// holds, the outcome matches it.
pub open spec fn decode_outcome(bytes: Seq<u8>, now_ms: i64, r: Result<
    CacherReturnInfo,
    CacherError,
>) -> bool {
    forall|m: MetaView| #[trigger] envelope_of(m, bytes) ==> decode_matches(m, now_ms, r)
}

/// The metadata record an encode builds from a configuration, a creation
/// timestamp and an already-compressed payload.
pub open spec fn make_meta(
    v: CacherCompression,
    created: Seq<char>,
    unit: CacherDateRemainingUnit,
    magnitude: i64,
    payload: Seq<char>,
) -> MetaView {
    MetaView {
        compression_name: variant_name(v),
        created_at: created,
        unit_name: unit_name(unit),
        magnitude,
        payload,
    }
}

/// Encodes `data` into an opaque envelope under the given configuration:
/// compresses the payload, stamps the current UTC time, serializes the
/// record and applies the outer compression.
///
/// Fails with `CorruptPayload` exactly when the payload compression fails
/// (possible only under `InvalidUtf16`), and with `CorruptEnvelope` when the
/// serialized record would not fit the format's `u32` length prefix.
pub fn get_compressed_cacher_info(options: &CacherOptions, data: &str) -> (r: Result<
    Vec<u8>,
    CacherError,
>)
    ensures
        (compressed_text(options.compression_type, data@) is None) <==> r == Err::<
            Vec<u8>,
            CacherError,
        >(CacherError::CorruptPayload),
        r is Ok ==> decodable(
            options.compression_type,
            compressed_text(options.compression_type, data@)->Some_0,
            data@,
        ),
        r matches Ok(bytes) ==> exists|created: Seq<char>|
            {
                let m = make_meta(
                    options.compression_type,
                    created,
                    options.remaining_time_unit,
                    options.remaining_time,
                    compressed_text(options.compression_type, data@)->Some_0,
                );
                &&& #[trigger] timestamp_seconds(created) is Some
                &&& envelope_of(m, bytes@)
                &&& bytes@.subrange(0, 4) == spec_u32_to_le_bytes(record_bytes(m).len() as u32)
            },
        r == Err::<Vec<u8>, CacherError>(CacherError::CorruptEnvelope) ==> exists|
            created: Seq<char>,
        |
            #[trigger] timestamp_seconds(created) is Some && record_bytes(
                make_meta(
                    options.compression_type,
                    created,
                    options.remaining_time_unit,
                    options.remaining_time,
                    compressed_text(options.compression_type, data@)->Some_0,
                ),
            ).len() > u32::MAX,
        r is Err ==> r == Err::<Vec<u8>, CacherError>(CacherError::CorruptPayload) || r == Err::<
            Vec<u8>,
            CacherError,
        >(CacherError::CorruptEnvelope),
{
    let compressed = match str_compress(options.compression_type, data) {
        Ok(c) => c,
        Err(e) => {
            return Err(e);
        },
    };
    let created = now_formatted();
    let info = CacherInfo {
        compression_type: options.compression_type.to_name(),
        creation_time: created,
        remaining_time_unit: options.remaining_time_unit.to_name(),
        remaining_time: options.remaining_time,
        data: compressed,
    };
    let serialized = serialize_record(&info);
    proof {
        assert(info@ =~= make_meta(
            options.compression_type,
            info.creation_time@,
            options.remaining_time_unit,
            options.remaining_time,
            compressed_text(options.compression_type, data@)->Some_0,
        ));
    }
    if serialized.len() > u32::MAX as usize {
        return Err(CacherError::CorruptEnvelope);
    }
    let out = outer_compress(&serialized);
    Ok(out)
}

/// The envelope round trip: however a decode ran, if its input was the
/// envelope of a record with a canonical variant name, a parseable
/// timestamp, a canonical unit name and a genuinely-encoded payload, then
/// it succeeded, returned that payload, and judged expiry by the record's
/// timestamp, unit and magnitude.  Together with the `ensures` of
/// `get_compressed_cacher_info`, decoding an encoded envelope returns the
/// original payload.
pub proof fn lemma_envelope_round_trip(
    v: CacherCompression,
    created: Seq<char>,
    unit: CacherDateRemainingUnit,
    magnitude: i64,
    payload_enc: Seq<char>,
    orig: Seq<char>,
    bytes: Seq<u8>,
    now_ms: i64,
    r: Result<CacherReturnInfo, CacherError>,
)
    requires
        timestamp_seconds(created) is Some,
        decodable(v, payload_enc, orig),
        envelope_of(make_meta(v, created, unit, magnitude, payload_enc), bytes),
        decode_outcome(bytes, now_ms, r),
    ensures
        r is Ok,
        r->Ok_0.data@ == orig,
        r->Ok_0.is_expired == expired_spec(
            timestamp_seconds(created)->Some_0,
            now_ms,
            unit,
            magnitude,
        ),
{
    crate::variants::lemma_variant_name_round_trip(v);
    crate::variants::lemma_unit_name_round_trip(unit);
    let m = make_meta(v, created, unit, magnitude, payload_enc);
    assert(envelope_of(m, bytes));
    assert(decode_matches(m, now_ms, r));
    assert(decodable(v, m.payload, orig));
}

/// Encodes an already-assembled metadata record into an envelope: the
/// serialized record under the outer compression.
///
/// `get_compressed_cacher_info` assembles the record from a configuration
/// and the current time; this entry point takes the record as it stands,
/// whatever its fields hold.  Fails with `CorruptEnvelope` exactly when the
/// serialized record would not fit the format's `u32` length prefix.
pub fn encode_cacher_info(info: &CacherInfo) -> (r: Result<Vec<u8>, CacherError>)
    ensures
        r matches Ok(bytes) ==> envelope_of(info@, bytes@) && bytes@.subrange(0, 4)
            == spec_u32_to_le_bytes(record_bytes(info@).len() as u32),
        (record_bytes(info@).len() > u32::MAX) <==> r == Err::<Vec<u8>, CacherError>(
            CacherError::CorruptEnvelope,
        ),
        r is Err ==> r == Err::<Vec<u8>, CacherError>(CacherError::CorruptEnvelope),
{
    let serialized = serialize_record(info);
    if serialized.len() > u32::MAX as usize {
        return Err(CacherError::CorruptEnvelope);
    }
    Ok(outer_compress(&serialized))
}

/// Decodes an envelope at an explicit time `now_ms` (Unix milliseconds).
///
/// Undoes the outer compression and the record serialization (failing with
/// `CorruptEnvelope` on anything malformed), parses the variant and unit
/// names, checks expiry against `now_ms`, and decompresses the payload.
pub fn get_decompressed_data_at(info: &[u8], now_ms: i64) -> (r: Result<
    CacherReturnInfo,
    CacherError,
>)
    ensures
        decode_outcome(info@, now_ms, r),
        info@.len() < 4 ==> r == Err::<CacherReturnInfo, CacherError>(CacherError::CorruptEnvelope),
{
    let decompressed = match outer_decompress(info) {
        Some(d) => d,
        None => {
            proof {
                assert forall|m: MetaView| #[trigger] envelope_of(m, info@) implies decode_matches(
                    m,
                    now_ms,
                    Err::<CacherReturnInfo, CacherError>(CacherError::CorruptEnvelope),
                ) by {
                    assert(lz4_wrap(record_bytes(m)) == info@);
                }
            }
            return Err(CacherError::CorruptEnvelope);
        },
    };
    let info_data = match parse_record(decompressed.as_slice()) {
        Some(x) => x,
        None => {
            proof {
                assert forall|m: MetaView| #[trigger] envelope_of(m, info@) implies decode_matches(
                    m,
                    now_ms,
                    Err::<CacherReturnInfo, CacherError>(CacherError::CorruptEnvelope),
                ) by {
                    assert(lz4_wrap(record_bytes(m)) == info@);
                    lemma_record_round_trip(m);
                }
            }
            return Err(CacherError::CorruptEnvelope);
        },
    };
    proof {
        assert forall|m: MetaView| #[trigger] envelope_of(m, info@) implies m == info_data@ by {
            assert(lz4_wrap(record_bytes(m)) == info@);
            lemma_record_round_trip(m);
        }
    }
    if CacherCompression::from_str(info_data.compression_type.as_str()).is_err() {
        return Err(CacherError::UnrecognizedVariant);
    }
    if CacherDateRemainingUnit::from_str(info_data.remaining_time_unit.as_str()).is_err() {
        return Err(CacherError::UnrecognizedUnit);
    }
    let is_expired = match check_if_expired(
        info_data.creation_time.as_str(),
        info_data.remaining_time_unit.as_str(),
        info_data.remaining_time,
        now_ms,
    ) {
        Ok(b) => b,
        Err(e) => {
            return Err(e);
        },
    };
    let data = match str_decompress(info_data.data.as_str(), info_data.compression_type.as_str()) {
        Ok(s) => s,
        Err(e) => {
            return Err(e);
        },
    };
    Ok(CacherReturnInfo { is_expired, data })
}

/// Decodes an envelope against the current wall-clock time.
///
/// Apart from reading the clock for the expiry check, this is
/// `get_decompressed_data_at`: the payload and every failure mode are
/// independent of the clock's reading.
pub fn get_decompressed_data(info: &[u8]) -> (r: Result<CacherReturnInfo, CacherError>)
    ensures
        exists|now_ms: i64| #[trigger] decode_outcome(info@, now_ms, r),
        info@.len() < 4 ==> r == Err::<CacherReturnInfo, CacherError>(CacherError::CorruptEnvelope),
{
    let now_ms = now_unix_millis();
    let r = get_decompressed_data_at(info, now_ms);
    proof {
        assert(decode_outcome(info@, now_ms, r));
    }
    r
}

} // verus!
