//! Encode/decode round trips of whole envelopes, the concrete scenarios,
//! and corruption handling.

use cacher::codec::str_compress;
use cacher::{
    encode_cacher_info, get_compressed_cacher_info, get_decompressed_data,
    get_decompressed_data_at, CacherCompression, CacherDateRemainingUnit, CacherError, CacherInfo,
    CacherOptions,
};

fn timestamp_now() -> String {
    chrono::Utc::now().format("%Y-%m-%d %H:%M:%S").to_string()
}

fn timestamp_days_ago(days: i64) -> String {
    (chrono::Utc::now() - chrono::Duration::days(days))
        .format("%Y-%m-%d %H:%M:%S")
        .to_string()
}

#[test]
fn hello_world_test() {
    let options = CacherOptions::new();
    let data = String::from("Hello World");

    let compressed_info: Vec<u8> = get_compressed_cacher_info(&options, &data).unwrap();
    let decompressed_data = get_decompressed_data(&compressed_info).unwrap();

    assert_eq!(data, decompressed_data.data());
}

#[test]
fn envelope_roundtrip_all_variants() {
    for variant in [
        CacherCompression::Base64,
        CacherCompression::ValidUtf16,
        CacherCompression::Uri,
    ] {
        let mut options = CacherOptions::new();
        options.set_compression_type(variant);
        let payload = "The quick brown fox jumps over the lazy dog";
        let bytes = get_compressed_cacher_info(&options, payload).unwrap();
        let out = get_decompressed_data(&bytes).unwrap();
        assert_eq!(out.data(), payload);
        assert!(!out.is_expired());
    }
}

#[test]
fn uri_five_days_scenario() {
    let mut options = CacherOptions::new();
    options.set_compression_type(CacherCompression::Uri);
    options.set_remaining_time_unit(CacherDateRemainingUnit::Days);
    options.set_remaining_time(5);

    let bytes = get_compressed_cacher_info(&options, "Hello World").unwrap();
    let out = get_decompressed_data(&bytes).unwrap();
    assert_eq!(out.data(), "Hello World");
    assert!(!out.is_expired());
}

#[test]
fn backdated_envelope_is_expired() {
    // The same configuration, but with the embedded creation time rewritten
    // to ten days in the past: five days of validity are over.
    let info = CacherInfo {
        compression_type: String::from("Uri"),
        creation_time: timestamp_days_ago(10),
        remaining_time_unit: String::from("Days"),
        remaining_time: 5,
        data: str_compress(CacherCompression::Uri, "Hello World").unwrap(),
    };
    let bytes = encode_cacher_info(&info).unwrap();
    let out = get_decompressed_data(&bytes).unwrap();
    assert_eq!(out.data(), "Hello World");
    assert!(out.is_expired());
}

#[test]
fn zero_ttl_is_expired_immediately() {
    let mut options = CacherOptions::new();
    options.set_remaining_time(0);
    let bytes = get_compressed_cacher_info(&options, "soon gone").unwrap();
    let out = get_decompressed_data(&bytes).unwrap();
    assert_eq!(out.data(), "soon gone");
    assert!(out.is_expired());
}

#[test]
fn huge_ttl_is_not_expired() {
    let mut options = CacherOptions::new();
    options.set_remaining_time(1_000_000);
    let bytes = get_compressed_cacher_info(&options, "long lived").unwrap();
    let out = get_decompressed_data(&bytes).unwrap();
    assert_eq!(out.data(), "long lived");
    assert!(!out.is_expired());
}

#[test]
fn empty_envelope_is_corrupt() {
    assert_eq!(
        get_decompressed_data(&[]).unwrap_err(),
        CacherError::CorruptEnvelope
    );
}

#[test]
fn flipped_byte_is_corrupt_not_a_panic() {
    let info = CacherInfo {
        compression_type: String::from("Uri"),
        creation_time: String::from("2020-01-01 00:00:00"),
        remaining_time_unit: String::from("Days"),
        remaining_time: 5,
        data: str_compress(CacherCompression::Uri, "Hello World").unwrap(),
    };
    let bytes = encode_cacher_info(&info).unwrap();
    // Flip one byte inside the compressed block (past the length prefix).
    let mut corrupted = bytes.clone();
    corrupted[4] ^= 0xff;
    assert_eq!(
        get_decompressed_data(&corrupted).unwrap_err(),
        CacherError::CorruptEnvelope
    );
    // Truncating the envelope is just as corrupt.
    let truncated = &bytes[..bytes.len() - 1];
    assert!(get_decompressed_data(truncated).is_err());
}

#[test]
fn unknown_compression_name_in_record() {
    let info = CacherInfo {
        compression_type: String::from("Zstd"),
        creation_time: String::from("2020-01-01 00:00:00"),
        remaining_time_unit: String::from("Days"),
        remaining_time: 5,
        data: String::from("whatever"),
    };
    let bytes = encode_cacher_info(&info).unwrap();
    assert_eq!(
        get_decompressed_data(&bytes).unwrap_err(),
        CacherError::UnrecognizedVariant
    );
}

#[test]
fn unknown_unit_name_in_record() {
    let info = CacherInfo {
        compression_type: String::from("Uri"),
        creation_time: String::from("2020-01-01 00:00:00"),
        remaining_time_unit: String::from("Fortnights"),
        remaining_time: 5,
        data: String::from("whatever"),
    };
    let bytes = encode_cacher_info(&info).unwrap();
    assert_eq!(
        get_decompressed_data(&bytes).unwrap_err(),
        CacherError::UnrecognizedUnit
    );
}

#[test]
fn malformed_timestamp_in_record() {
    let info = CacherInfo {
        compression_type: String::from("Uri"),
        creation_time: String::from("yesterday at noon"),
        remaining_time_unit: String::from("Days"),
        remaining_time: 5,
        data: String::from("whatever"),
    };
    let bytes = encode_cacher_info(&info).unwrap();
    assert_eq!(
        get_decompressed_data(&bytes).unwrap_err(),
        CacherError::InvalidTimestamp
    );
}

#[test]
fn variant_name_is_checked_before_the_timestamp() {
    // Both the variant name and the timestamp are malformed: the variant
    // name is checked first.
    let info = CacherInfo {
        compression_type: String::from("Zstd"),
        creation_time: String::from("not a timestamp"),
        remaining_time_unit: String::from("Eons"),
        remaining_time: 5,
        data: String::from("whatever"),
    };
    let bytes = encode_cacher_info(&info).unwrap();
    assert_eq!(
        get_decompressed_data(&bytes).unwrap_err(),
        CacherError::UnrecognizedVariant
    );
}

#[test]
fn tampered_payload_is_corrupt() {
    let info = CacherInfo {
        compression_type: String::from("Base64"),
        creation_time: timestamp_now(),
        remaining_time_unit: String::from("Days"),
        remaining_time: 5,
        // Not valid base64-compressed text.
        data: String::from("!!!! not a real encoding !!!!"),
    };
    let bytes = encode_cacher_info(&info).unwrap();
    assert_eq!(
        get_decompressed_data(&bytes).unwrap_err(),
        CacherError::CorruptPayload
    );
}

#[test]
fn outer_compression_really_transforms() {
    let info = CacherInfo {
        compression_type: String::from("Uri"),
        creation_time: String::from("2020-01-01 00:00:00"),
        remaining_time_unit: String::from("Days"),
        remaining_time: 5,
        data: str_compress(CacherCompression::Uri, "Hello World").unwrap(),
    };
    let envelope = encode_cacher_info(&info).unwrap();
    let record = cacher::record::serialize_record(&info);
    assert_ne!(envelope, record);
    // The envelope starts with the uncompressed record length, little-endian.
    assert_eq!(&envelope[0..4], &(record.len() as u32).to_le_bytes());
}

#[test]
fn decode_at_explicit_times() {
    let info = CacherInfo {
        compression_type: String::from("Uri"),
        creation_time: String::from("1970-01-01 00:00:00"),
        remaining_time_unit: String::from("Days"),
        remaining_time: 5,
        data: str_compress(CacherCompression::Uri, "epoch").unwrap(),
    };
    let bytes = encode_cacher_info(&info).unwrap();
    // Four days after creation: still valid.
    let fresh = get_decompressed_data_at(&bytes, 4 * 86_400_000).unwrap();
    assert!(!fresh.is_expired());
    // Five days after creation: expired, on the boundary.
    let stale = get_decompressed_data_at(&bytes, 5 * 86_400_000).unwrap();
    assert!(stale.is_expired());
    assert_eq!(stale.data(), "epoch");
}
