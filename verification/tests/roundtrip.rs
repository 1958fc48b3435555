//! Round trips of the string codec and of the enum names.

use cacher::codec::{str_compress, str_decompress};
use cacher::{CacherCompression, CacherDateRemainingUnit, CacherError};

fn roundtrip(variant: CacherCompression, name: &str, payload: &str) {
    let compressed = str_compress(variant, payload).expect("compression should succeed");
    let recovered = str_decompress(&compressed, name).expect("decompression should succeed");
    assert_eq!(recovered, payload);
}

#[test]
fn valid_utf16_roundtrip() {
    roundtrip(CacherCompression::ValidUtf16, "ValidUtf16", "Hello World");
    roundtrip(CacherCompression::ValidUtf16, "ValidUtf16", "");
    roundtrip(CacherCompression::ValidUtf16, "ValidUtf16", "caché ♥ ünïcode");
}

#[test]
fn base64_roundtrip() {
    roundtrip(CacherCompression::Base64, "Base64", "Hello World");
    roundtrip(CacherCompression::Base64, "Base64", "");
    roundtrip(CacherCompression::Base64, "Base64", "aaaaaaaaaaaaaaaaaaaaaaaaaaaaaa");
}

#[test]
fn uri_roundtrip() {
    roundtrip(CacherCompression::Uri, "Uri", "Hello World");
    roundtrip(CacherCompression::Uri, "Uri", "");
    roundtrip(CacherCompression::Uri, "Uri", "key=value&other=with spaces");
}

#[test]
fn invalid_utf16_roundtrip() {
    roundtrip(CacherCompression::InvalidUtf16, "InvalidUtf16", "");
    // The raw encoding need not be a valid string for every payload; when it
    // is, it must round-trip.
    for payload in ["Hello World", "abcabcabc", "x"] {
        if let Ok(compressed) = str_compress(CacherCompression::InvalidUtf16, payload) {
            let recovered = str_decompress(&compressed, "InvalidUtf16")
                .expect("decompression should succeed");
            assert_eq!(recovered, payload);
        }
    }
}

#[test]
fn compression_changes_the_text() {
    for (variant, name) in [
        (CacherCompression::ValidUtf16, "ValidUtf16"),
        (CacherCompression::Base64, "Base64"),
        (CacherCompression::Uri, "Uri"),
    ] {
        let compressed = str_compress(variant, "Hello World").expect(name);
        assert_ne!(compressed, "Hello World");
    }
}

#[test]
fn decompress_with_unknown_name_fails() {
    let compressed = str_compress(CacherCompression::Uri, "Hello World").unwrap();
    assert_eq!(
        str_decompress(&compressed, "Zstd"),
        Err(CacherError::UnrecognizedVariant)
    );
    assert_eq!(
        str_decompress(&compressed, "uri"),
        Err(CacherError::UnrecognizedVariant)
    );
    assert_eq!(
        str_decompress(&compressed, ""),
        Err(CacherError::UnrecognizedVariant)
    );
}

#[test]
fn variant_names_roundtrip() {
    for variant in [
        CacherCompression::InvalidUtf16,
        CacherCompression::Base64,
        CacherCompression::ValidUtf16,
        CacherCompression::Uri,
    ] {
        assert_eq!(CacherCompression::from_str(variant.name()), Ok(variant));
    }
}

#[test]
fn unit_names_roundtrip() {
    for unit in [
        CacherDateRemainingUnit::Milliseconds,
        CacherDateRemainingUnit::Seconds,
        CacherDateRemainingUnit::Minutes,
        CacherDateRemainingUnit::Hours,
        CacherDateRemainingUnit::Days,
        CacherDateRemainingUnit::Weeks,
        CacherDateRemainingUnit::Months,
        CacherDateRemainingUnit::Years,
    ] {
        assert_eq!(CacherDateRemainingUnit::from_str(unit.name()), Ok(unit));
    }
}

#[test]
fn minutes_parses_to_minutes() {
    assert_eq!(
        CacherDateRemainingUnit::from_str("Minutes"),
        Ok(CacherDateRemainingUnit::Minutes)
    );
}

#[test]
fn unknown_names_fail_to_parse() {
    assert_eq!(CacherCompression::from_str("Gzip"), Err(()));
    assert_eq!(CacherCompression::from_str(""), Err(()));
    assert_eq!(CacherDateRemainingUnit::from_str("Fortnights"), Err(()));
    assert_eq!(CacherDateRemainingUnit::from_str("days"), Err(()));
}
