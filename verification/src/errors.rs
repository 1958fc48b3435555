//! The failure kinds of the envelope codec.

use vstd::prelude::*;

verus! {

/// Everything that can go wrong while encoding or decoding an envelope.
///
/// Every failure of the codec surfaces as one of these values; no operation
/// of the crate panics on malformed input.
#[derive(Copy, Clone, Debug, PartialEq, Eq, Structural)]
pub enum CacherError {
    /// A compression-variant name was not one of the four canonical names.
    UnrecognizedVariant,
    /// A time-unit name was not one of the eight canonical names.
    UnrecognizedUnit,
    /// A creation timestamp did not match the fixed `YYYY-MM-DD HH:MM:SS` format.
    InvalidTimestamp,
    /// The outer compression layer or the record layout of the envelope bytes
    /// was malformed, or a record would not fit the format's size limit.
    CorruptEnvelope,
    /// The embedded payload was not valid output of its compression variant.
    CorruptPayload,
}

impl CacherError {
    /// A short stable description of the error kind.
    pub fn describe(&self) -> (r: &'static str)
        ensures
            r@ == describe_spec(*self),
    {
        match self {
            CacherError::UnrecognizedVariant => "unrecognized compression variant name",
            CacherError::UnrecognizedUnit => "unrecognized time unit name",
            CacherError::InvalidTimestamp => "invalid creation timestamp",
            CacherError::CorruptEnvelope => "corrupt envelope",
            CacherError::CorruptPayload => "corrupt payload",
        }
    }
}

/// What `CacherError::describe` returns for each kind.
pub open spec fn describe_spec(e: CacherError) -> Seq<char> {
    match e {
        CacherError::UnrecognizedVariant => "unrecognized compression variant name"@,
        CacherError::UnrecognizedUnit => "unrecognized time unit name"@,
        CacherError::InvalidTimestamp => "invalid creation timestamp"@,
        CacherError::CorruptEnvelope => "corrupt envelope"@,
        CacherError::CorruptPayload => "corrupt payload"@,
    }
}

} // verus!
