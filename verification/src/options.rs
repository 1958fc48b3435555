//! The caller-supplied configuration for encoding an envelope.

use vstd::prelude::*;
use vstd::string::StringExecFns;
use crate::variants::{CacherCompression, CacherDateRemainingUnit};

verus! {

/// The configuration of an encode: which compression variant to use, the
/// TTL threshold and its unit, and an opaque storage hint for the host.
///
/// Only the variant, the unit and the magnitude are persisted inside an
/// envelope; `save_path` never leaves the caller's side.
#[derive(Clone)]
pub struct CacherOptions {
    pub save_path: String,
    pub compression_type: CacherCompression,
    pub remaining_time_unit: CacherDateRemainingUnit,
    pub remaining_time: i64,
}

impl CacherOptions {
    /// The default configuration: `ValidUtf16` compression, five days of
    /// validity, and `.cache` as the storage hint.
    pub fn new() -> (r: Self)
        ensures
            r.save_path@ == ".cache"@,
            r.compression_type == CacherCompression::ValidUtf16,
            r.remaining_time_unit == CacherDateRemainingUnit::Days,
            r.remaining_time == 5,
    {
        Self {
            save_path: String::from_str(".cache"),
            compression_type: CacherCompression::ValidUtf16,
            remaining_time_unit: CacherDateRemainingUnit::Days,
            remaining_time: 5,
        }
    }

    /// The storage hint.
    pub fn save_path(&self) -> (r: String)
        ensures
            r@ == self.save_path@,
    {
        self.save_path.clone()
    }

    /// Replaces the storage hint.
    pub fn set_save_path(&mut self, path: &str)
        ensures
            final(self).save_path@ == path@,
            final(self).compression_type == old(self).compression_type,
            final(self).remaining_time_unit == old(self).remaining_time_unit,
            final(self).remaining_time == old(self).remaining_time,
    {
        self.save_path = String::from_str(path);
    }

    /// The compression variant.
    pub fn compression_type(&self) -> (r: CacherCompression)
        ensures
            r == self.compression_type,
    {
        self.compression_type
    }

    /// Replaces the compression variant.
    pub fn set_compression_type(&mut self, compress_type: CacherCompression)
        ensures
            final(self).compression_type == compress_type,
            final(self).save_path@ == old(self).save_path@,
            final(self).remaining_time_unit == old(self).remaining_time_unit,
            final(self).remaining_time == old(self).remaining_time,
    {
        self.compression_type = compress_type;
    }

    /// The TTL unit.
    pub fn remaining_time_unit(&self) -> (r: CacherDateRemainingUnit)
        ensures
            r == self.remaining_time_unit,
    {
        self.remaining_time_unit
    }

    /// Replaces the TTL unit.
    pub fn set_remaining_time_unit(&mut self, time_unit: CacherDateRemainingUnit)
        ensures
            final(self).remaining_time_unit == time_unit,
            final(self).save_path@ == old(self).save_path@,
            final(self).compression_type == old(self).compression_type,
            final(self).remaining_time == old(self).remaining_time,
    {
        self.remaining_time_unit = time_unit;
    }

    /// The TTL magnitude.
    pub fn remaining_time(&self) -> (r: i64)
        ensures
            r == self.remaining_time,
    {
        self.remaining_time
    }

    /// Replaces the TTL magnitude.
    pub fn set_remaining_time(&mut self, time: i64)
        ensures
            final(self).remaining_time == time,
            final(self).save_path@ == old(self).save_path@,
            final(self).compression_type == old(self).compression_type,
            final(self).remaining_time_unit == old(self).remaining_time_unit,
    {
        self.remaining_time = time;
    }
}

} // verus!
