//! A self-describing, time-limited, compressed cache envelope.
//!
//! A caller supplies a string payload and a small configuration (compression
//! variant, expiry threshold and unit); the crate produces an opaque binary
//! blob embedding the compressed payload plus enough metadata to later
//! decompress it and decide whether it has expired.  Expiry and format are
//! entirely self-contained inside the blob: no external store, clock service
//! or index is involved.

pub mod codec;
pub mod envelope;
pub mod errors;
pub mod expiry;
pub mod options;
pub mod record;
pub mod text;
pub mod variants;

pub use envelope::{
    encode_cacher_info, get_compressed_cacher_info, get_decompressed_data, get_decompressed_data_at, CacherReturnInfo,
};
pub use errors::CacherError;
pub use options::CacherOptions;
pub use record::CacherInfo;
pub use variants::{CacherCompression, CacherDateRemainingUnit};
