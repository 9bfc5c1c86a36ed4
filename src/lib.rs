//! Reading and applying patches in the UPS binary diff format.
//!
//! A UPS patch is the magic `"UPS1"`, the source and target sizes as
//! variable-length integers, a run of edit records (a skip count followed by
//! a zero-terminated run of XOR bytes) and three little-endian CRC32 values:
//! source, target, and the patch itself.

pub mod apply;
pub mod checksum;
pub mod error;
pub mod laws;
pub mod patch;
pub mod vlq;

pub use error::UpsError;
pub use patch::{EditRecord, UpsPatch};
pub use vlq::decode_vlq;
