use vstd::prelude::*;

verus! {

/// The ways in which decoding or applying a patch can fail.
#[derive(Clone, Copy, Debug, PartialEq, Eq, Structural)]
pub enum UpsError {
    /// The bytes are not a well-formed UPS patch: wrong magic, a truncated
    /// or oversized variable-length integer, a missing trailer, or an edit
    /// run without its terminator.
    Format,
    /// A CRC32 check failed: the patch's own checksum on decoding, or the
    /// checksum of the patched output (or of the source, when asked for).
    Integrity,
    /// An edit record reaches past the declared target size.
    Bounds,
}

} // verus!
