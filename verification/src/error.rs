//! Failure kinds surfaced by the GLF reader.

use vstd::prelude::*;

verus! {

/// Every error a facade operation can report, one variant per failure kind.
#[derive(Clone, Copy, Debug, PartialEq, Eq, Structural)]
pub enum GlfError {
    /// The filesystem refused the path. Reported by unverified callers that
    /// perform the file I/O; the parsing core never produces it.
    OpenFailed,
    /// The ZIP container was unreadable, or no entry name contains `dat`.
    ContainerInvalid,
    /// A header, record, or pointer would read past the buffer end; a
    /// sentinel (`*`, `0xEFEF`, `0xDEDE`, the record-type word) failed to
    /// match; or an unsupported record type was encountered.
    TruncatedOrMalformed,
    /// The image record announces H.264 compression, which is not supported.
    UnsupportedCompression,
    /// `extract_image` was called with an index at or past `len()`.
    IndexOutOfRange,
    /// The zlib decoder rejected the payload, or the inflated buffer does not
    /// match the image geometry.
    DecompressionFailed,
}

} // verus!
