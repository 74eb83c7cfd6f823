//! The common-info header: the fixed 21-byte prefix in front of every record
//! of the `.dat` stream.

use vstd::prelude::*;

use crate::error::GlfError;
use crate::reader::le_u16_at;
use crate::reader::le_u32_at;
use crate::reader::le_u64_at;
use crate::reader::read_u16;
use crate::reader::read_u32;
use crate::reader::read_u64;

verus! {

/// Number of bytes every common-info header occupies on the wire.
pub const CI_HEADER_LEN: usize = 21;

/// The ASCII `*` sentinel that opens every header.
pub const CI_SENTINEL: u8 = 0x2A;

/// The 21-byte common-info header that prefixes every `.dat` record.
///
/// `time_bits` holds the raw bits of the little-endian IEEE-754 `f64`
/// seconds-since-Gemini-epoch field; for the non-negative timestamps of a
/// capture, comparing the bit patterns as `u64` orders them as the encoded
/// times do.
#[derive(Clone, Copy, Debug, Hash, PartialEq, Eq, Structural)]
pub struct CIHeader {
    /// The size of the header in bytes; always 21.
    pub header_size: u8,
    /// The payload length in bytes, normalized on parse to exclude the header.
    pub payload_length: u32,
    /// Seconds since the Gemini epoch, as raw IEEE-754 bits.
    pub time_bits: u64,
    /// The type of the record that follows the header.
    pub header_type: u8,
    /// The device ID (the sonar id).
    pub device_id: u16,
    /// Node ID.
    pub node_id: u16,
}

impl CIHeader {
    /// Create a new CIHeader with the default parameters.
    pub fn new() -> (r: CIHeader)
        ensures
            r.header_size == 21,
            r.payload_length == 0,
            r.time_bits == 0,
            r.header_type == 0,
            r.device_id == 0,
            r.node_id == 0,
    {
        CIHeader {
            header_size: 21,
            payload_length: 0,
            time_bits: 0,
            header_type: 0,
            device_id: 0,
            node_id: 0,
        }
    }

    /// Return the size of this header in bytes.
    pub fn len(self) -> (r: u32)
        ensures
            r == self.header_size,
    {
        self.header_size as u32
    }
}

/// What a common-info header at `off` decodes to, or `None` where the 21
/// bytes do not fit in the buffer, the `*` sentinel is absent, or the stored
/// length is smaller than the header it is meant to include.
pub open spec fn spec_parse_header(b: Seq<u8>, off: int) -> Option<CIHeader>
    recommends
        0 <= off,
{
    if off + 21 > b.len() {
        None
    } else if b[off] != CI_SENTINEL {
        None
    } else if le_u32_at(b, off + 2) < 21 {
        None
    } else {
        Some(
            CIHeader {
                header_size: 21,
                payload_length: (le_u32_at(b, off + 2) - 21) as u32,
                time_bits: le_u64_at(b, off + 6),
                header_type: b[off + 14],
                device_id: le_u16_at(b, off + 15),
                node_id: le_u16_at(b, off + 17),
            },
        )
    }
}

/// Extract the header from this part of the dat buffer, advancing
/// `file_offset` past it on success.
///
/// * `dat_buffer` - the byte buffer of the `.dat` entry.
/// * `file_offset` - current offset in the buffer.
pub fn parse_header(dat_buffer: &Vec<u8>, file_offset: &mut usize) -> (r: Result<
    CIHeader,
    GlfError,
>)
    requires
        *old(file_offset) <= dat_buffer@.len(),
    ensures
        match r {
            Ok(h) => {
                &&& spec_parse_header(dat_buffer@, *old(file_offset) as int) == Some(h)
                &&& *final(file_offset) == *old(file_offset) + 21
            },
            Err(e) => {
                &&& e == GlfError::TruncatedOrMalformed
                &&& spec_parse_header(dat_buffer@, *old(file_offset) as int) is None
                &&& *final(file_offset) == *old(file_offset)
            },
        },
{
    let off: usize = *file_offset;
    if dat_buffer.len() - off < CI_HEADER_LEN {
        return Err(GlfError::TruncatedOrMalformed);
    }
    if dat_buffer[off] != CI_SENTINEL {
        return Err(GlfError::TruncatedOrMalformed);
    }
    // The byte at off + 1 is a version byte; it is ignored.
    let stored_length: u32 = read_u32(dat_buffer, off + 2);
    if stored_length < 21 {
        return Err(GlfError::TruncatedOrMalformed);
    }
    let time_bits: u64 = read_u64(dat_buffer, off + 6);
    let header_type: u8 = dat_buffer[off + 14];
    let device_id: u16 = read_u16(dat_buffer, off + 15);
    let node_id: u16 = read_u16(dat_buffer, off + 17);
    *file_offset = off + CI_HEADER_LEN;
    Ok(
        CIHeader {
            header_size: 21,
            payload_length: stored_length - 21,
            time_bits,
            header_type,
            device_id,
            node_id,
        },
    )
}

} // verus!
