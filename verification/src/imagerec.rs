//! The image record: one sonar frame of the `.dat` stream.

use vstd::prelude::*;

use crate::ciheader::CIHeader;
use crate::error::GlfError;
use crate::reader::le_u16_at;
use crate::reader::le_u32_at;
use crate::reader::le_u64_at;
use crate::reader::read_u16;
use crate::reader::read_u32;
use crate::reader::read_u64;

verus! {

/// Wire tag that opens every image record body.
pub const IMAGE_RECORD_TYPE: u16 = 1;

/// Version word every image record must carry.
pub const IMAGE_RECORD_VERSION: u16 = 0xEFEF;

/// End marker closing every image record body.
pub const IMAGE_RECORD_END_TAG: u16 = 0xDEDE;

/// The image record holds all the information on a single frame / image
/// from the sonar, including the starting position of its pixel payload in
/// the byte buffer.
///
/// Fields that are IEEE-754 values on the wire (the bearing table, the beam
/// forming value, speed of sound, transmission time) are held as their raw
/// little-endian bit patterns, so the record is plain integer data.
#[derive(Clone, Debug)]
pub struct ImageRecord {
    /// The CIHeader.
    pub header: CIHeader,
    /// Version number; always `0xEFEF`.
    pub version: u16,
    /// Image version number.
    pub image_version: u16,
    /// The starting range in metres.
    pub range_start: u32,
    /// End of the range in metres.
    pub range_end: u32,
    /// Range compression.
    pub range_compression: u16,
    /// Starting bearing in degrees.
    pub bearing_start: u32,
    /// Ending bearing in degrees.
    pub bearing_end: u32,
    /// Compression type: 0 zlib, 1 none, 2 H.264.
    pub compression_type: u16,
    /// Absolute offset of the pixel payload in the data buffer.
    pub data_ptr: u32,
    /// The number of payload bytes to read at `data_ptr`.
    pub data_size: u32,
    /// The bearing table for this image, one raw `f64` bit pattern per beam.
    pub bearing_table: Vec<u64>,
    /// Any state flags.
    pub state_flags: u32,
    /// Modulation frequency.
    pub modulation_frequency: u32,
    /// Beam forming value, as raw `f32` bits.
    pub beam_form_app: u32,
    /// Transmission time in seconds since the Gemini epoch, as raw `f64` bits.
    pub db_tx_time_bits: u64,
    /// Any ping flags.
    pub ping_flags: u16,
    /// Speed of sound at the transducer, as raw `f32` bits.
    pub sos_at_xd: u32,
    /// Percentage gain.
    pub percent_gain: u16,
    /// CHIRP mode on?
    pub chirp: u8,
    /// The type of the sonar.
    pub sonar_type: u8,
    /// The platform id.
    pub platform: u8,
    /// Size of the record body in bytes (header excluded).
    pub record_size: u32,
    /// The width of the image in pixels.
    pub image_width: u32,
    /// The height of the image in pixels.
    pub image_height: u32,
}

/// The mathematical model of an [`ImageRecord`]: the same fields with the
/// bearing table as a sequence.
#[verifier::ext_equal]
pub struct ImageRecModel {
    pub header: CIHeader,
    pub version: u16,
    pub image_version: u16,
    pub range_start: u32,
    pub range_end: u32,
    pub range_compression: u16,
    pub bearing_start: u32,
    pub bearing_end: u32,
    pub compression_type: u16,
    pub data_ptr: u32,
    pub data_size: u32,
    pub bearing_table: Seq<u64>,
    pub state_flags: u32,
    pub modulation_frequency: u32,
    pub beam_form_app: u32,
    pub db_tx_time_bits: u64,
    pub ping_flags: u16,
    pub sos_at_xd: u32,
    pub percent_gain: u16,
    pub chirp: u8,
    pub sonar_type: u8,
    pub platform: u8,
    pub record_size: u32,
    pub image_width: u32,
    pub image_height: u32,
}

impl View for ImageRecord {
    type V = ImageRecModel;

    open spec fn view(&self) -> ImageRecModel {
        ImageRecModel {
            header: self.header,
            version: self.version,
            image_version: self.image_version,
            range_start: self.range_start,
            range_end: self.range_end,
            range_compression: self.range_compression,
            bearing_start: self.bearing_start,
            bearing_end: self.bearing_end,
            compression_type: self.compression_type,
            data_ptr: self.data_ptr,
            data_size: self.data_size,
            bearing_table: self.bearing_table@,
            state_flags: self.state_flags,
            modulation_frequency: self.modulation_frequency,
            beam_form_app: self.beam_form_app,
            db_tx_time_bits: self.db_tx_time_bits,
            ping_flags: self.ping_flags,
            sos_at_xd: self.sos_at_xd,
            percent_gain: self.percent_gain,
            chirp: self.chirp,
            sonar_type: self.sonar_type,
            platform: self.platform,
            record_size: self.record_size,
            image_width: self.image_width,
            image_height: self.image_height,
        }
    }
}

/// What an image record body starting at `off` decodes to, paired with the
/// enclosing header, or `None` where the body does not fit in the buffer, a
/// sentinel fails to match, the bearing or range bounds are inverted, or an
/// offset of the record would not fit the 32-bit fields that carry it.
///
/// For `image_version != 3` the compression field is absent on the wire and
/// inferred: 1 (none) where the payload size equals `width * height`, else 0
/// (zlib).
pub open spec fn spec_parse_image_record(b: Seq<u8>, h: CIHeader, off: int) -> Option<ImageRecModel>
    recommends
        0 <= off <= b.len(),
{
    if off + 24 > b.len() {
        None
    } else if le_u16_at(b, off) != IMAGE_RECORD_TYPE || le_u16_at(b, off + 2)
        != IMAGE_RECORD_VERSION {
        None
    } else {
        let image_version = le_u16_at(b, off + 4);
        let range_start = le_u32_at(b, off + 6);
        let range_end = le_u32_at(b, off + 10);
        let bearing_start = le_u32_at(b, off + 16);
        let bearing_end = le_u32_at(b, off + 20);
        if bearing_end < bearing_start || range_end < range_start {
            None
        } else {
            let opt: int = if image_version == 3 {
                2
            } else {
                0
            };
            if off + 28 + opt > b.len() {
                None
            } else {
                let data_size = le_u32_at(b, off + 24 + opt);
                let count = bearing_end - bearing_start;
                let height = range_end - range_start;
                let body_size = 62 + opt + data_size + 8 * count;
                let data_ptr = off + 28 + opt;
                let bt_off = data_ptr + data_size;
                let tail_off = bt_off + 8 * count;
                if off + body_size > b.len() {
                    None
                } else if data_ptr > u32::MAX {
                    None
                } else if body_size > u32::MAX {
                    None
                } else if le_u16_at(b, tail_off + 32) != IMAGE_RECORD_END_TAG {
                    None
                } else {
                    let compression_type: u16 = if image_version == 3 {
                        le_u16_at(b, off + 24)
                    } else if data_size == count * height {
                        1
                    } else {
                        0
                    };
                    Some(
                        ImageRecModel {
                            header: h,
                            version: IMAGE_RECORD_VERSION,
                            image_version,
                            range_start,
                            range_end,
                            range_compression: le_u16_at(b, off + 14),
                            bearing_start,
                            bearing_end,
                            compression_type,
                            data_ptr: data_ptr as u32,
                            data_size,
                            bearing_table: Seq::new(
                                count as nat,
                                |j: int| le_u64_at(b, bt_off + 8 * j),
                            ),
                            state_flags: le_u32_at(b, tail_off),
                            modulation_frequency: le_u32_at(b, tail_off + 4),
                            beam_form_app: le_u32_at(b, tail_off + 8),
                            db_tx_time_bits: le_u64_at(b, tail_off + 12),
                            ping_flags: le_u16_at(b, tail_off + 20),
                            sos_at_xd: le_u32_at(b, tail_off + 22),
                            percent_gain: le_u16_at(b, tail_off + 26),
                            chirp: b[tail_off + 28],
                            sonar_type: b[tail_off + 29],
                            platform: b[tail_off + 30],
                            record_size: body_size as u32,
                            image_width: count as u32,
                            image_height: height as u32,
                        },
                    )
                }
            }
        }
    }
}

/// Parse one image record body, advancing `file_offset` past it on success.
///
/// * `header` - the CI Header for this record.
/// * `dat_buffer` - the bytes buffer we are reading from.
/// * `file_offset` - the offset in the dat_buffer.
#[verifier::loop_isolation(false)]
pub fn parse_image_record(
    header: &CIHeader,
    dat_buffer: &Vec<u8>,
    file_offset: &mut usize,
) -> (r: Result<ImageRecord, GlfError>)
    requires
        *old(file_offset) <= dat_buffer@.len(),
    ensures
        match r {
            Ok(rec) => {
                &&& spec_parse_image_record(dat_buffer@, *header, *old(file_offset) as int)
                    == Some(rec@)
                &&& *final(file_offset) == *old(file_offset) + rec.record_size
                &&& *final(file_offset) <= dat_buffer@.len()
            },
            Err(e) => {
                &&& e == GlfError::TruncatedOrMalformed
                &&& spec_parse_image_record(dat_buffer@, *header, *old(file_offset) as int) is None
                &&& *final(file_offset) == *old(file_offset)
            },
        },
{
    let off: usize = *file_offset;
    let len: usize = dat_buffer.len();
    if len - off < 24 {
        return Err(GlfError::TruncatedOrMalformed);
    }
    let record_type: u16 = read_u16(dat_buffer, off);
    let version: u16 = read_u16(dat_buffer, off + 2);
    if record_type != IMAGE_RECORD_TYPE || version != IMAGE_RECORD_VERSION {
        return Err(GlfError::TruncatedOrMalformed);
    }
    let image_version: u16 = read_u16(dat_buffer, off + 4);
    let range_start: u32 = read_u32(dat_buffer, off + 6);
    let range_end: u32 = read_u32(dat_buffer, off + 10);
    let range_compression: u16 = read_u16(dat_buffer, off + 14);
    let bearing_start: u32 = read_u32(dat_buffer, off + 16);
    let bearing_end: u32 = read_u32(dat_buffer, off + 20);
    if bearing_end < bearing_start || range_end < range_start {
        return Err(GlfError::TruncatedOrMalformed);
    }
    let opt: usize = if image_version == 3 {
        2
    } else {
        0
    };
    if len - off < 28 + opt {
        return Err(GlfError::TruncatedOrMalformed);
    }
    let mut compression_type: u16 = 1;
    if image_version == 3 {
        compression_type = read_u16(dat_buffer, off + 24);
    }
    let data_size: u32 = read_u32(dat_buffer, off + 24 + opt);
    let count: u32 = bearing_end - bearing_start;
    let height: u32 = range_end - range_start;
    let body_size_u64: u64 = 62 + (opt as u64) + (data_size as u64) + 8 * (count as u64);
    if ((len - off) as u64) < body_size_u64 {
        return Err(GlfError::TruncatedOrMalformed);
    }
    if (off as u64) > (u32::MAX as u64) - 28 - (opt as u64) {
        return Err(GlfError::TruncatedOrMalformed);
    }
    if body_size_u64 > u32::MAX as u64 {
        return Err(GlfError::TruncatedOrMalformed);
    }
    let data_ptr: usize = off + 28 + opt;
    let bt_off: usize = data_ptr + (data_size as usize);
    let mut bearing_table: Vec<u64> = Vec::new();
    let mut i: u32 = 0;
    while i < count
        invariant
            i <= count,
            bearing_table@.len() == i,
            forall|j: int|
                0 <= j < i ==> bearing_table@[j] == le_u64_at(
                    dat_buffer@,
                    bt_off + 8 * j,
                ),
        decreases count - i,
    {
        let e: u64 = read_u64(dat_buffer, bt_off + (i as usize) * 8);
        bearing_table.push(e);
        i = i + 1;
    }
    let tail_off: usize = bt_off + 8 * (count as usize);
    let state_flags: u32 = read_u32(dat_buffer, tail_off);
    let modulation_frequency: u32 = read_u32(dat_buffer, tail_off + 4);
    let beam_form_app: u32 = read_u32(dat_buffer, tail_off + 8);
    let db_tx_time_bits: u64 = read_u64(dat_buffer, tail_off + 12);
    let ping_flags: u16 = read_u16(dat_buffer, tail_off + 20);
    let sos_at_xd: u32 = read_u32(dat_buffer, tail_off + 22);
    let percent_gain: u16 = read_u16(dat_buffer, tail_off + 26);
    let chirp: u8 = dat_buffer[tail_off + 28];
    let sonar_type: u8 = dat_buffer[tail_off + 29];
    let platform: u8 = dat_buffer[tail_off + 30];
    // One pad byte sits at tail_off + 31.
    let end_tag: u16 = read_u16(dat_buffer, tail_off + 32);
    if end_tag != IMAGE_RECORD_END_TAG {
        return Err(GlfError::TruncatedOrMalformed);
    }
    proof {
        crate::reader::lemma_u32_mul_fits(count as u64, height as u64);
    }
    if image_version != 3 {
        if (data_size as u64) != (count as u64) * (height as u64) {
            compression_type = 0;
        }
    }
    let record_size: u32 = body_size_u64 as u32;
    let rec = ImageRecord {
        header: *header,
        version,
        image_version,
        range_start,
        range_end,
        range_compression,
        bearing_start,
        bearing_end,
        compression_type,
        data_ptr: data_ptr as u32,
        data_size,
        bearing_table,
        state_flags,
        modulation_frequency,
        beam_form_app,
        db_tx_time_bits,
        ping_flags,
        sos_at_xd,
        percent_gain,
        chirp,
        sonar_type,
        platform,
        record_size,
        image_width: count,
        image_height: height,
    };
    proof {
        let spec_rec = spec_parse_image_record(
            dat_buffer@,
            *header,
            off as int,
        ).unwrap();
        assert(rec@.bearing_table =~= spec_rec.bearing_table);
        assert(rec@ =~= spec_rec);
    }
    *file_offset = off + (record_size as usize);
    Ok(rec)
}

} // verus!
