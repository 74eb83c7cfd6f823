//! The GLF facade: the parsed record stream and on-demand image extraction.

use vstd::prelude::*;

use crate::ciheader::CIHeader;
use crate::ciheader::parse_header;
use crate::ciheader::spec_parse_header;
use crate::error::GlfError;
use crate::imagerec::ImageRecModel;
use crate::imagerec::ImageRecord;
use crate::imagerec::parse_image_record;
use crate::imagerec::spec_parse_image_record;
use crate::inflate::inflate_of;
use crate::inflate::inflate_zlib;
use crate::raster::Raster;
use crate::raster::RasterModel;
use crate::statusrec::StatusRecModel;
use crate::statusrec::StatusRecord;
use crate::statusrec::parse_status_record;
use crate::statusrec::spec_parse_status_record;
use crate::zipdat::read_zip_dat;
use crate::zipdat::spec_dat_entry;

verus! {

/// The models of a sequence of image records.
pub open spec fn imgs_view(v: Seq<ImageRecord>) -> Seq<ImageRecModel> {
    v.map_values(|r: ImageRecord| r@)
}

/// The models of a sequence of status records.
pub open spec fn stats_view(v: Seq<StatusRecord>) -> Seq<StatusRecModel> {
    v.map_values(|r: StatusRecord| r@)
}

/// Prefix already-parsed records onto the outcome of parsing the rest of the
/// stream.
pub open spec fn prepend(
    imgs: Seq<ImageRecModel>,
    stats: Seq<StatusRecModel>,
    rest: Option<(Seq<ImageRecModel>, Seq<StatusRecModel>)>,
) -> Option<(Seq<ImageRecModel>, Seq<StatusRecModel>)> {
    match rest {
        None => None,
        Some(p) => Some((imgs + p.0, stats + p.1)),
    }
}

/// What the record stream of `b` decodes to from `off` on: the image records
/// and the status records, each in stream order, or `None` where a header or
/// record is malformed, truncated, or of an unsupported type (V4 protocol,
/// analog video, raw serial, generic, or unknown).
///
/// Parsing stops once fewer than 3 bytes remain; a well-formed stream ends
/// with 0 bytes left.
pub open spec fn spec_parse_dat_at(b: Seq<u8>, off: int) -> Option<
    (Seq<ImageRecModel>, Seq<StatusRecModel>),
>
    recommends
        0 <= off <= b.len(),
    decreases b.len() - off,
{
    if off + 2 >= b.len() {
        Some((Seq::empty(), Seq::empty()))
    } else {
        match spec_parse_header(b, off) {
            None => None,
            Some(h) => {
                if h.header_type == 0 {
                    match spec_parse_image_record(b, h, off + 21) {
                        None => None,
                        Some(rec) => {
                            let next = off + 21 + rec.record_size;
                            if next > b.len() {
                                None
                            } else {
                                match spec_parse_dat_at(b, next) {
                                    None => None,
                                    Some(rest) => Some((seq![rec] + rest.0, rest.1)),
                                }
                            }
                        },
                    }
                } else if h.header_type == 3 {
                    match spec_parse_status_record(b, h, off + 21) {
                        None => None,
                        Some(rec) => {
                            let next = off + 21 + 218;
                            if next > b.len() {
                                None
                            } else {
                                match spec_parse_dat_at(b, next) {
                                    None => None,
                                    Some(rest) => Some((rest.0, seq![rec] + rest.1)),
                                }
                            }
                        },
                    }
                } else {
                    None
                }
            },
        }
    }
}

/// Prefixing twice is prefixing the concatenations once.
proof fn lemma_prepend_assoc(
    a: Seq<ImageRecModel>,
    b: Seq<StatusRecModel>,
    c: Seq<ImageRecModel>,
    d: Seq<StatusRecModel>,
    rest: Option<(Seq<ImageRecModel>, Seq<StatusRecModel>)>,
)
    ensures
        prepend(a, b, prepend(c, d, rest)) == prepend(a + c, b + d, rest),
{
    match rest {
        None => {},
        Some(p) => {
            assert(a + (c + p.0) =~= (a + c) + p.0);
            assert(b + (d + p.1) =~= (b + d) + p.1);
        },
    }
}

/// One image-record step of the stream: the parse from `off` is that record
/// prefixed onto the parse from past it.
proof fn lemma_parse_dat_step_image(b: Seq<u8>, off: int, h: CIHeader, rec: ImageRecModel)
    requires
        0 <= off,
        off + 2 < b.len(),
        spec_parse_header(b, off) == Some(h),
        h.header_type == 0,
        spec_parse_image_record(b, h, off + 21) == Some(rec),
        off + 21 + rec.record_size <= b.len(),
    ensures
        spec_parse_dat_at(b, off) == prepend(
            seq![rec],
            Seq::empty(),
            spec_parse_dat_at(b, off + 21 + rec.record_size),
        ),
{
    let next = off + 21 + rec.record_size;
    match spec_parse_dat_at(b, next) {
        None => {},
        Some(rest) => {
            assert(Seq::<StatusRecModel>::empty() + rest.1 =~= rest.1);
        },
    }
}

/// One status-record step of the stream: the parse from `off` is that record
/// prefixed onto the parse from past its 239 bytes.
proof fn lemma_parse_dat_step_status(b: Seq<u8>, off: int, h: CIHeader, rec: StatusRecModel)
    requires
        0 <= off,
        off + 2 < b.len(),
        spec_parse_header(b, off) == Some(h),
        h.header_type == 3,
        spec_parse_status_record(b, h, off + 21) == Some(rec),
        off + 21 + 218 <= b.len(),
    ensures
        spec_parse_dat_at(b, off) == prepend(
            Seq::empty(),
            seq![rec],
            spec_parse_dat_at(b, off + 21 + 218),
        ),
{
    let next = off + 21 + 218;
    match spec_parse_dat_at(b, next) {
        None => {},
        Some(rest) => {
            assert(Seq::<ImageRecModel>::empty() + rest.0 =~= rest.0);
        },
    }
}

/// The main parse function that goes through the entire dat buffer and
/// returns the records for use later.
///
/// * `dat_buffer` - the byte buffer of the `.dat` entry.
#[verifier::rlimit(60)]
pub fn parse_dat(dat_buffer: &Vec<u8>) -> (r: Result<
    (Vec<ImageRecord>, Vec<StatusRecord>),
    GlfError,
>)
    ensures
        match r {
            Ok(p) => spec_parse_dat_at(dat_buffer@, 0) == Some(
                (imgs_view(p.0@), stats_view(p.1@)),
            ),
            Err(e) => {
                &&& e == GlfError::TruncatedOrMalformed
                &&& spec_parse_dat_at(dat_buffer@, 0) is None
            },
        },
{
    let mut file_offset: usize = 0;
    let mut image_records: Vec<ImageRecord> = Vec::new();
    let mut status_records: Vec<StatusRecord> = Vec::new();
    let len: usize = dat_buffer.len();
    while len - file_offset > 2
        invariant
            file_offset <= len,
            len == dat_buffer@.len(),
            spec_parse_dat_at(dat_buffer@, 0) == prepend(
                imgs_view(image_records@),
                stats_view(status_records@),
                spec_parse_dat_at(dat_buffer@, file_offset as int),
            ),
        decreases len - file_offset,
    {
        let ghost old_off = file_offset as int;
        let ghost old_imgs = imgs_view(image_records@);
        let ghost old_stats = stats_view(status_records@);
        let header = match parse_header(dat_buffer, &mut file_offset) {
            Ok(h) => h,
            Err(e) => {
                return Err(e);
            },
        };
        if header.header_type == 0 {
            // image record
            let rec = match parse_image_record(&header, dat_buffer, &mut file_offset) {
                Ok(rec) => rec,
                Err(e) => {
                    return Err(e);
                },
            };
            let ghost rec_model = rec@;
            image_records.push(rec);
            proof {
                let b = dat_buffer@;
                let next = file_offset as int;
                lemma_parse_dat_step_image(b, old_off, header, rec_model);
                lemma_prepend_assoc(
                    old_imgs,
                    old_stats,
                    seq![rec_model],
                    Seq::empty(),
                    spec_parse_dat_at(b, next),
                );
                assert(imgs_view(image_records@) =~= old_imgs + seq![rec_model]);
                assert(old_stats + Seq::<StatusRecModel>::empty() =~= old_stats);
            }
        } else if header.header_type == 3 {
            // Gemini status record
            let rec = match parse_status_record(&header, dat_buffer, &mut file_offset) {
                Ok(rec) => rec,
                Err(e) => {
                    return Err(e);
                },
            };
            let ghost rec_model = rec@;
            status_records.push(rec);
            proof {
                let b = dat_buffer@;
                let next = file_offset as int;
                lemma_parse_dat_step_status(b, old_off, header, rec_model);
                lemma_prepend_assoc(
                    old_imgs,
                    old_stats,
                    Seq::empty(),
                    seq![rec_model],
                    spec_parse_dat_at(b, next),
                );
                assert(stats_view(status_records@) =~= old_stats + seq![rec_model]);
                assert(old_imgs + Seq::<ImageRecModel>::empty() =~= old_imgs);
            }
        } else {
            // V4 protocol (1), analog video (2), raw serial (98), generic
            // (99), and unknown types are all unsupported.
            return Err(GlfError::TruncatedOrMalformed);
        }
    }
    proof {
        let b = dat_buffer@;
        assert(spec_parse_dat_at(b, file_offset as int) == Some(
            (Seq::<ImageRecModel>::empty(), Seq::<StatusRecModel>::empty()),
        ));
        assert(imgs_view(image_records@) + Seq::<ImageRecModel>::empty() =~= imgs_view(
            image_records@,
        ));
        assert(stats_view(status_records@) + Seq::<StatusRecModel>::empty() =~= stats_view(
            status_records@,
        ));
    }
    Ok((image_records, status_records))
}

/// A GLF capture: the retained `.dat` byte buffer and the two ordered record
/// indexes parsed from it.
#[derive(Clone)]
pub struct GLF {
    /// A vector of the ImageRecords in stream order.
    pub images: Vec<ImageRecord>,
    /// A vector of StatusRecords in stream order.
    pub statuses: Vec<StatusRecord>,
    /// The raw data of the `.dat` entry as a vector of bytes.
    pub dat: Vec<u8>,
}

/// A small struct that holds the image but also the frame number of the next
/// record of the same sonar.
pub struct NidxImg {
    /// Frame number of the next image of the requested sonar.
    pub idx: u32,
    /// The image itself.
    pub img: Raster,
}

/// The result of extracting image `idx` from the records `imgs` over the
/// buffer `dat`: the payload bytes sliced at the recorded pointer, inflated
/// where the record is zlib-compressed, wrapped as a `width * height`
/// raster.
pub open spec fn spec_extract_image(dat: Seq<u8>, imgs: Seq<ImageRecModel>, idx: int) -> Result<
    RasterModel,
    GlfError,
> {
    if idx < 0 || idx >= imgs.len() {
        Err(GlfError::IndexOutOfRange)
    } else {
        let rec = imgs[idx];
        if rec.data_ptr + rec.data_size > dat.len() {
            Err(GlfError::TruncatedOrMalformed)
        } else {
            let payload = dat.subrange(rec.data_ptr as int, rec.data_ptr + rec.data_size);
            if rec.compression_type == 0 {
                match inflate_of(payload) {
                    None => Err(GlfError::DecompressionFailed),
                    Some(out) => if out.len() == rec.image_width * rec.image_height {
                        Ok(
                            RasterModel {
                                width: rec.image_width,
                                height: rec.image_height,
                                pixels: out,
                            },
                        )
                    } else {
                        Err(GlfError::DecompressionFailed)
                    },
                }
            } else if rec.compression_type == 2 {
                Err(GlfError::UnsupportedCompression)
            } else if rec.data_size == rec.image_width * rec.image_height {
                Ok(
                    RasterModel {
                        width: rec.image_width,
                        height: rec.image_height,
                        pixels: payload,
                    },
                )
            } else {
                Err(GlfError::TruncatedOrMalformed)
            }
        }
    }
}

/// The model of a raster extraction result.
pub open spec fn raster_result_view(r: Result<Raster, GlfError>) -> Result<
    RasterModel,
    GlfError,
> {
    match r {
        Ok(img) => Ok(img@),
        Err(e) => Err(e),
    }
}

/// The first index at or after `from` of an image record whose device id is
/// `sonar_id`.
pub open spec fn find_sonar(imgs: Seq<ImageRecModel>, from: int, sonar_id: u16) -> Option<int>
    decreases imgs.len() - from,
{
    if from < 0 || from >= imgs.len() {
        None
    } else if imgs[from].header.device_id == sonar_id {
        Some(from)
    } else {
        find_sonar(imgs, from + 1, sonar_id)
    }
}

/// Whether the image records' time fields never decrease in stream order.
/// Times are raw IEEE-754 bits of non-negative seconds-since-epoch values,
/// for which the `u64` bit-pattern order equals the time order.
pub open spec fn spec_times_nondecreasing(imgs: Seq<ImageRecModel>) -> bool {
    forall|i: int, j: int|
        0 <= i <= j < imgs.len() ==> imgs[i].header.time_bits <= imgs[j].header.time_bits
}

impl GLF {
    /// The models of the indexed image records.
    pub open spec fn imgs(self) -> Seq<ImageRecModel> {
        imgs_view(self.images@)
    }

    /// The models of the indexed status records.
    pub open spec fn stats(self) -> Seq<StatusRecModel> {
        stats_view(self.statuses@)
    }

    /// The facade is exactly what a successful parse of its retained buffer
    /// yields.
    pub open spec fn wf(self) -> bool {
        spec_parse_dat_at(self.dat@, 0) == Some((self.imgs(), self.stats()))
    }

    /// Create a new GLF object from the raw bytes of a GLF (ZIP) container.
    ///
    /// * `glf_bytes` - the container bytes, as read from a GLF file.
    pub fn new(glf_bytes: Vec<u8>) -> (r: Result<GLF, GlfError>)
        ensures
            match r {
                Ok(g) => {
                    &&& spec_dat_entry(glf_bytes@) == Some(g.dat@)
                    &&& g.wf()
                },
                Err(e) => {
                    ||| {
                        &&& e == GlfError::ContainerInvalid
                        &&& spec_dat_entry(glf_bytes@) is None
                    }
                    ||| {
                        &&& e == GlfError::TruncatedOrMalformed
                        &&& spec_dat_entry(glf_bytes@) matches Some(d)
                            && spec_parse_dat_at(d, 0) is None
                    }
                },
            },
    {
        match read_zip_dat(&glf_bytes) {
            Some(dat) => GLF::from_dat(dat),
            None => Err(GlfError::ContainerInvalid),
        }
    }

    /// Create a new GLF object directly from the bytes of a `.dat` record
    /// stream.
    ///
    /// * `dat` - the record-stream bytes; the facade retains them.
    pub fn from_dat(dat: Vec<u8>) -> (r: Result<GLF, GlfError>)
        ensures
            match r {
                Ok(g) => {
                    &&& g.dat@ == dat@
                    &&& g.wf()
                },
                Err(e) => {
                    &&& e == GlfError::TruncatedOrMalformed
                    &&& spec_parse_dat_at(dat@, 0) is None
                },
            },
    {
        match parse_dat(&dat) {
            Ok((images, statuses)) => Ok(GLF { images, statuses, dat }),
            Err(e) => Err(e),
        }
    }

    /// Return the number of images in this GLF.
    pub fn len(&self) -> (r: usize)
        ensures
            r == self.imgs().len(),
    {
        self.images.len()
    }

    /// Extract an image from the GLF file.
    ///
    /// * `idx` - the index of the image we want.
    pub fn extract_image(&self, idx: usize) -> (r: Result<Raster, GlfError>)
        ensures
            raster_result_view(r) == spec_extract_image(self.dat@, self.imgs(), idx as int),
    {
        if idx >= self.images.len() {
            return Err(GlfError::IndexOutOfRange);
        }
        let rec = &self.images[idx];
        proof {
            assert(self.imgs()[idx as int] == rec@);
        }
        if (rec.data_ptr as u64) + (rec.data_size as u64) > (self.dat.len() as u64) {
            return Err(GlfError::TruncatedOrMalformed);
        }
        let ptr: usize = rec.data_ptr as usize;
        let size: usize = rec.data_size as usize;
        let payload: Vec<u8> = vstd::slice::slice_to_vec(
            vstd::slice::slice_subrange(self.dat.as_slice(), ptr, ptr + size),
        );
        proof {
            crate::reader::lemma_u32_mul_fits(rec.image_width as u64, rec.image_height as u64);
        }
        let wh: u64 = (rec.image_width as u64) * (rec.image_height as u64);
        if rec.compression_type == 0 {
            match inflate_zlib(&payload) {
                Some(out) => {
                    if (out.len() as u64) == wh {
                        Ok(Raster { width: rec.image_width, height: rec.image_height, pixels: out })
                    } else {
                        Err(GlfError::DecompressionFailed)
                    }
                },
                None => Err(GlfError::DecompressionFailed),
            }
        } else if rec.compression_type == 2 {
            // H.264 decompression is not supported.
            Err(GlfError::UnsupportedCompression)
        } else {
            if (rec.data_size as u64) == wh {
                Ok(Raster { width: rec.image_width, height: rec.image_height, pixels: payload })
            } else {
                Err(GlfError::TruncatedOrMalformed)
            }
        }
    }

    /// Extract the image at the first record at or after `idx` whose device
    /// id is `sonar_id`, paired with the index of the *next* record of the
    /// same sonar; `None` where either search falls off the end of the image
    /// list or the extraction fails.
    ///
    /// * `idx` - the index the search starts from.
    /// * `sonar_id` - the id of the sonar we want to extract for, in the
    ///   case of multiplexed GLFs.
    pub fn extract_image_next_sonarid(&self, idx: usize, sonar_id: u16) -> (r: Option<NidxImg>)
        ensures
            (match find_sonar(self.imgs(), idx as int, sonar_id) {
                None => r is None,
                Some(t) => match find_sonar(self.imgs(), t + 1, sonar_id) {
                    None => r is None,
                    Some(n) => match spec_extract_image(self.dat@, self.imgs(), t) {
                        Ok(img) => r matches Some(ni) && ni.idx == n as u32 && ni.img@ == img,
                        Err(_) => r is None,
                    },
                },
            }),
    {
        let len: usize = self.images.len();
        let mut tidx: usize = idx;
        while tidx < len && self.images[tidx].header.device_id != sonar_id
            invariant
                len == self.images@.len(),
                idx <= tidx,
                find_sonar(self.imgs(), idx as int, sonar_id) == find_sonar(
                    self.imgs(),
                    tidx as int,
                    sonar_id,
                ),
            decreases len - tidx,
        {
            proof {
                assert(self.imgs()[tidx as int] == self.images@[tidx as int]@);
            }
            tidx = tidx + 1;
        }
        if tidx >= len {
            return None;
        }
        proof {
            assert(self.imgs()[tidx as int] == self.images@[tidx as int]@);
            assert(find_sonar(self.imgs(), tidx as int, sonar_id) == Some(tidx as int));
        }
        let mut nidx: usize = tidx + 1;
        while nidx < len && self.images[nidx].header.device_id != sonar_id
            invariant
                len == self.images@.len(),
                tidx < nidx,
                find_sonar(self.imgs(), tidx + 1, sonar_id) == find_sonar(
                    self.imgs(),
                    nidx as int,
                    sonar_id,
                ),
            decreases len - nidx,
        {
            proof {
                assert(self.imgs()[nidx as int] == self.images@[nidx as int]@);
            }
            nidx = nidx + 1;
        }
        if nidx >= len {
            return None;
        }
        proof {
            assert(self.imgs()[nidx as int] == self.images@[nidx as int]@);
            assert(find_sonar(self.imgs(), tidx + 1, sonar_id) == Some(nidx as int));
        }
        match self.extract_image(tidx) {
            Ok(img) => Some(NidxImg { idx: #[verifier::truncate] (nidx as u32), img }),
            Err(_) => None,
        }
    }

    /// Whether the indexed image records' times never decrease in stream
    /// order. Expected of well-formed captures, though the format does not
    /// enforce it.
    pub fn times_nondecreasing(&self) -> (r: bool)
        ensures
            r == spec_times_nondecreasing(self.imgs()),
    {
        let len: usize = self.images.len();
        if len == 0 {
            return true;
        }
        let mut k: usize = 1;
        while k < len
            invariant
                1 <= k <= len,
                len == self.images@.len(),
                forall|i: int, j: int|
                    0 <= i <= j < k ==> self.imgs()[i].header.time_bits
                        <= self.imgs()[j].header.time_bits,
            decreases len - k,
        {
            proof {
                assert(self.imgs()[k - 1] == self.images@[k - 1]@);
                assert(self.imgs()[k as int] == self.images@[k as int]@);
            }
            if self.images[k - 1].header.time_bits > self.images[k].header.time_bits {
                return false;
            }
            proof {
                assert forall|i: int, j: int| 0 <= i <= j < k + 1 implies self.imgs()[i].header.time_bits
                    <= self.imgs()[j].header.time_bits by {
                    if j == k && i < k {
                        assert(self.imgs()[i].header.time_bits
                            <= self.imgs()[k - 1].header.time_bits);
                    }
                }
            }
            k = k + 1;
        }
        true
    }
}

} // verus!
