//! Laws of the parsed stream: invariants every record of a successful parse
//! satisfies, coverage of the buffer by the records, and properties of the
//! sonar-filtered search.

use vstd::prelude::*;

use crate::ciheader::CIHeader;
use crate::ciheader::spec_parse_header;
use crate::error::GlfError;
use crate::glf::GLF;
use crate::glf::find_sonar;
use crate::glf::spec_extract_image;
use crate::glf::spec_parse_dat_at;
use crate::imagerec::ImageRecModel;
use crate::imagerec::spec_parse_image_record;
use crate::raster::RasterModel;
use crate::statusrec::StatusRecModel;
use crate::statusrec::spec_parse_status_record;

verus! {

/// What holds of every image record of a successful parse of a buffer of
/// `buffer_len` bytes: the bearing table is sized by the bearing bounds, the
/// image geometry equals those bounds' differences, the pixel payload lies
/// inside the buffer, and for legacy records the compression type is the
/// size-based inference.
pub open spec fn image_record_wf(rec: ImageRecModel, buffer_len: int) -> bool {
    &&& rec.header.header_size == 21
    &&& rec.version == 0xEFEF
    &&& rec.bearing_table.len() == rec.bearing_end - rec.bearing_start
    &&& rec.image_width == rec.bearing_end - rec.bearing_start
    &&& rec.image_height == rec.range_end - rec.range_start
    &&& rec.data_ptr + rec.data_size <= buffer_len
    &&& rec.record_size >= 62
    &&& (rec.image_version != 3 ==> {
        &&& (rec.compression_type == 1 <==> rec.data_size == rec.image_width * rec.image_height)
        &&& (rec.compression_type == 0 || rec.compression_type == 1)
    })
}

/// One decoded image record satisfies [`image_record_wf`], and its body lies
/// inside the buffer.
pub proof fn lemma_image_record_wf(b: Seq<u8>, h: CIHeader, off: int)
    requires
        0 <= off,
        h.header_size == 21,
        spec_parse_image_record(b, h, off) is Some,
    ensures
        ({
            let rec = spec_parse_image_record(b, h, off).unwrap();
            &&& image_record_wf(rec, b.len() as int)
            &&& rec.header == h
            &&& off + rec.record_size <= b.len()
        }),
{
}

/// Every record of a successful parse carries a 21-byte header, and every
/// image record satisfies [`image_record_wf`].
pub proof fn lemma_record_invariants(b: Seq<u8>, off: int)
    requires
        0 <= off <= b.len(),
        spec_parse_dat_at(b, off) is Some,
    ensures
        ({
            let (imgs, stats) = spec_parse_dat_at(b, off).unwrap();
            &&& forall|i: int| 0 <= i < imgs.len() ==> image_record_wf(#[trigger] imgs[i], b.len() as int)
            &&& forall|i: int| 0 <= i < stats.len() ==> (#[trigger] stats[i]).header.header_size
                == 21
        }),
    decreases b.len() - off,
{
    if off + 2 >= b.len() {
    } else {
        let h = spec_parse_header(b, off).unwrap();
        let (imgs, stats) = spec_parse_dat_at(b, off).unwrap();
        if h.header_type == 0 {
            let rec = spec_parse_image_record(b, h, off + 21).unwrap();
            let next = off + 21 + rec.record_size;
            lemma_image_record_wf(b, h, off + 21);
            lemma_record_invariants(b, next);
            let (ri, rs) = spec_parse_dat_at(b, next).unwrap();
            assert(imgs == seq![rec] + ri);
            assert(stats == rs);
            assert forall|i: int| 0 <= i < imgs.len() implies image_record_wf(
                #[trigger] imgs[i],
                b.len() as int,
            ) by {
                if i == 0 {
                    assert(imgs[0] == rec);
                } else {
                    assert(imgs[i] == ri[i - 1]);
                }
            }
        } else {
            let rec = spec_parse_status_record(b, h, off + 21).unwrap();
            let next = off + 21 + 218;
            lemma_record_invariants(b, next);
            let (ri, rs) = spec_parse_dat_at(b, next).unwrap();
            assert(imgs == ri);
            assert(stats == seq![rec] + rs);
            assert forall|i: int| 0 <= i < stats.len() implies (#[trigger] stats[i]).header.header_size
                == 21 by {
                if i == 0 {
                    assert(stats[0] == rec);
                } else {
                    assert(stats[i] == rs[i - 1]);
                }
            }
        }
    }
}

/// Bytes the image records of a stream cover: each record's body plus its
/// 21-byte header.
pub open spec fn images_size(imgs: Seq<ImageRecModel>) -> int
    decreases imgs.len(),
{
    if imgs.len() == 0 {
        0
    } else {
        imgs[0].record_size + 21 + images_size(imgs.drop_first())
    }
}

/// Bytes all the records of a stream cover. A status record body is always
/// 218 bytes, so with its header it covers 239.
pub open spec fn stream_size(imgs: Seq<ImageRecModel>, stats: Seq<StatusRecModel>) -> int {
    images_size(imgs) + stats.len() * 239
}

/// The records of a successful parse cover the buffer from `off` on, gap
/// free and in order, up to the final position where the walker stops:
/// within the last 2 bytes of the buffer. A stream whose final record ends
/// exactly at the buffer end is covered exactly.
pub proof fn lemma_stream_coverage(b: Seq<u8>, off: int)
    requires
        0 <= off <= b.len(),
        spec_parse_dat_at(b, off) is Some,
    ensures
        ({
            let (imgs, stats) = spec_parse_dat_at(b, off).unwrap();
            &&& off + stream_size(imgs, stats) <= b.len()
            &&& off + stream_size(imgs, stats) >= b.len() - 2
        }),
    decreases b.len() - off,
{
    let (imgs, stats) = spec_parse_dat_at(b, off).unwrap();
    if off + 2 >= b.len() {
        assert(stream_size(imgs, stats) == 0);
    } else {
        let h = spec_parse_header(b, off).unwrap();
        if h.header_type == 0 {
            let rec = spec_parse_image_record(b, h, off + 21).unwrap();
            let next = off + 21 + rec.record_size;
            lemma_stream_coverage(b, next);
            let (ri, rs) = spec_parse_dat_at(b, next).unwrap();
            assert(imgs == seq![rec] + ri);
            assert(imgs.drop_first() =~= ri);
            assert(imgs[0] == rec);
            assert(images_size(imgs) == rec.record_size + 21 + images_size(ri));
        } else {
            let rec = spec_parse_status_record(b, h, off + 21).unwrap();
            let next = off + 21 + 218;
            lemma_stream_coverage(b, next);
            let (ri, rs) = spec_parse_dat_at(b, next).unwrap();
            assert(imgs == ri);
            assert(stats == seq![rec] + rs);
            assert(stats.len() == rs.len() + 1);
        }
    }
}

/// Every record indexed by a facade that a successful open built satisfies
/// the stream invariants: 21-byte headers, and [`image_record_wf`] for every
/// image record, over the facade's own retained buffer.
pub proof fn lemma_glf_record_invariants(g: GLF)
    requires
        g.wf(),
    ensures
        forall|i: int|
            0 <= i < g.imgs().len() ==> image_record_wf(#[trigger] g.imgs()[i], g.dat@.len() as int),
        forall|i: int| 0 <= i < g.stats().len() ==> (#[trigger] g.stats()[i]).header.header_size
            == 21,
{
    lemma_record_invariants(g.dat@, 0);
    let (imgs, stats) = spec_parse_dat_at(g.dat@, 0).unwrap();
    assert(imgs == g.imgs());
    assert(stats == g.stats());
    assert forall|i: int| 0 <= i < g.imgs().len() implies image_record_wf(
        #[trigger] g.imgs()[i],
        g.dat@.len() as int,
    ) by {
        assert(image_record_wf(imgs[i], g.dat@.len() as int));
    }
    assert forall|i: int| 0 <= i < g.stats().len() implies (#[trigger] g.stats()[i]).header.header_size
        == 21 by {
        assert(stats[i].header.header_size == 21);
    }
}

/// The records of a facade that a successful open built cover its whole
/// retained buffer, gap free and in order, except for at most the last 2
/// bytes, which the stream walker never looks at.
pub proof fn lemma_glf_coverage(g: GLF)
    requires
        g.wf(),
    ensures
        g.dat@.len() - 2 <= stream_size(g.imgs(), g.stats()) <= g.dat@.len(),
{
    lemma_stream_coverage(g.dat@, 0);
}

/// What the sonar-filtered search returns: the first match at or after
/// `from`, or `None` exactly when no record from `from` on matches.
pub proof fn lemma_find_sonar_props(imgs: Seq<ImageRecModel>, from: int, sonar_id: u16)
    requires
        0 <= from,
    ensures
        match find_sonar(imgs, from, sonar_id) {
            Some(i) => {
                &&& from <= i < imgs.len()
                &&& imgs[i].header.device_id == sonar_id
                &&& forall|j: int| from <= j < i ==> (#[trigger] imgs[j]).header.device_id
                    != sonar_id
            },
            None => forall|j: int|
                from <= j < imgs.len() ==> (#[trigger] imgs[j]).header.device_id != sonar_id,
        },
    decreases imgs.len() - from,
{
    if from < 0 || from >= imgs.len() {
    } else if imgs[from].header.device_id == sonar_id {
    } else {
        lemma_find_sonar_props(imgs, from + 1, sonar_id);
    }
}

/// The follower index of a sonar-filtered extraction lies strictly past the
/// extracted frame, and both indexed records belong to the requested sonar.
pub proof fn lemma_next_sonarid_advances(
    imgs: Seq<ImageRecModel>,
    idx: int,
    sonar_id: u16,
    t: int,
    n: int,
)
    requires
        0 <= idx,
        find_sonar(imgs, idx, sonar_id) == Some(t),
        find_sonar(imgs, t + 1, sonar_id) == Some(n),
    ensures
        idx <= t < n < imgs.len(),
        imgs[t].header.device_id == sonar_id,
        imgs[n].header.device_id == sonar_id,
        imgs.len() <= u32::MAX ==> n as u32 > t,
{
    lemma_find_sonar_props(imgs, idx, sonar_id);
    lemma_find_sonar_props(imgs, t + 1, sonar_id);
}

/// Extraction of an uncompressed image record yields exactly the payload
/// bytes `dat[data_ptr .. data_ptr + data_size]`.
pub proof fn lemma_uncompressed_roundtrip(dat: Seq<u8>, imgs: Seq<ImageRecModel>, idx: int)
    requires
        0 <= idx < imgs.len(),
        imgs[idx].compression_type != 0,
        imgs[idx].compression_type != 2,
        imgs[idx].data_ptr + imgs[idx].data_size <= dat.len(),
        imgs[idx].data_size == imgs[idx].image_width * imgs[idx].image_height,
    ensures
        spec_extract_image(dat, imgs, idx) == Ok::<RasterModel, GlfError>(
            RasterModel {
                width: imgs[idx].image_width,
                height: imgs[idx].image_height,
                pixels: dat.subrange(
                    imgs[idx].data_ptr as int,
                    imgs[idx].data_ptr + imgs[idx].data_size,
                ),
            },
        ),
{
}

/// Any index at or past the number of image records is rejected as out of
/// range.
pub proof fn lemma_extract_out_of_range(dat: Seq<u8>, imgs: Seq<ImageRecModel>, idx: int)
    requires
        idx >= imgs.len(),
    ensures
        spec_extract_image(dat, imgs, idx) == Err::<RasterModel, GlfError>(
            GlfError::IndexOutOfRange,
        ),
{
}

/// A header parse only looks at its own 21 bytes: it is the same on any
/// prefix that holds them.
proof fn lemma_header_prefix(b: Seq<u8>, m: int, off: int)
    requires
        0 <= off,
        off + 21 <= m <= b.len(),
    ensures
        spec_parse_header(b.take(m), off) == spec_parse_header(b, off),
{
    assert(b.take(m).len() == m);
    assert(forall|j: int| 0 <= j < m ==> b.take(m)[j] == b[j]);
}

/// An image record parse only looks at its own bytes: it is the same on any
/// prefix that holds the whole record.
proof fn lemma_image_record_prefix_full(b: Seq<u8>, m: int, h: CIHeader, off: int)
    requires
        0 <= off,
        spec_parse_image_record(b, h, off) is Some,
        off + spec_parse_image_record(b, h, off).unwrap().record_size <= m <= b.len(),
    ensures
        spec_parse_image_record(b.take(m), h, off) == spec_parse_image_record(b, h, off),
{
    let bt = b.take(m);
    assert(bt.len() == m);
    assert(forall|j: int| 0 <= j < m ==> bt[j] == b[j]);
    let rec = spec_parse_image_record(b, h, off).unwrap();
    let rec2 = spec_parse_image_record(bt, h, off).unwrap();
    assert(rec2.bearing_table =~= rec.bearing_table);
    assert(rec2 =~= rec);
}

/// A prefix that cuts an image record anywhere before its end no longer
/// parses: every such parse is `None`.
proof fn lemma_image_record_prefix_cut(b: Seq<u8>, m: int, h: CIHeader, off: int)
    requires
        0 <= off,
        spec_parse_image_record(b, h, off) is Some,
        off <= m < off + spec_parse_image_record(b, h, off).unwrap().record_size,
        m <= b.len(),
    ensures
        spec_parse_image_record(b.take(m), h, off) is None,
{
    let bt = b.take(m);
    assert(bt.len() == m);
    assert(forall|j: int| 0 <= j < m ==> bt[j] == b[j]);
}

/// A status record parse only looks at its own 218 bytes: it is the same on
/// any prefix that holds them, and `None` on any prefix that cuts them.
proof fn lemma_status_record_prefix(b: Seq<u8>, m: int, h: CIHeader, off: int)
    requires
        0 <= off,
        spec_parse_status_record(b, h, off) is Some,
        off <= m <= b.len(),
    ensures
        off + 218 <= m ==> spec_parse_status_record(b.take(m), h, off) == spec_parse_status_record(
            b,
            h,
            off,
        ),
        m < off + 218 ==> spec_parse_status_record(b.take(m), h, off) is None,
{
    let bt = b.take(m);
    assert(bt.len() == m);
    assert(forall|j: int| 0 <= j < m ==> bt[j] == b[j]);
    if off + 218 <= m {
        let rec = spec_parse_status_record(b, h, off).unwrap();
        let rec2 = spec_parse_status_record(bt, h, off).unwrap();
        assert(rec2.subnet_mask =~= rec.subnet_mask);
        assert(rec2.mac_addr =~= rec.mac_addr);
        assert(rec2 =~= rec);
    }
}

/// A stream that a successful parse covers exactly to the buffer end, with
/// at least one record, no longer parses when the buffer is cut short by
/// one byte.
pub proof fn lemma_short_by_one_byte(b: Seq<u8>, off: int)
    requires
        0 <= off <= b.len(),
        spec_parse_dat_at(b, off) is Some,
        ({
            let (imgs, stats) = spec_parse_dat_at(b, off).unwrap();
            &&& off + stream_size(imgs, stats) == b.len()
            &&& imgs.len() + stats.len() >= 1
        }),
    ensures
        spec_parse_dat_at(b.take(b.len() - 1), off) is None,
    decreases b.len() - off,
{
    let bt = b.take(b.len() - 1);
    let (imgs, stats) = spec_parse_dat_at(b, off).unwrap();
    lemma_images_size_nonneg(imgs);
    assert(off + 2 < b.len());
    assert(bt.len() == b.len() - 1);
    let h = spec_parse_header(b, off).unwrap();
    lemma_header_prefix(b, b.len() - 1, off);
    if h.header_type == 0 {
        let rec = spec_parse_image_record(b, h, off + 21).unwrap();
        let next = off + 21 + rec.record_size;
        lemma_image_record_wf(b, h, off + 21);
        let (ri, rs) = spec_parse_dat_at(b, next).unwrap();
        assert(imgs == seq![rec] + ri);
        assert(stats == rs);
        assert(imgs.drop_first() =~= ri);
        assert(imgs[0] == rec);
        assert(images_size(imgs) == rec.record_size + 21 + images_size(ri));
        if ri.len() + rs.len() == 0 {
            // the record under the cut is the last one, and it ended exactly
            // at the buffer end
            assert(images_size(ri) == 0);
            assert(next == b.len());
            lemma_image_record_prefix_cut(b, b.len() - 1, h, off + 21);
        } else {
            assert(next + stream_size(ri, rs) == b.len());
            lemma_rest_size_lower_bound(b, next, ri, rs);
            lemma_short_by_one_byte(b, next);
            lemma_image_record_prefix_full(b, b.len() - 1, h, off + 21);
        }
    } else {
        let rec = spec_parse_status_record(b, h, off + 21).unwrap();
        let next = off + 21 + 218;
        let (ri, rs) = spec_parse_dat_at(b, next).unwrap();
        assert(imgs == ri);
        assert(stats == seq![rec] + rs);
        assert(stats.len() == rs.len() + 1);
        if ri.len() + rs.len() == 0 {
            assert(images_size(ri) == 0);
            assert(next == b.len());
            lemma_status_record_prefix(b, b.len() - 1, h, off + 21);
        } else {
            assert(next + stream_size(ri, rs) == b.len());
            lemma_rest_size_lower_bound(b, next, ri, rs);
            lemma_short_by_one_byte(b, next);
            lemma_status_record_prefix(b, b.len() - 1, h, off + 21);
        }
    }
}

/// A nonempty tail of a parsed stream covers at least one whole record:
/// 83 bytes or more.
proof fn lemma_rest_size_lower_bound(
    b: Seq<u8>,
    off: int,
    imgs: Seq<ImageRecModel>,
    stats: Seq<StatusRecModel>,
)
    requires
        0 <= off <= b.len(),
        spec_parse_dat_at(b, off) == Some((imgs, stats)),
        imgs.len() + stats.len() >= 1,
    ensures
        stream_size(imgs, stats) >= 83,
{
    lemma_images_size_nonneg(imgs);
    if imgs.len() > 0 {
        lemma_record_invariants(b, off);
        assert(spec_parse_dat_at(b, off).unwrap().0 == imgs);
        assert(image_record_wf(imgs[0], b.len() as int));
        assert(imgs[0].record_size >= 62);
        assert(images_size(imgs) == imgs[0].record_size + 21 + images_size(imgs.drop_first()));
        lemma_images_size_nonneg(imgs.drop_first());
    }
}

/// The image records of a stream never cover a negative number of bytes.
proof fn lemma_images_size_nonneg(imgs: Seq<ImageRecModel>)
    ensures
        images_size(imgs) >= 0,
    decreases imgs.len(),
{
    if imgs.len() > 0 {
        lemma_images_size_nonneg(imgs.drop_first());
    }
}


} // verus!

